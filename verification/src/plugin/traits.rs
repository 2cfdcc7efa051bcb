//! Findings, scan settings and clean-up results.

use crate::collections::StringMap;
use crate::time::Timestamp;
use vstd::prelude::*;

verus! {

/// The kind of storage a scanner looks at.
#[derive(Debug, Clone, Copy, PartialEq, Eq, Hash, Structural)]
pub enum ScannerCategory {
    System,
    Browser,
    Development,
    Apps,
    Trash,
}

impl ScannerCategory {
    /// The category's name as it is shown.
    pub open spec fn label(self) -> Seq<char> {
        match self {
            ScannerCategory::System => "System"@,
            ScannerCategory::Browser => "Browser"@,
            ScannerCategory::Development => "Development"@,
            ScannerCategory::Apps => "Apps"@,
            ScannerCategory::Trash => "Trash"@,
        }
    }

    /// The category's name as it is shown.
    pub fn to_string(&self) -> (s: String)
        ensures
            s@ == self.label(),
    {
        match self {
            ScannerCategory::System => String::from_str("System"),
            ScannerCategory::Browser => String::from_str("Browser"),
            ScannerCategory::Development => String::from_str("Development"),
            ScannerCategory::Apps => String::from_str("Apps"),
            ScannerCategory::Trash => String::from_str("Trash"),
        }
    }
}

/// Whether a finding may be deleted.
#[derive(Debug, Clone, Copy, PartialEq, Eq, Structural)]
pub enum SafetyLevel {
    Safe,
    Caution,
    Protected,
}

impl SafetyLevel {
    /// Deletion is allowed at this level.
    pub open spec fn allows_delete(self) -> bool {
        self == SafetyLevel::Safe || self == SafetyLevel::Caution
    }

    /// Whether deletion is allowed at this level.
    pub fn is_deletable(&self) -> (r: bool)
        ensures
            r == self.allows_delete(),
    {
        match self {
            SafetyLevel::Safe => true,
            SafetyLevel::Caution => true,
            SafetyLevel::Protected => false,
        }
    }
}

/// The texts that a vector of strings holds.
pub open spec fn texts(s: Seq<String>) -> Seq<Seq<char>> {
    s.map_values(|t: String| t@)
}

/// A copy of a vector of strings.
pub fn clone_strings(v: &Vec<String>) -> (r: Vec<String>)
    ensures
        r@ == v@,
{
    let mut r: Vec<String> = Vec::new();
    let mut i: usize = 0;
    while i < v.len()
        invariant
            i <= v.len(),
            r@ == v@.take(i as int),
        decreases v.len() - i,
    {
        r.push(v[i].clone());
        assert(v@.take(i + 1) == v@.take(i as int).push(v@[i as int]));
        i += 1;
    }
    assert(v@.take(v.len() as int) == v@);
    r
}

/// Settings of a scan.
#[derive(Debug)]
pub struct ScanConfig {
    /// Findings smaller than this many bytes are left out.
    pub min_size: u64,
    /// How many directory levels a walk may descend.
    pub max_depth: usize,
    /// Paths under any of these are left out.
    pub excluded_paths: Vec<String>,
    pub follow_symlinks: bool,
}

/// Scan settings, with the excluded paths as character sequences.
pub struct ScanConfigView {
    pub min_size: u64,
    pub max_depth: usize,
    pub excluded_paths: Seq<Seq<char>>,
    pub follow_symlinks: bool,
}

impl View for ScanConfig {
    type V = ScanConfigView;

    open spec fn view(&self) -> ScanConfigView {
        ScanConfigView {
            min_size: self.min_size,
            max_depth: self.max_depth,
            excluded_paths: texts(self.excluded_paths@),
            follow_symlinks: self.follow_symlinks,
        }
    }
}

impl Default for ScanConfig {
    fn default() -> (c: Self)
        ensures
            c.min_size == 1024 * 1024,
            c.max_depth == 3,
            c.excluded_paths@.len() == 0,
            !c.follow_symlinks,
    {
        ScanConfig {
            min_size: 1024 * 1024,
            max_depth: 3,
            excluded_paths: Vec::new(),
            follow_symlinks: false,
        }
    }
}

impl Clone for ScanConfig {
    fn clone(&self) -> (c: Self)
        ensures
            c.min_size == self.min_size,
            c.max_depth == self.max_depth,
            c.excluded_paths@ == self.excluded_paths@,
            c.follow_symlinks == self.follow_symlinks,
    {
        ScanConfig {
            min_size: self.min_size,
            max_depth: self.max_depth,
            excluded_paths: clone_strings(&self.excluded_paths),
            follow_symlinks: self.follow_symlinks,
        }
    }
}

/// One reclaimable or actionable object that a scanner found.
#[derive(Debug)]
pub struct ScanResult {
    pub id: String,
    pub name: String,
    pub path: String,
    pub size: u64,
    pub file_count: u64,
    pub dir_count: u64,
    pub last_accessed: Option<Timestamp>,
    pub last_modified: Option<Timestamp>,
    pub safety_level: SafetyLevel,
    pub category: ScannerCategory,
    pub metadata: StringMap<String>,
}

/// What a finding says, with its texts as character sequences.
pub struct ScanResultView {
    pub id: Seq<char>,
    pub name: Seq<char>,
    pub path: Seq<char>,
    pub size: u64,
    pub file_count: u64,
    pub dir_count: u64,
    pub last_accessed: Option<Timestamp>,
    pub last_modified: Option<Timestamp>,
    pub safety_level: SafetyLevel,
    pub category: ScannerCategory,
    pub metadata: Map<Seq<char>, Seq<char>>,
}

impl View for ScanResult {
    type V = ScanResultView;

    open spec fn view(&self) -> ScanResultView {
        ScanResultView {
            id: self.id@,
            name: self.name@,
            path: self.path@,
            size: self.size,
            file_count: self.file_count,
            dir_count: self.dir_count,
            last_accessed: self.last_accessed,
            last_modified: self.last_modified,
            safety_level: self.safety_level,
            category: self.category,
            metadata: self.metadata.texts(),
        }
    }
}

impl ScanResultView {
    /// A finding with nothing known but its identity, name and path: no size,
    /// safe, of the system category.
    pub open spec fn bare(id: Seq<char>, name: Seq<char>, path: Seq<char>) -> ScanResultView {
        ScanResultView {
            id,
            name,
            path,
            size: 0,
            file_count: 0,
            dir_count: 0,
            last_accessed: None,
            last_modified: None,
            safety_level: SafetyLevel::Safe,
            category: ScannerCategory::System,
            metadata: Map::empty(),
        }
    }

    /// The finding with one more metadata entry.
    pub open spec fn with_meta(self, key: Seq<char>, value: Seq<char>) -> ScanResultView {
        ScanResultView { metadata: self.metadata.insert(key, value), ..self }
    }
}

impl Clone for ScanResult {
    fn clone(&self) -> (r: Self)
        ensures
            r@ == self@,
    {
        ScanResult {
            id: self.id.clone(),
            name: self.name.clone(),
            path: self.path.clone(),
            size: self.size,
            file_count: self.file_count,
            dir_count: self.dir_count,
            last_accessed: self.last_accessed,
            last_modified: self.last_modified,
            safety_level: self.safety_level,
            category: self.category,
            metadata: self.metadata.clone(),
        }
    }
}

impl ScanResult {
    /// A finding with nothing known but its identity, name and path.
    pub fn new(id: String, name: String, path: String) -> (r: Self)
        ensures
            r@ == ScanResultView::bare(id@, name@, path@),
    {
        let r = ScanResult {
            id,
            name,
            path,
            size: 0,
            file_count: 0,
            dir_count: 0,
            last_accessed: None,
            last_modified: None,
            safety_level: SafetyLevel::Safe,
            category: ScannerCategory::System,
            metadata: StringMap::new(),
        };
        assert(r.metadata.texts() =~= Map::<Seq<char>, Seq<char>>::empty());
        r
    }

    pub fn with_size(self, size: u64) -> (r: Self)
        ensures
            r@ == (ScanResultView { size, ..self@ }),
    {
        let mut r = self;
        r.size = size;
        r
    }

    pub fn with_file_count(self, count: u64) -> (r: Self)
        ensures
            r@ == (ScanResultView { file_count: count, ..self@ }),
    {
        let mut r = self;
        r.file_count = count;
        r
    }

    pub fn with_category(self, category: ScannerCategory) -> (r: Self)
        ensures
            r@ == (ScanResultView { category, ..self@ }),
    {
        let mut r = self;
        r.category = category;
        r
    }

    pub fn with_safety(self, level: SafetyLevel) -> (r: Self)
        ensures
            r@ == (ScanResultView { safety_level: level, ..self@ }),
    {
        let mut r = self;
        r.safety_level = level;
        r
    }

    pub fn with_last_accessed(self, at: Option<Timestamp>) -> (r: Self)
        ensures
            r@ == (ScanResultView { last_accessed: at, ..self@ }),
    {
        let mut r = self;
        r.last_accessed = at;
        r
    }

    pub fn with_last_modified(self, at: Option<Timestamp>) -> (r: Self)
        ensures
            r@ == (ScanResultView { last_modified: at, ..self@ }),
    {
        let mut r = self;
        r.last_modified = at;
        r
    }

    /// The finding with the metadata entry `key` set to `value`.
    pub fn with_meta(self, key: &str, value: String) -> (r: Self)
        ensures
            r@ == self@.with_meta(key@, value@),
    {
        let mut r = self;
        r.metadata.insert_text(key, value);
        r
    }
}

/// Settings of a clean-up.
#[derive(Debug, Clone, Copy)]
pub struct CleanConfig {
    /// Report what would be done and change nothing.
    pub dry_run: bool,
    /// Record each deletion in the history log.
    pub log_history: bool,
}

impl Default for CleanConfig {
    fn default() -> (c: Self)
        ensures
            c.dry_run,
            c.log_history,
    {
        CleanConfig { dry_run: true, log_history: true }
    }
}

/// The outcome of a clean-up.
#[derive(Debug)]
pub struct CleanResult {
    pub success_count: usize,
    pub failed_count: usize,
    pub total_freed: u64,
    /// Path and error of each item that failed, in the order of the request.
    pub failed_items: Vec<(String, String)>,
    pub duration_ms: u64,
}

impl CleanResult {
    /// The outcome of a clean-up of nothing.
    pub fn new() -> (r: Self)
        ensures
            r.success_count == 0,
            r.failed_count == 0,
            r.total_freed == 0,
            r.failed_items@.len() == 0,
            r.duration_ms == 0,
    {
        CleanResult {
            success_count: 0,
            failed_count: 0,
            total_freed: 0,
            failed_items: Vec::new(),
            duration_ms: 0,
        }
    }
}

impl Default for CleanResult {
    fn default() -> (r: Self)
        ensures
            r.success_count == 0,
            r.failed_count == 0,
            r.total_freed == 0,
            r.failed_items@.len() == 0,
            r.duration_ms == 0,
    {
        Self::new()
    }
}

} // verus!
