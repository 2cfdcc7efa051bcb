//! Programs that the system starts by itself: launch agents, launch daemons
//! and login items, each described by a property list.

use super::maintenance::{flag_string, flag_text};
use crate::paths::{
    extension, extension_of, file_stem, file_stem_of, is_under_any, join, joined, under_any,
};
use crate::plists::{
    plist_first_text, plist_flag, plist_kind, plist_text, read, PlistKind,
};
use crate::plugin::{
    SafetyLevel, ScanConfig, ScanConfigView, ScanResult, ScanResultView, ScannerCategory,
};
use crate::search::collect;
use crate::sorting::views;
use crate::text::{concat, from_chars, str_eq, to_chars};
use vstd::prelude::*;

verus! {

/// Where a startup item is installed.
#[derive(Debug, Clone, Copy, PartialEq, Eq, Structural)]
pub enum StartupCategory {
    UserLaunchAgent,
    SystemLaunchAgent,
    SystemLaunchDaemon,
    LoginItem,
}

impl StartupCategory {
    /// The category's name as it is shown.
    pub open spec fn label(self) -> Seq<char> {
        match self {
            StartupCategory::UserLaunchAgent => "User LaunchAgent"@,
            StartupCategory::SystemLaunchAgent => "System LaunchAgent"@,
            StartupCategory::SystemLaunchDaemon => "System LaunchDaemon"@,
            StartupCategory::LoginItem => "Login Item"@,
        }
    }

    pub fn display_name(&self) -> (r: &'static str)
        ensures
            r@ == self.label(),
    {
        match self {
            StartupCategory::UserLaunchAgent => "User LaunchAgent",
            StartupCategory::SystemLaunchAgent => "System LaunchAgent",
            StartupCategory::SystemLaunchDaemon => "System LaunchDaemon",
            StartupCategory::LoginItem => "Login Item",
        }
    }
}

/// One program that is started by the system.
#[derive(Debug)]
pub struct StartupItem {
    pub label: String,
    pub program: String,
    pub path: String,
    pub category: StartupCategory,
    pub run_at_load: bool,
    pub disabled: bool,
}

/// A startup item, with its texts as character sequences.
pub struct StartupItemView {
    pub label: Seq<char>,
    pub program: Seq<char>,
    pub path: Seq<char>,
    pub category: StartupCategory,
    pub run_at_load: bool,
    pub disabled: bool,
}

impl View for StartupItem {
    type V = StartupItemView;

    open spec fn view(&self) -> StartupItemView {
        StartupItemView {
            label: self.label@,
            program: self.program@,
            path: self.path@,
            category: self.category,
            run_at_load: self.run_at_load,
            disabled: self.disabled,
        }
    }
}

/// A directory of startup items.
#[derive(Debug)]
pub struct StartupLocation {
    pub name: String,
    pub path: String,
    pub category: StartupCategory,
}

/// A directory of startup items, with its texts as character sequences.
pub struct StartupLocationView {
    pub name: Seq<char>,
    pub path: Seq<char>,
    pub category: StartupCategory,
}

impl View for StartupLocation {
    type V = StartupLocationView;

    open spec fn view(&self) -> StartupLocationView {
        StartupLocationView { name: self.name@, path: self.path@, category: self.category }
    }
}

/// The directories of startup items for the home directory `home`.
pub open spec fn startup_locations(home: Seq<char>) -> Seq<StartupLocationView> {
    seq![
        StartupLocationView {
            name: "User LaunchAgents"@,
            path: joined(home, "Library/LaunchAgents"@),
            category: StartupCategory::UserLaunchAgent,
        },
        StartupLocationView {
            name: "System LaunchAgents"@,
            path: "/Library/LaunchAgents"@,
            category: StartupCategory::SystemLaunchAgent,
        },
        StartupLocationView {
            name: "System LaunchDaemons"@,
            path: "/Library/LaunchDaemons"@,
            category: StartupCategory::SystemLaunchDaemon,
        },
        StartupLocationView {
            name: "Login Items"@,
            path: joined(home, "Library/LoginItems"@),
            category: StartupCategory::LoginItem,
        },
    ]
}

/// The startup item that the property list `content` of the file `path`
/// describes, if its root is a dictionary. The label is the one the list
/// gives, else the file's name without extension; the program is the one the
/// list names, else its first argument, else the file itself.
pub open spec fn described(path: Seq<char>, content: Seq<u8>) -> Option<StartupItemView> {
    if plist_kind(content) != PlistKind::Dictionary {
        None
    } else {
        Some(
            StartupItemView {
                label: match plist_text(content, "Label"@) {
                    Some(l) => l,
                    None => match file_stem_of(path) {
                        Some(stem) => stem,
                        None => "Unknown"@,
                    },
                },
                program: match plist_text(content, "Program"@) {
                    Some(p) => p,
                    None => match plist_first_text(content, "ProgramArguments"@) {
                        Some(a) => a,
                        None => path,
                    },
                },
                path,
                category: StartupCategory::UserLaunchAgent,
                run_at_load: match plist_flag(content, "RunAtLoad"@) {
                    Some(b) => b,
                    None => false,
                },
                disabled: match plist_flag(content, "Disabled"@) {
                    Some(b) => b,
                    None => false,
                },
            },
        )
    }
}

/// `s` with an underscore in place of each dot.
pub open spec fn undotted(s: Seq<char>) -> Seq<char> {
    s.map_values(
        |c: char|
            if c == '.' {
                '_'
            } else {
                c
            },
    )
}

/// The finding that reports `item`: no bytes, one file, to be handled with
/// caution.
pub open spec fn item_finding(item: StartupItemView) -> ScanResultView {
    ScanResultView {
        id: "startup_"@ + undotted(item.label),
        name: item.label,
        path: item.path,
        size: 0,
        file_count: 1,
        dir_count: 0,
        last_accessed: None,
        last_modified: None,
        safety_level: SafetyLevel::Caution,
        category: ScannerCategory::System,
        metadata: Map::empty().insert("scanner_id"@, "startup_items"@).insert(
            "category"@,
            item.category.label(),
        ).insert("program"@, item.program).insert(
            "run_at_load"@,
            flag_text(item.run_at_load),
        ).insert("disabled"@, flag_text(item.disabled)),
    }
}

/// The finding for `item` under the settings `config`, unless its path is
/// excluded.
pub open spec fn finding_of(config: ScanConfigView, item: StartupItemView) -> Option<
    ScanResultView,
> {
    if is_under_any(item.path, config.excluded_paths) {
        None
    } else {
        Some(item_finding(item))
    }
}

/// A property list file as it was read: its path and its bytes.
#[derive(Debug)]
pub struct PlistFile {
    pub path: String,
    pub content: Vec<u8>,
}

/// The startup item of `category` that `file` describes, if it is a
/// property list by its extension and by its content.
pub open spec fn item_in(category: StartupCategory, file: PlistFile) -> Option<StartupItemView> {
    if extension_of(file.path@) != Some("plist"@) {
        None
    } else {
        match described(file.path@, file.content@) {
            Some(item) => Some(StartupItemView { category, ..item }),
            None => None,
        }
    }
}

/// Lists the programs that the system starts by itself.
pub struct StartupItemsScanner {
    search_paths: Vec<StartupLocation>,
}

impl StartupItemsScanner {
    /// The directories in which the scanner looks.
    pub closed spec fn places(&self) -> Seq<StartupLocationView> {
        views(self.search_paths@)
    }

    /// The scanner for the home directory that the environment names.
    pub fn new() -> (r: Self)
        ensures
            exists|home: Seq<char>| r.places() == startup_locations(home),
    {
        let home = super::home_or_root();
        let r = Self::with_home(home.as_str());
        assert(r.places() == startup_locations(home@));
        r
    }

    /// The scanner for the home directory `home`.
    pub fn with_home(home: &str) -> (r: Self)
        ensures
            r.places() == startup_locations(home@),
    {
        let mut search_paths: Vec<StartupLocation> = Vec::new();
        search_paths.push(
            StartupLocation {
                name: String::from_str("User LaunchAgents"),
                path: join(home, "Library/LaunchAgents"),
                category: StartupCategory::UserLaunchAgent,
            },
        );
        search_paths.push(
            StartupLocation {
                name: String::from_str("System LaunchAgents"),
                path: String::from_str("/Library/LaunchAgents"),
                category: StartupCategory::SystemLaunchAgent,
            },
        );
        search_paths.push(
            StartupLocation {
                name: String::from_str("System LaunchDaemons"),
                path: String::from_str("/Library/LaunchDaemons"),
                category: StartupCategory::SystemLaunchDaemon,
            },
        );
        search_paths.push(
            StartupLocation {
                name: String::from_str("Login Items"),
                path: join(home, "Library/LoginItems"),
                category: StartupCategory::LoginItem,
            },
        );
        assert(views(search_paths@) =~= startup_locations(home@));
        StartupItemsScanner { search_paths }
    }

    /// The directories in which the scanner looks.
    pub fn locations(&self) -> (r: &Vec<StartupLocation>)
        ensures
            views(r@) == self.places(),
    {
        &self.search_paths
    }

    pub fn id(&self) -> (r: &'static str)
        ensures
            r@ == "startup_items"@,
    {
        "startup_items"
    }

    pub fn name(&self) -> (r: &'static str)
        ensures
            r@ == "Startup Items"@,
    {
        "Startup Items"
    }

    pub fn category(&self) -> (r: ScannerCategory)
        ensures
            r == ScannerCategory::System,
    {
        ScannerCategory::System
    }

    pub fn is_available(&self) -> (r: bool)
        ensures
            r,
    {
        true
    }

    /// The startup item that the property list `content` of the file `path`
    /// describes.
    pub fn parse_plist(path: &str, content: &[u8]) -> (r: Option<StartupItem>)
        ensures
            match r {
                Some(item) => described(path@, content@) == Some(item@),
                None => described(path@, content@) is None,
            },
    {
        let root = read(content);
        match root.kind() {
            PlistKind::Dictionary => {},
            _ => {
                return None;
            },
        }
        let label = match root.text("Label") {
            Some(l) => l,
            None => match file_stem(path) {
                Some(stem) => stem,
                None => String::from_str("Unknown"),
            },
        };
        let program = match root.text("Program") {
            Some(p) => p,
            None => match root.first_text("ProgramArguments") {
                Some(a) => a,
                None => String::from_str(path),
            },
        };
        let run_at_load = match root.flag("RunAtLoad") {
            Some(b) => b,
            None => false,
        };
        let disabled = match root.flag("Disabled") {
            Some(b) => b,
            None => false,
        };
        Some(
            StartupItem {
                label,
                program,
                path: String::from_str(path),
                category: StartupCategory::UserLaunchAgent,
                run_at_load,
                disabled,
            },
        )
    }

    /// The startup items of `category` that the files `files` of one
    /// directory describe, in the order of the files.
    pub fn scan_directory(&self, files: &Vec<PlistFile>, category: StartupCategory) -> (r: Vec<
        StartupItem,
    >)
        ensures
            views(r@) == collect(files@, |f: PlistFile| item_in(category, f)),
    {
        let ghost read = |f: PlistFile| item_in(category, f);
        let mut items: Vec<StartupItem> = Vec::new();
        let mut i: usize = 0;
        assert(views(items@) =~= collect(files@.take(0), read));
        while i < files.len()
            invariant
                i <= files@.len(),
                read == |f: PlistFile| item_in(category, f),
                views(items@) == collect(files@.take(i as int), read),
            decreases files.len() - i,
        {
            proof {
                assert(files@.take(i + 1).drop_last() == files@.take(i as int));
                assert(files@.take(i + 1).last() == files@[i as int]);
            }
            let ghost before = items@;
            let is_plist = match extension(files[i].path.as_str()) {
                Some(ext) => str_eq(ext.as_str(), "plist"),
                None => false,
            };
            if is_plist {
                match Self::parse_plist(files[i].path.as_str(), files[i].content.as_slice()) {
                    Some(item) => {
                        let item = StartupItem {
                            label: item.label,
                            program: item.program,
                            path: item.path,
                            category,
                            run_at_load: item.run_at_load,
                            disabled: item.disabled,
                        };
                        items.push(item);
                        assert(views(items@) =~= views(before).push(item@));
                    },
                    None => {},
                }
            }
            i += 1;
        }
        assert(files@.take(files@.len() as int) == files@);
        items
    }

    fn without_dots(s: &str) -> (r: String)
        ensures
            r@ == undotted(s@),
    {
        let chars = to_chars(s);
        let mut out: Vec<char> = Vec::new();
        let mut i: usize = 0;
        while i < chars.len()
            invariant
                i <= chars@.len(),
                out@.len() == i,
                forall|k: int|
                    0 <= k < i ==> out@[k] == if chars@[k] == '.' {
                        '_'
                    } else {
                        chars@[k]
                    },
            decreases chars.len() - i,
        {
            out.push(
                if chars[i] == '.' {
                    '_'
                } else {
                    chars[i]
                },
            );
            i += 1;
        }
        assert(out@ =~= undotted(s@));
        from_chars(&out)
    }

    fn finding(item: &StartupItem) -> (r: ScanResult)
        ensures
            r@ == item_finding(item@),
    {
        ScanResult::new(
            concat("startup_", Self::without_dots(item.label.as_str()).as_str()),
            item.label.clone(),
            item.path.clone(),
        ).with_size(0).with_file_count(1).with_category(ScannerCategory::System).with_safety(
            SafetyLevel::Caution,
        ).with_meta("scanner_id", String::from_str("startup_items")).with_meta(
            "category",
            String::from_str(item.category.display_name()),
        ).with_meta("program", item.program.clone()).with_meta(
            "run_at_load",
            flag_string(item.run_at_load),
        ).with_meta("disabled", flag_string(item.disabled))
    }

    /// The finding for `item`, unless its path is excluded.
    pub fn accept(&self, config: &ScanConfig, item: &StartupItem) -> (r: Option<ScanResult>)
        ensures
            match r {
                Some(f) => finding_of(config@, item@) == Some(f@),
                None => finding_of(config@, item@) is None,
            },
    {
        if under_any(item.path.as_str(), &config.excluded_paths) {
            None
        } else {
            Some(Self::finding(item))
        }
    }

    /// The findings for the startup items `items`, no more than the
    /// scanners' limit. As no finding has a size, they keep their order.
    pub fn scan(&self, config: &ScanConfig, items: &Vec<StartupItem>) -> (r: Vec<ScanResult>)
        ensures
            views(r@) == super::largest(
                collect(views(items@), |i: StartupItemView| finding_of(config@, i)),
                super::MAX_FINDINGS,
            ),
    {
        let ghost all = views(items@);
        let ghost found = |i: StartupItemView| finding_of(config@, i);
        let mut out: Vec<ScanResult> = Vec::new();
        let mut i: usize = 0;
        assert(views(out@) =~= collect(all.take(0), found));
        while i < items.len()
            invariant
                i <= items@.len(),
                all == views(items@),
                found == |i: StartupItemView| finding_of(config@, i),
                views(out@) == collect(all.take(i as int), found),
            decreases items.len() - i,
        {
            proof {
                assert(all.take(i + 1).drop_last() == all.take(i as int));
                assert(all.take(i + 1).last() == items@[i as int]@);
            }
            let ghost before = out@;
            match self.accept(config, &items[i]) {
                Some(f) => {
                    out.push(f);
                    assert(views(out@) =~= views(before).push(f@));
                },
                None => {},
            }
            i += 1;
        }
        assert(all.take(items@.len() as int) == all);
        super::keep_largest(out, super::MAX_FINDINGS)
    }
}

impl Default for StartupItemsScanner {
    fn default() -> Self {
        Self::new()
    }
}

} // verus!
