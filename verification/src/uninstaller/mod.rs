//! Removing an application together with the files it left in the user's
//! library: what counts as related to an application, what is never removed,
//! and how the outcomes of the single removals add up.

use crate::cleaner::{Removal, StepOutcome, StepOutcomeView};
use crate::paths::{
    extension, extension_of, file_name_of, file_stem, file_stem_of, join, joined,
};
use crate::plists::{plist_kind, plist_text, read, PlistKind};
use crate::plugin::registry::{add_clamped, clamp_u64};
use crate::search::collect;
use crate::sorting::{sort_stable, stable_sort, views, Order, Precedence};
use crate::text::{
    chars_contain, chars_end_with, chars_start_with, concat, concat3, has_infix, has_prefix,
    has_suffix, lowercase, str_eq, to_chars, to_lowercase,
};
use crate::tui::logic::sorting::{chars_less, lex_less};
use vstd::prelude::*;

verus! {

/// What an application's own property list says of it.
#[derive(Debug)]
pub struct PlistInfo {
    pub bundle_id: String,
    pub version: String,
}

/// The property list's statements, as character sequences.
pub struct PlistInfoView {
    pub bundle_id: Seq<char>,
    pub version: Seq<char>,
}

impl View for PlistInfo {
    type V = PlistInfoView;

    open spec fn view(&self) -> PlistInfoView {
        PlistInfoView { bundle_id: self.bundle_id@, version: self.version@ }
    }
}

impl Clone for PlistInfo {
    fn clone(&self) -> (r: Self)
        ensures
            r@ == self@,
    {
        PlistInfo { bundle_id: self.bundle_id.clone(), version: self.version.clone() }
    }
}

/// The view of statements that may be absent.
pub open spec fn info_view(info: Option<PlistInfo>) -> Option<PlistInfoView> {
    match info {
        Some(i) => Some(i@),
        None => None,
    }
}

/// What the property list `content` says of an application: its bundle
/// identifier and its version, each empty where the list does not name it.
/// Bytes that are no property list say nothing.
pub open spec fn bundle_info(content: Seq<u8>) -> Option<PlistInfoView> {
    if plist_kind(content) == PlistKind::Invalid {
        None
    } else {
        Some(
            PlistInfoView {
                bundle_id: match plist_text(content, "CFBundleIdentifier"@) {
                    Some(t) => t,
                    None => Seq::empty(),
                },
                version: match plist_text(content, "CFBundleShortVersionString"@) {
                    Some(t) => t,
                    None => Seq::empty(),
                },
            },
        )
    }
}

/// An installed application.
#[derive(Debug)]
pub struct AppBundle {
    pub path: String,
    /// What the application's property list says, once it was read.
    pub info: Option<PlistInfo>,
    /// The application's size, once it was measured.
    pub cached_size: Option<u64>,
}

impl AppBundle {
    /// What is known of the application's property list.
    pub open spec fn known_info(&self) -> Option<PlistInfoView> {
        info_view(self.info)
    }

    /// The application's size, where it was measured.
    pub open spec fn known_size(&self) -> Option<u64> {
        self.cached_size
    }

    /// The application at `path`, of which nothing is known yet.
    pub fn new(path: String) -> (r: Self)
        ensures
            r.path == path,
            r.known_info() is None,
            r.known_size() is None,
    {
        AppBundle { path, info: None, cached_size: None }
    }

    /// The file inside the application that holds its property list.
    pub fn plist_path(&self) -> (r: String)
        ensures
            r@ == joined(self.path@, "Contents/Info.plist"@),
    {
        join(self.path.as_str(), "Contents/Info.plist")
    }

    /// What the property list `content` says of an application.
    pub fn parse_plist(content: &[u8]) -> (r: Option<PlistInfo>)
        ensures
            info_view(r) == bundle_info(content@),
    {
        let root = read(content);
        match root.kind() {
            PlistKind::Invalid => {
                return None;
            },
            _ => {},
        }
        let bundle_id = match root.text("CFBundleIdentifier") {
            Some(t) => t,
            None => String::new(),
        };
        let version = match root.text("CFBundleShortVersionString") {
            Some(t) => t,
            None => String::new(),
        };
        Some(PlistInfo { bundle_id, version })
    }

    /// Takes in the application's property list, unless its statements are
    /// known already or the bytes are no property list.
    pub fn load_info(&mut self, content: &[u8])
        ensures
            final(self).path == old(self).path,
            final(self).known_size() == old(self).known_size(),
            final(self).known_info() == if old(self).known_info() is Some {
                old(self).known_info()
            } else {
                bundle_info(content@)
            },
    {
        if self.info.is_none() {
            self.info = Self::parse_plist(content);
        }
    }

    /// What is known of the application's property list.
    pub fn info(&self) -> (r: Option<PlistInfo>)
        ensures
            info_view(r) == self.known_info(),
    {
        match &self.info {
            Some(i) => Some(i.clone()),
            None => None,
        }
    }

    /// Records the size that was measured, unless one is recorded.
    pub fn measure(&mut self, size: u64)
        ensures
            final(self).path == old(self).path,
            final(self).known_info() == old(self).known_info(),
            final(self).known_size() == match old(self).known_size() {
                Some(s) => Some(s),
                None => Some(size),
            },
    {
        if self.cached_size.is_none() {
            self.cached_size = Some(size);
        }
    }

    /// The application's size in bytes; 0 as long as it was not measured.
    pub fn size(&self) -> (r: u64)
        ensures
            r == match self.known_size() {
                Some(s) => s,
                None => 0,
            },
    {
        match self.cached_size {
            Some(s) => s,
            None => 0,
        }
    }

    /// The application's name: the name of its directory without extension.
    pub open spec fn title(&self) -> Seq<char> {
        match file_stem_of(self.path@) {
            Some(stem) => stem,
            None => "Unknown"@,
        }
    }

    pub fn name(&self) -> (r: String)
        ensures
            r@ == self.title(),
    {
        match file_stem(self.path.as_str()) {
            Some(stem) => stem,
            None => String::from_str("Unknown"),
        }
    }
}

impl Clone for AppBundle {
    fn clone(&self) -> (r: Self)
        ensures
            r.path@ == self.path@,
            r.known_info() == self.known_info(),
            r.known_size() == self.known_size(),
    {
        AppBundle { path: self.path.clone(), info: self.info(), cached_size: self.cached_size }
    }
}

/// The place in which a file related to an application was found.
#[derive(Debug, Clone, Copy, PartialEq, Eq, Structural)]
pub enum RelatedCategory {
    AppSupport,
    Preferences,
    Caches,
    Logs,
    LaunchAgents,
    LaunchDaemons,
    Containers,
    GroupContainers,
    Cookies,
    WebKit,
    Fonts,
    SystemAppSupport,
}

impl RelatedCategory {
    /// The category's name as it is shown.
    pub open spec fn label(self) -> Seq<char> {
        match self {
            RelatedCategory::AppSupport => "Application Support"@,
            RelatedCategory::Preferences => "Preferences"@,
            RelatedCategory::Caches => "Caches"@,
            RelatedCategory::Logs => "Logs"@,
            RelatedCategory::LaunchAgents => "Launch Agents"@,
            RelatedCategory::LaunchDaemons => "Launch Daemons"@,
            RelatedCategory::Containers => "Containers"@,
            RelatedCategory::GroupContainers => "Group Containers"@,
            RelatedCategory::Cookies => "Cookies"@,
            RelatedCategory::WebKit => "WebKit"@,
            RelatedCategory::Fonts => "Fonts"@,
            RelatedCategory::SystemAppSupport => "System Application Support"@,
        }
    }

    /// Files of this category are never removed with an application.
    pub open spec fn protected(self) -> bool {
        self == RelatedCategory::LaunchDaemons || self == RelatedCategory::SystemAppSupport
            || self == RelatedCategory::Containers
    }

    pub fn display_name(&self) -> (r: &'static str)
        ensures
            r@ == self.label(),
    {
        match self {
            RelatedCategory::AppSupport => "Application Support",
            RelatedCategory::Preferences => "Preferences",
            RelatedCategory::Caches => "Caches",
            RelatedCategory::Logs => "Logs",
            RelatedCategory::LaunchAgents => "Launch Agents",
            RelatedCategory::LaunchDaemons => "Launch Daemons",
            RelatedCategory::Containers => "Containers",
            RelatedCategory::GroupContainers => "Group Containers",
            RelatedCategory::Cookies => "Cookies",
            RelatedCategory::WebKit => "WebKit",
            RelatedCategory::Fonts => "Fonts",
            RelatedCategory::SystemAppSupport => "System Application Support",
        }
    }

    pub fn is_protected(&self) -> (r: bool)
        ensures
            r == self.protected(),
    {
        match self {
            RelatedCategory::LaunchDaemons => true,
            RelatedCategory::SystemAppSupport => true,
            RelatedCategory::Containers => true,
            _ => false,
        }
    }
}

/// A file or directory that belongs to an application.
#[derive(Debug)]
pub struct RelatedFile {
    pub path: String,
    pub category: RelatedCategory,
    pub size: u64,
}

/// A related file, with its path as a character sequence.
pub struct RelatedFileView {
    pub path: Seq<char>,
    pub category: RelatedCategory,
    pub size: u64,
}

impl View for RelatedFile {
    type V = RelatedFileView;

    open spec fn view(&self) -> RelatedFileView {
        RelatedFileView { path: self.path@, category: self.category, size: self.size }
    }
}

impl Clone for RelatedFile {
    fn clone(&self) -> (r: Self)
        ensures
            r@ == self@,
    {
        RelatedFile { path: self.path.clone(), category: self.category, size: self.size }
    }
}

/// Applications in the order of the application list: by name, letter case
/// aside.
pub struct ByName;

/// The text by which an application is ordered: its name in lower case.
pub open spec fn app_sort_name(path: Seq<char>) -> Seq<char> {
    lowercase(
        match file_stem_of(path) {
            Some(stem) => stem,
            None => "Unknown"@,
        },
    )
}

/// An application as the list orders it: by its path alone.
pub struct AppPath {
    pub path: Seq<char>,
}

impl View for AppBundle {
    type V = AppPath;

    open spec fn view(&self) -> AppPath {
        AppPath { path: self.path@ }
    }
}

impl Precedence<AppPath> for ByName {
    open spec fn before(a: AppPath, b: AppPath) -> bool {
        lex_less(app_sort_name(a.path), app_sort_name(b.path))
    }
}

impl Order<AppBundle> for ByName {
    fn precedes(a: &AppBundle, b: &AppBundle) -> (r: bool) {
        let ka = to_chars(to_lowercase(a.name().as_str()).as_str());
        let kb = to_chars(to_lowercase(b.name().as_str()).as_str());
        chars_less(&ka, &kb)
    }
}

/// Finds installed applications.
pub struct AppDetector {
    search_paths: Vec<String>,
}

impl AppDetector {
    /// The directories that hold applications.
    pub closed spec fn roots(&self) -> Seq<Seq<char>> {
        crate::plugin::traits::texts(self.search_paths@)
    }

    /// The detector for the home directory that the environment names.
    pub fn new() -> (r: Self)
        ensures
            r.roots().len() >= 1,
            r.roots()[0] == "/Applications"@,
            r.roots().len() <= 2,
    {
        Self::with_home(crate::scanner::home_dir())
    }

    /// The detector for the home directory `home`: it looks in the system's
    /// applications directory and, with a home directory, in the user's.
    pub fn with_home(home: Option<String>) -> (r: Self)
        ensures
            r.roots() == match home {
                Some(h) => seq!["/Applications"@, joined(h@, "Applications"@)],
                None => seq!["/Applications"@],
            },
    {
        let mut search_paths: Vec<String> = Vec::new();
        search_paths.push(String::from_str("/Applications"));
        match home {
            Some(h) => {
                search_paths.push(join(h.as_str(), "Applications"));
            },
            None => {},
        }
        assert(crate::plugin::traits::texts(search_paths@) =~= match home {
            Some(h) => seq!["/Applications"@, joined(h@, "Applications"@)],
            None => seq!["/Applications"@],
        });
        AppDetector { search_paths }
    }

    /// The directories that hold applications.
    pub fn locations(&self) -> (r: &Vec<String>)
        ensures
            crate::plugin::traits::texts(r@) == self.roots(),
    {
        &self.search_paths
    }

    /// The first of `entries`, the paths found in the application
    /// directories, whose file name contains `name`, letter case aside.
    pub fn find_by_name(&self, name: &str, entries: &Vec<String>) -> (r: Option<AppBundle>)
        ensures
            match r {
                Some(app) => exists|i: int|
                    0 <= i < entries@.len() && app.path@ == entries@[i]@ && named_like(
                        entries@[i]@,
                        name@,
                    ) && forall|k: int| 0 <= k < i ==> !named_like(#[trigger] entries@[k]@, name@),
                None => forall|k: int|
                    0 <= k < entries@.len() ==> !named_like(#[trigger] entries@[k]@, name@),
            },
            r is Some ==> r->0.known_info() is None && r->0.known_size() is None,
    {
        let wanted = to_chars(to_lowercase(name).as_str());
        let mut i: usize = 0;
        while i < entries.len()
            invariant
                i <= entries@.len(),
                wanted@ == lowercase(name@),
                forall|k: int| 0 <= k < i ==> !named_like(#[trigger] entries@[k]@, name@),
            decreases entries.len() - i,
        {
            let matched = match crate::paths::file_name(entries[i].as_str()) {
                Some(file) => chars_contain(
                    &to_chars(to_lowercase(file.as_str()).as_str()),
                    &wanted,
                ),
                None => false,
            };
            if matched {
                return Some(AppBundle::new(entries[i].clone()));
            }
            i += 1;
        }
        None
    }

    /// The applications among `entries`, the paths found in the application
    /// directories: those with the extension `app`, ordered by name.
    pub fn list_all(&self, entries: &Vec<String>) -> (r: Vec<AppBundle>)
        ensures
            views(r@) == stable_sort::<AppPath, ByName>(
                collect(
                    crate::plugin::traits::texts(entries@),
                    |p: Seq<char>|
                        if is_app(p) {
                            Some(AppPath { path: p })
                        } else {
                            None
                        },
                ),
            ),
            forall|k: int|
                0 <= k < r@.len() ==> (#[trigger] r@[k]).known_info() is None && r@[k].known_size()
                    is None,
    {
        let ghost all = crate::plugin::traits::texts(entries@);
        let ghost pick = |p: Seq<char>|
            if is_app(p) {
                Some(AppPath { path: p })
            } else {
                None
            };
        let mut apps: Vec<AppBundle> = Vec::new();
        let mut i: usize = 0;
        assert(views(apps@) =~= collect(all.take(0), pick));
        while i < entries.len()
            invariant
                i <= entries@.len(),
                all == crate::plugin::traits::texts(entries@),
                pick == |p: Seq<char>|
                    if is_app(p) {
                        Some(AppPath { path: p })
                    } else {
                        None
                    },
                views(apps@) == collect(all.take(i as int), pick),
                forall|k: int|
                    0 <= k < apps@.len() ==> (#[trigger] apps@[k]).known_info() is None
                        && apps@[k].known_size() is None,
            decreases entries.len() - i,
        {
            proof {
                assert(all.take(i + 1).drop_last() == all.take(i as int));
                assert(all.take(i + 1).last() == entries@[i as int]@);
            }
            let ghost before = apps@;
            let is_bundle = match extension(entries[i].as_str()) {
                Some(ext) => str_eq(ext.as_str(), "app"),
                None => false,
            };
            if is_bundle {
                let app = AppBundle::new(entries[i].clone());
                apps.push(app);
                assert(views(apps@) =~= views(before).push(app@));
            }
            i += 1;
        }
        assert(all.take(entries@.len() as int) == all);
        let ghost unsorted = apps@;
        sort_stable::<AppBundle, ByName>(&mut apps);
        proof {
            broadcast use vstd::seq_lib::group_to_multiset_ensures;

            assert forall|k: int| 0 <= k < apps@.len() implies (#[trigger] apps@[k]).known_info()
                is None && apps@[k].known_size() is None by {
                assert(apps@.contains(apps@[k]));
                assert(apps@.to_multiset().count(apps@[k]) > 0);
                assert(unsorted.to_multiset().count(apps@[k]) > 0);
                assert(unsorted.contains(apps@[k]));
                let j = choose|j: int| 0 <= j < unsorted.len() && unsorted[j] == apps@[k];
                assert(unsorted[j].known_info() is None);
            }
        }
        apps
    }
}

/// The file name of `path` contains `name`, letter case aside.
pub open spec fn named_like(path: Seq<char>, name: Seq<char>) -> bool {
    match file_name_of(path) {
        Some(file) => has_infix(lowercase(file), lowercase(name)),
        None => false,
    }
}

/// `path` names an application bundle: its extension is `app`.
pub open spec fn is_app(path: Seq<char>) -> bool {
    extension_of(path) == Some("app"@)
}

impl Default for AppDetector {
    fn default() -> Self {
        Self::new()
    }
}

/// `s` without its dots.
pub open spec fn dotless(s: Seq<char>) -> Seq<char> {
    s.filter(|c: char| c != '.')
}

/// A file named `name` belongs to the application named `app_name` with the
/// bundle identifier `bundle_id`: its name contains the identifier or the
/// application's name, letter case aside; or it is a property list whose
/// name begins with the identifier written without dots.
pub open spec fn related(name: Seq<char>, app_name: Seq<char>, bundle_id: Seq<char>) -> bool {
    ||| bundle_id.len() > 0 && has_infix(lowercase(name), lowercase(bundle_id))
    ||| app_name.len() > 0 && has_infix(lowercase(name), lowercase(app_name))
    ||| has_suffix(name, ".plist"@) && bundle_id.len() > 0 && has_prefix(
        lowercase(name),
        dotless(lowercase(bundle_id)),
    )
}

/// The places in which files of an application are looked for, relative to
/// the home directory.
pub open spec fn library_places() -> Seq<(RelatedCategory, Seq<char>)> {
    seq![
        (RelatedCategory::AppSupport, "Library/Application Support"@),
        (RelatedCategory::Preferences, "Library/Preferences"@),
        (RelatedCategory::Caches, "Library/Caches"@),
        (RelatedCategory::Logs, "Library/Logs"@),
        (RelatedCategory::LaunchAgents, "Library/LaunchAgents"@),
        (RelatedCategory::Containers, "Library/Containers"@),
        (RelatedCategory::GroupContainers, "Library/Group Containers"@),
        (RelatedCategory::Cookies, "Library/Cookies"@),
        (RelatedCategory::WebKit, "Library/WebKit"@),
        (RelatedCategory::Fonts, "Library/Fonts"@),
    ]
}

/// The places in which files of an application are looked for, for the
/// home directory `home`: those of the user's library, then the system's.
pub open spec fn search_places(home: Seq<char>) -> Seq<(RelatedCategory, Seq<char>)> {
    library_places().map_values(|p: (RelatedCategory, Seq<char>)| (p.0, joined(home, p.1)))
        + seq![
        (RelatedCategory::LaunchDaemons, "/Library/LaunchDaemons"@),
        (RelatedCategory::SystemAppSupport, "/Library/Application Support"@),
    ]
}

/// An entry of a directory that is searched for related files.
#[derive(Debug)]
pub struct FoundEntry {
    /// Which search location holds the entry.
    pub category: RelatedCategory,
    pub name: String,
    pub path: String,
    pub size: u64,
}

/// An entry, with its texts as character sequences.
pub struct FoundEntryView {
    pub category: RelatedCategory,
    pub name: Seq<char>,
    pub path: Seq<char>,
    pub size: u64,
}

impl View for FoundEntry {
    type V = FoundEntryView;

    open spec fn view(&self) -> FoundEntryView {
        FoundEntryView {
            category: self.category,
            name: self.name@,
            path: self.path@,
            size: self.size,
        }
    }
}

/// Finds the files that an application left in the library.
pub struct RelatedFileDetector {
    home: String,
}

impl RelatedFileDetector {
    /// The home directory whose library is searched.
    pub closed spec fn root(&self) -> Seq<char> {
        self.home@
    }

    /// The detector for the home directory that the environment names.
    pub fn new() -> Self {
        Self::with_home(crate::scanner::home_or_root().as_str())
    }

    /// The detector for the home directory `home`.
    pub fn with_home(home: &str) -> (r: Self)
        ensures
            r.root() == home@,
    {
        RelatedFileDetector { home: String::from_str(home) }
    }

    /// The places that are searched, each with the category of what is
    /// found there.
    pub fn get_search_locations(&self) -> (r: Vec<(RelatedCategory, String)>)
        ensures
            r@.map_values(|p: (RelatedCategory, String)| (p.0, p.1@)) == search_places(
                self.root(),
            ),
    {
        let home = self.home.as_str();
        let mut r: Vec<(RelatedCategory, String)> = Vec::new();
        r.push((RelatedCategory::AppSupport, join(home, "Library/Application Support")));
        r.push((RelatedCategory::Preferences, join(home, "Library/Preferences")));
        r.push((RelatedCategory::Caches, join(home, "Library/Caches")));
        r.push((RelatedCategory::Logs, join(home, "Library/Logs")));
        r.push((RelatedCategory::LaunchAgents, join(home, "Library/LaunchAgents")));
        r.push((RelatedCategory::Containers, join(home, "Library/Containers")));
        r.push((RelatedCategory::GroupContainers, join(home, "Library/Group Containers")));
        r.push((RelatedCategory::Cookies, join(home, "Library/Cookies")));
        r.push((RelatedCategory::WebKit, join(home, "Library/WebKit")));
        r.push((RelatedCategory::Fonts, join(home, "Library/Fonts")));
        r.push((RelatedCategory::LaunchDaemons, String::from_str("/Library/LaunchDaemons")));
        r.push(
            (RelatedCategory::SystemAppSupport, String::from_str("/Library/Application Support")),
        );
        assert(r@.map_values(|p: (RelatedCategory, String)| (p.0, p.1@)) =~= search_places(
            self.root(),
        ));
        r
    }

    fn without_dots(s: &Vec<char>) -> (r: Vec<char>)
        ensures
            r@ == dotless(s@),
    {
        let ghost keep = |c: char| c != '.';
        let mut r: Vec<char> = Vec::new();
        let mut i: usize = 0;
        proof {
            reveal(Seq::filter);
            assert(s@.take(0).filter(keep) =~= r@);
        }
        while i < s.len()
            invariant
                i <= s@.len(),
                keep == |c: char| c != '.',
                r@ == s@.take(i as int).filter(keep),
            decreases s.len() - i,
        {
            proof {
                reveal(Seq::filter);
                assert(s@.take(i + 1).drop_last() == s@.take(i as int));
            }
            if s[i] != '.' {
                r.push(s[i]);
            }
            i += 1;
        }
        assert(s@.take(s@.len() as int) == s@);
        r
    }

    /// Whether a file named `name` belongs to the application named
    /// `app_name` with the bundle identifier `bundle_id`.
    pub fn is_related(&self, name: &str, app_name: &str, bundle_id: &str) -> (r: bool)
        ensures
            r == related(name@, app_name@, bundle_id@),
    {
        let name_lower = to_chars(to_lowercase(name).as_str());
        let app_lower = to_chars(to_lowercase(app_name).as_str());
        let bundle_lower = to_chars(to_lowercase(bundle_id).as_str());
        let has_bundle = to_chars(bundle_id).len() > 0;
        let has_app = to_chars(app_name).len() > 0;
        if has_bundle && chars_contain(&name_lower, &bundle_lower) {
            return true;
        }
        if has_app && chars_contain(&name_lower, &app_lower) {
            return true;
        }
        if chars_end_with(&to_chars(name), &to_chars(".plist")) && has_bundle {
            let prefix = Self::without_dots(&bundle_lower);
            if chars_start_with(&name_lower, &prefix) {
                return true;
            }
        }
        false
    }

    /// The related file that `entry` stands for, if it belongs to the
    /// application.
    pub open spec fn related_file(
        entry: FoundEntryView,
        app_name: Seq<char>,
        bundle_id: Seq<char>,
    ) -> Option<RelatedFileView> {
        if related(entry.name, app_name, bundle_id) {
            Some(RelatedFileView { path: entry.path, category: entry.category, size: entry.size })
        } else {
            None
        }
    }

    /// The files among `entries`, what the search locations hold, that
    /// belong to `app`, in the order of the entries.
    pub fn find_related_files(&self, app: &AppBundle, entries: &Vec<FoundEntry>) -> (r: Vec<
        RelatedFile,
    >)
        ensures
            views(r@) == collect(
                views(entries@),
                |e: FoundEntryView|
                    Self::related_file(
                        e,
                        app.title(),
                        match app.known_info() {
                            Some(i) => i.bundle_id,
                            None => Seq::empty(),
                        },
                    ),
            ),
    {
        let app_name = app.name();
        let bundle_id = match app.info() {
            Some(i) => i.bundle_id,
            None => String::new(),
        };
        let ghost all = views(entries@);
        let ghost pick = |e: FoundEntryView|
            Self::related_file(
                e,
                app.title(),
                match app.known_info() {
                    Some(i) => i.bundle_id,
                    None => Seq::empty(),
                },
            );
        let mut files: Vec<RelatedFile> = Vec::new();
        let mut i: usize = 0;
        assert(views(files@) =~= collect(all.take(0), pick));
        while i < entries.len()
            invariant
                i <= entries@.len(),
                all == views(entries@),
                app_name@ == app.title(),
                bundle_id@ == match app.known_info() {
                    Some(i) => i.bundle_id,
                    None => Seq::empty(),
                },
                pick == |e: FoundEntryView|
                    Self::related_file(
                        e,
                        app.title(),
                        match app.known_info() {
                            Some(i) => i.bundle_id,
                            None => Seq::empty(),
                        },
                    ),
                views(files@) == collect(all.take(i as int), pick),
            decreases entries.len() - i,
        {
            proof {
                assert(all.take(i + 1).drop_last() == all.take(i as int));
                assert(all.take(i + 1).last() == entries@[i as int]@);
            }
            let ghost before = files@;
            if self.is_related(entries[i].name.as_str(), app_name.as_str(), bundle_id.as_str()) {
                let file = RelatedFile {
                    path: entries[i].path.clone(),
                    category: entries[i].category,
                    size: entries[i].size,
                };
                files.push(file);
                assert(views(files@) =~= views(before).push(file@));
            }
            i += 1;
        }
        assert(all.take(entries@.len() as int) == all);
        files
    }
}

impl Default for RelatedFileDetector {
    fn default() -> Self {
        Self::new()
    }
}

/// Bundle identifiers of the applications that belong to the system.
pub open spec fn system_apps() -> Seq<Seq<char>> {
    seq![
        "com.apple.Safari"@,
        "com.apple.Mail"@,
        "com.apple.calendar"@,
        "com.apple.AddressBook"@,
        "com.apple.finder"@,
        "com.apple.Terminal"@,
        "com.apple.Preview"@,
        "com.apple.TextEdit"@,
        "com.apple.Notes"@,
        "com.apple.Reminders"@,
        "com.apple.Maps"@,
        "com.apple.Photos"@,
        "com.apple.Music"@,
        "com.apple.Podcasts"@,
        "com.apple.News"@,
        "com.apple.Stocks"@,
        "com.apple.FaceTime"@,
        "com.apple.Messages"@,
        "com.apple.AppStore"@,
        "com.apple.SystemPreferences"@,
        "com.apple.Utilities"@,
    ]
}

fn system_app_ids() -> (r: Vec<String>)
    ensures
        crate::plugin::traits::texts(r@) == system_apps(),
{
    let mut r: Vec<String> = Vec::new();
    r.push(String::from_str("com.apple.Safari"));
    r.push(String::from_str("com.apple.Mail"));
    r.push(String::from_str("com.apple.calendar"));
    r.push(String::from_str("com.apple.AddressBook"));
    r.push(String::from_str("com.apple.finder"));
    r.push(String::from_str("com.apple.Terminal"));
    r.push(String::from_str("com.apple.Preview"));
    r.push(String::from_str("com.apple.TextEdit"));
    r.push(String::from_str("com.apple.Notes"));
    r.push(String::from_str("com.apple.Reminders"));
    r.push(String::from_str("com.apple.Maps"));
    r.push(String::from_str("com.apple.Photos"));
    r.push(String::from_str("com.apple.Music"));
    r.push(String::from_str("com.apple.Podcasts"));
    r.push(String::from_str("com.apple.News"));
    r.push(String::from_str("com.apple.Stocks"));
    r.push(String::from_str("com.apple.FaceTime"));
    r.push(String::from_str("com.apple.Messages"));
    r.push(String::from_str("com.apple.AppStore"));
    r.push(String::from_str("com.apple.SystemPreferences"));
    r.push(String::from_str("com.apple.Utilities"));
    assert(crate::plugin::traits::texts(r@) =~= system_apps());
    r
}

/// How the removal of one path ended.
#[derive(Debug)]
pub enum Removed {
    /// The path is gone, or would be in a dry run.
    Yes,
    /// Nothing was there.
    NotThere,
    /// The removal failed, with the error's text.
    Failed(String),
}

/// A removal's end, with its text as a character sequence.
pub enum RemovedView {
    Yes,
    NotThere,
    Failed(Seq<char>),
}

impl View for Removed {
    type V = RemovedView;

    open spec fn view(&self) -> RemovedView {
        match self {
            Removed::Yes => RemovedView::Yes,
            Removed::NotThere => RemovedView::NotThere,
            Removed::Failed(e) => RemovedView::Failed(e@),
        }
    }
}

impl Removed {
    /// How a removal that was made ended.
    pub fn of(outcome: StepOutcome) -> (r: Removed)
        ensures
            r@ == match outcome@ {
                StepOutcomeView::Done => RemovedView::Yes,
                StepOutcomeView::Failed(e) => RemovedView::Failed(e),
            },
    {
        match outcome {
            StepOutcome::Done => Removed::Yes,
            StepOutcome::Failed(e) => Removed::Failed(e),
        }
    }
}

/// What came of uninstalling an application.
#[derive(Debug)]
pub struct UninstallResult {
    pub dry_run: bool,
    pub deleted_app: bool,
    pub deleted_related: Vec<String>,
    pub skipped: Vec<String>,
    pub errors: Vec<String>,
    pub total_freed: u64,
}

/// An uninstall's result, with its texts as character sequences and the
/// bytes freed without a limit.
pub struct UninstallView {
    pub dry_run: bool,
    pub deleted_app: bool,
    pub deleted_related: Seq<Seq<char>>,
    pub skipped: Seq<Seq<char>>,
    pub errors: Seq<Seq<char>>,
    pub total_freed: nat,
}

impl UninstallView {
    /// The result before anything was done.
    pub open spec fn nothing() -> UninstallView {
        UninstallView {
            dry_run: false,
            deleted_app: false,
            deleted_related: Seq::empty(),
            skipped: Seq::empty(),
            errors: Seq::empty(),
            total_freed: 0,
        }
    }
}

/// `result` says what `view` says, with the bytes freed stopping at the
/// largest 64-bit number.
pub open spec fn shows(result: UninstallResult, view: UninstallView) -> bool {
    &&& result.dry_run == view.dry_run
    &&& result.deleted_app == view.deleted_app
    &&& crate::plugin::traits::texts(result.deleted_related@) == view.deleted_related
    &&& crate::plugin::traits::texts(result.skipped@) == view.skipped
    &&& crate::plugin::traits::texts(result.errors@) == view.errors
    &&& result.total_freed == clamp_u64(view.total_freed)
}

impl UninstallResult {
    /// The result before anything was done.
    pub fn new() -> (r: Self)
        ensures
            shows(r, UninstallView::nothing()),
    {
        let r = UninstallResult {
            dry_run: false,
            deleted_app: false,
            deleted_related: Vec::new(),
            skipped: Vec::new(),
            errors: Vec::new(),
            total_freed: 0,
        };
        assert(crate::plugin::traits::texts(r.deleted_related@) =~= Seq::<Seq<char>>::empty());
        assert(crate::plugin::traits::texts(r.skipped@) =~= Seq::<Seq<char>>::empty());
        assert(crate::plugin::traits::texts(r.errors@) =~= Seq::<Seq<char>>::empty());
        r
    }
}

impl Default for UninstallResult {
    fn default() -> (r: Self)
        ensures
            shows(r, UninstallView::nothing()),
    {
        Self::new()
    }
}

/// What has to be done with one path.
#[derive(Debug, Clone, Copy, PartialEq, Eq, Structural)]
pub enum PathStep {
    /// Nothing is there: nothing is removed.
    Nothing,
    /// Dry run: say that the path would be removed.
    Announce,
    /// Remove the directory with all that is in it.
    RemoveTree,
    /// Remove the single file.
    RemoveFile,
}

impl PathStep {
    /// The removal that the step asks for, if it asks for one.
    pub fn removal(self) -> (r: Option<Removal>)
        ensures
            r == match self {
                PathStep::RemoveTree => Some(Removal::Tree),
                PathStep::RemoveFile => Some(Removal::File),
                _ => None,
            },
    {
        match self {
            PathStep::RemoveTree => Some(Removal::Tree),
            PathStep::RemoveFile => Some(Removal::File),
            _ => None,
        }
    }
}

/// What an uninstall does next.
#[derive(Debug, Clone, Copy, PartialEq, Eq, Structural)]
pub enum UninstallStep {
    /// Remove the application itself.
    RemoveApp,
    /// Remove the related file with this index.
    RemoveFile(usize),
    /// Leave the related file with this index alone: it is protected.
    SkipFile(usize),
    /// Nothing is left to do.
    Finish,
}

/// The result after the application's own path was handled.
pub open spec fn app_booked(
    so_far: UninstallView,
    app_path: Seq<char>,
    app_size: u64,
    removed: RemovedView,
) -> UninstallView {
    match removed {
        RemovedView::Yes => UninstallView {
            deleted_app: true,
            total_freed: so_far.total_freed + app_size as nat,
            ..so_far
        },
        _ => UninstallView {
            errors: so_far.errors.push("Failed to delete app: "@ + app_path),
            ..so_far
        },
    }
}

/// The result after one related file was handled: a protected file is
/// skipped, whatever `removed` says; a removed file is listed and its size
/// counted; for any other an error is recorded.
pub open spec fn file_booked(
    so_far: UninstallView,
    file: RelatedFileView,
    removed: RemovedView,
) -> UninstallView {
    if file.category.protected() {
        UninstallView { skipped: so_far.skipped.push(file.path), ..so_far }
    } else {
        match removed {
            RemovedView::Yes => UninstallView {
                deleted_related: so_far.deleted_related.push(file.path),
                total_freed: so_far.total_freed + file.size as nat,
                ..so_far
            },
            _ => UninstallView {
                errors: so_far.errors.push("Failed to delete: "@ + file.path),
                ..so_far
            },
        }
    }
}

/// How the removal of the `i`-th related file ended. A file of which
/// `removed` says nothing was not removed.
pub open spec fn ended(removed: Seq<RemovedView>, i: int) -> RemovedView {
    if 0 <= i < removed.len() {
        removed[i]
    } else {
        RemovedView::NotThere
    }
}

/// The result after the first `k` related files were handled.
pub open spec fn files_booked(
    so_far: UninstallView,
    files: Seq<RelatedFileView>,
    removed: Seq<RemovedView>,
    k: nat,
) -> UninstallView
    decreases k,
{
    if k == 0 || k > files.len() {
        so_far
    } else {
        file_booked(
            files_booked(so_far, files, removed, (k - 1) as nat),
            files[k - 1],
            ended(removed, k - 1),
        )
    }
}

/// The first removal that failed, if one did; the removal of a protected
/// file does not count, as none takes place.
pub open spec fn first_failure(
    app_removed: RemovedView,
    files: Seq<RelatedFileView>,
    removed: Seq<RemovedView>,
) -> Option<Seq<char>> {
    match app_removed {
        RemovedView::Failed(e) => Some(e),
        _ => {
            let i = crate::search::first_match(
                Seq::new(files.len(), |i: int| i),
                |i: int| !files[i].category.protected() && ended(removed, i) is Failed,
            );
            if i < files.len() {
                Some(ended(removed, i)->Failed_0)
            } else {
                None
            }
        },
    }
}

/// What an uninstall does next, when `app_removed` is how the removal of
/// the application ended, if it was made, and `removed` how the removals of
/// the first related files did.
///
/// An application of the system or one that is running is not touched. The
/// application goes first, then the related files in their order, protected
/// ones being left alone. After the first removal that failed nothing more
/// is removed.
pub open spec fn step_after(
    system: bool,
    running: bool,
    files: Seq<RelatedFileView>,
    app_removed: Option<RemovedView>,
    removed: Seq<RemovedView>,
) -> UninstallStep {
    if system || running {
        UninstallStep::Finish
    } else {
        match app_removed {
            None => UninstallStep::RemoveApp,
            Some(a) => if first_failure(a, files, removed) is Some || removed.len()
                >= files.len() {
                UninstallStep::Finish
            } else if files[removed.len() as int].category.protected() {
                UninstallStep::SkipFile(removed.len() as usize)
            } else {
                UninstallStep::RemoveFile(removed.len() as usize)
            },
        }
    }
}

/// Removes applications, or in a dry run says what it would remove.
pub struct Uninstaller {
    dry_run: bool,
}

impl Uninstaller {
    /// Nothing is removed.
    pub closed spec fn is_dry_run(&self) -> bool {
        self.dry_run
    }

    pub fn new(dry_run: bool) -> (r: Self)
        ensures
            r.is_dry_run() == dry_run,
    {
        Uninstaller { dry_run }
    }

    /// Whether `app` belongs to the system, by its bundle identifier. An
    /// application whose property list is not known does not.
    pub fn is_system_app(&self, app: &AppBundle) -> (r: bool)
        ensures
            r == match app.known_info() {
                Some(i) => system_apps().contains(i.bundle_id),
                None => false,
            },
    {
        match app.info() {
            Some(i) => crate::plugin::registry::id_listed(&system_app_ids(), i.bundle_id.as_str()),
            None => false,
        }
    }

    /// Whether `app` is running, given the names of all processes as the
    /// system lists them in one text: the list contains the application's
    /// name, letter case aside.
    pub fn is_running(&self, app: &AppBundle, processes: &str) -> (r: bool)
        ensures
            r == has_infix(lowercase(processes@), lowercase(app.title())),
    {
        chars_contain(
            &to_chars(to_lowercase(processes).as_str()),
            &to_chars(to_lowercase(app.name().as_str()).as_str()),
        )
    }

    /// What has to be done to remove a path, given whether anything is
    /// there and whether it is a directory.
    pub fn step_for(&self, present: bool, is_dir: bool) -> (r: PathStep)
        ensures
            r == if !present {
                PathStep::Nothing
            } else if self.is_dry_run() {
                PathStep::Announce
            } else if is_dir {
                PathStep::RemoveTree
            } else {
                PathStep::RemoveFile
            },
    {
        if !present {
            PathStep::Nothing
        } else if self.dry_run {
            PathStep::Announce
        } else if is_dir {
            PathStep::RemoveTree
        } else {
            PathStep::RemoveFile
        }
    }

    /// The script that removes `path` with the privileges of an
    /// administrator.
    pub fn admin_script(path: &str, is_dir: bool) -> (r: String)
        ensures
            r@ == if is_dir {
                "do shell script \"rm -rf '"@ + path@ + "'\" with administrator privileges"@
            } else {
                "do shell script \"rm '"@ + path@ + "'\" with administrator privileges"@
            },
    {
        if is_dir {
            concat3("do shell script \"rm -rf '", path, "'\" with administrator privileges")
        } else {
            concat3("do shell script \"rm '", path, "'\" with administrator privileges")
        }
    }

    /// What the uninstall of `app` with the files `related_files` does next.
    pub fn next_step(
        &self,
        app: &AppBundle,
        related_files: &Vec<RelatedFile>,
        running: bool,
        app_removed: &Option<Removed>,
        removed: &Vec<Removed>,
    ) -> (r: UninstallStep)
        ensures
            r == step_after(
                match app.known_info() {
                    Some(i) => system_apps().contains(i.bundle_id),
                    None => false,
                },
                running,
                views(related_files@),
                match app_removed {
                    Some(a) => Some(a@),
                    None => None,
                },
                views(removed@),
            ),
    {
        if self.is_system_app(app) || running {
            return UninstallStep::Finish;
        }
        match app_removed {
            None => {
                return UninstallStep::RemoveApp;
            },
            Some(Removed::Failed(_)) => {
                return UninstallStep::Finish;
            },
            Some(_) => {},
        }
        let ghost files = views(related_files@);
        let ghost ends = views(removed@);
        let ghost indices = Seq::new(files.len(), |i: int| i);
        let ghost failed = |i: int| !files[i].category.protected() && ended(ends, i) is Failed;
        let mut i: usize = 0;
        while i < related_files.len() && i < removed.len()
            invariant
                i <= related_files@.len(),
                i <= removed@.len(),
                files == views(related_files@),
                ends == views(removed@),
                indices == Seq::new(files.len(), |i: int| i),
                failed == |i: int| !files[i].category.protected() && ended(ends, i) is Failed,
                forall|k: int| 0 <= k < i ==> !failed(#[trigger] indices[k]),
                !running,
                !(match app.known_info() {
                    Some(i) => system_apps().contains(i.bundle_id),
                    None => false,
                }),
                app_removed is Some,
                !(app_removed->0@ is Failed),
            decreases related_files.len() - i,
        {
            assert(files[i as int] == related_files@[i as int]@);
            assert(ends[i as int] == removed@[i as int]@);
            if !related_files[i].category.is_protected() {
                match &removed[i] {
                    Removed::Failed(_) => {
                        proof {
                            assert(failed(indices[i as int]));
                            crate::search::lemma_first_match_is(indices, failed, i as int);
                        }
                        return UninstallStep::Finish;
                    },
                    _ => {},
                }
            }
            assert(!failed(indices[i as int]));
            i += 1;
        }
        proof {
            assert forall|k: int| 0 <= k < files.len() implies !failed(#[trigger] indices[k]) by {
                if k >= i {
                    assert(ended(ends, k) is NotThere);
                }
            }
            crate::search::lemma_first_match_is(indices, failed, files.len() as int);
        }
        if removed.len() >= related_files.len() {
            UninstallStep::Finish
        } else if related_files[removed.len()].category.is_protected() {
            assert(files[removed@.len() as int] == related_files@[removed@.len() as int]@);
            UninstallStep::SkipFile(removed.len())
        } else {
            assert(files[removed@.len() as int] == related_files@[removed@.len() as int]@);
            UninstallStep::RemoveFile(removed.len())
        }
    }

    /// The result of uninstalling `app` with the files `related_files`,
    /// where `app_removed` is how the removal of the application ended and
    /// `removed[i]` how that of the `i`-th file did. A file of which
    /// `removed` says nothing was not removed.
    ///
    /// An application of the system or one that is running is left alone,
    /// with an error that says so. Else the first removal that failed is the
    /// error of the whole. Without a failure the application and every file
    /// that is not protected are booked one by one.
    pub fn uninstall(
        &self,
        app: &AppBundle,
        related_files: &Vec<RelatedFile>,
        running: bool,
        app_removed: Removed,
        removed: &Vec<Removed>,
    ) -> (r: Result<UninstallResult, String>)
        ensures
            match r {
                Ok(result) => {
                    let system = match app.known_info() {
                        Some(i) => system_apps().contains(i.bundle_id),
                        None => false,
                    };
                    if system {
                        shows(
                            result,
                            UninstallView {
                                errors: seq!["Cannot uninstall system app"@],
                                ..UninstallView::nothing()
                            },
                        )
                    } else if running {
                        shows(
                            result,
                            UninstallView {
                                errors: seq![
                                    "App is currently running. Please quit the app first."@,
                                ],
                                ..UninstallView::nothing()
                            },
                        )
                    } else {
                        &&& first_failure(app_removed@, views(related_files@), views(removed@))
                            is None
                        &&& shows(
                            result,
                            UninstallView {
                                dry_run: self.is_dry_run(),
                                ..files_booked(
                                    app_booked(
                                        UninstallView::nothing(),
                                        app.path@,
                                        match app.known_size() {
                                            Some(s) => s,
                                            None => 0,
                                        },
                                        app_removed@,
                                    ),
                                    views(related_files@),
                                    views(removed@),
                                    related_files@.len(),
                                )
                            },
                        )
                    }
                },
                Err(e) => {
                    let system = match app.known_info() {
                        Some(i) => system_apps().contains(i.bundle_id),
                        None => false,
                    };
                    &&& !system
                    &&& !running
                    &&& first_failure(app_removed@, views(related_files@), views(removed@))
                        == Some(e@)
                },
            },
    {
        let mut result = UninstallResult::new();
        if self.is_system_app(app) {
            let ghost before = result.errors@;
            result.errors.push(String::from_str("Cannot uninstall system app"));
            assert(crate::plugin::traits::texts(result.errors@) =~= seq![
                "Cannot uninstall system app"@,
            ]);
            return Ok(result);
        }
        if running {
            result.errors.push(
                String::from_str("App is currently running. Please quit the app first."),
            );
            assert(crate::plugin::traits::texts(result.errors@) =~= seq![
                "App is currently running. Please quit the app first."@,
            ]);
            return Ok(result);
        }
        let ghost files = views(related_files@);
        let ghost ends = views(removed@);
        let ghost indices = Seq::new(files.len(), |i: int| i);
        let ghost failed = |i: int| !files[i].category.protected() && ended(ends, i) is Failed;
        let app_size = app.size();
        match app_removed {
            Removed::Failed(e) => {
                return Err(e);
            },
            Removed::Yes => {
                result.deleted_app = true;
                result.total_freed = add_clamped(result.total_freed, app_size);
            },
            Removed::NotThere => {
                result.errors.push(concat("Failed to delete app: ", app.path.as_str()));
                assert(crate::plugin::traits::texts(result.errors@) =~= seq![
                    "Failed to delete app: "@ + app.path@,
                ]);
            },
        }
        let ghost start = app_booked(
            UninstallView::nothing(),
            app.path@,
            app_size,
            app_removed@,
        );
        assert(start.errors =~= crate::plugin::traits::texts(result.errors@));
        let mut i: usize = 0;
        while i < related_files.len()
            invariant
                i <= related_files@.len(),
                files == views(related_files@),
                ends == views(removed@),
                indices == Seq::new(files.len(), |i: int| i),
                failed == |i: int| !files[i].category.protected() && ended(ends, i) is Failed,
                forall|k: int| 0 <= k < i ==> !failed(#[trigger] indices[k]),
                !(app_removed@ is Failed),
                !running,
                !(match app.known_info() {
                    Some(i) => system_apps().contains(i.bundle_id),
                    None => false,
                }),
                shows(result, files_booked(start, files, ends, i as nat)),
            decreases related_files.len() - i,
        {
            let file = &related_files[i];
            assert(files[i as int] == file@);
            let ghost before = result;
            let end: Option<&Removed> = if i < removed.len() {
                assert(ends[i as int] == removed@[i as int]@);
                Some(&removed[i])
            } else {
                None
            };
            if file.category.is_protected() {
                result.skipped.push(file.path.clone());
                assert(crate::plugin::traits::texts(result.skipped@)
                    =~= crate::plugin::traits::texts(before.skipped@).push(file.path@));
            } else {
                match end {
                    Some(Removed::Failed(e)) => {
                        proof {
                            assert(failed(indices[i as int]));
                            crate::search::lemma_first_match_is(indices, failed, i as int);
                        }
                        return Err(e.clone());
                    },
                    Some(Removed::Yes) => {
                        result.deleted_related.push(file.path.clone());
                        result.total_freed = add_clamped(result.total_freed, file.size);
                        assert(crate::plugin::traits::texts(result.deleted_related@)
                            =~= crate::plugin::traits::texts(before.deleted_related@).push(
                            file.path@,
                        ));
                    },
                    _ => {
                        result.errors.push(concat("Failed to delete: ", file.path.as_str()));
                        assert(crate::plugin::traits::texts(result.errors@)
                            =~= crate::plugin::traits::texts(before.errors@).push(
                            "Failed to delete: "@ + file.path@,
                        ));
                    },
                }
            }
            assert(!failed(indices[i as int]));
            i += 1;
        }
        proof {
            crate::search::lemma_first_match_is(indices, failed, files.len() as int);
        }
        result.dry_run = self.dry_run;
        Ok(result)
    }
}

} // verus!
