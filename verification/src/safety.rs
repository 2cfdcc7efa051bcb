//! The shared policy that classifies a path as safe to delete, to be deleted
//! with caution, or protected.

use crate::paths::{file_name, file_name_of, is_under_any, under_any};
use crate::plugin::traits::texts;
use crate::plugin::SafetyLevel;
use crate::split::{parts, piece_views, split_at};
use crate::text::{
    chars_contain, from_chars, has_infix, has_prefix, lowercase, to_chars, to_lowercase,
};
use crate::trim::{strip, trimmed, Cut};
use vstd::prelude::*;

verus! {

/// Directories whose contents are never deleted.
pub open spec fn protected_prefixes() -> Seq<Seq<char>> {
    seq![
        "/System"@,
        "/usr"@,
        "/bin"@,
        "/sbin"@,
        "/etc"@,
        "/var/db"@,
        "/private/var/db"@,
    ]
}

/// Parts of a path that mark it as critical to the system.
pub open spec fn critical_patterns() -> Seq<Seq<char>> {
    seq![
        ".Spotlight-"@,
        ".fseventsd"@,
        ".Trashes"@,
        "Library/Keychains"@,
        "Library/Security"@,
        "Library/CoreServices"@,
    ]
}

/// `path` contains one of `patterns`.
pub open spec fn contains_any(path: Seq<char>, patterns: Seq<Seq<char>>) -> bool {
    exists|i: int| 0 <= i < patterns.len() && has_infix(path, #[trigger] patterns[i])
}

/// The file name of `path` begins with one dot, not with two.
pub open spec fn is_hidden(path: Seq<char>) -> bool {
    match file_name_of(path) {
        Some(name) => has_prefix(name, seq!['.']) && !has_prefix(name, seq!['.', '.']),
        None => false,
    }
}

/// The safety level of `path`: protected where it is a protected directory
/// or lies under one, component by component, or has a critical pattern in
/// its text; caution for a hidden file; safe otherwise. A path whose text
/// only begins like a protected directory, as `/usrdata` does, is not under
/// it.
pub open spec fn classify(path: Seq<char>) -> SafetyLevel {
    if is_under_any(path, protected_prefixes()) || contains_any(path, critical_patterns()) {
        SafetyLevel::Protected
    } else if is_hidden(path) {
        SafetyLevel::Caution
    } else {
        SafetyLevel::Safe
    }
}

/// The names of the running applications that the system's answer
/// `listing` holds: its parts between each comma followed by a space,
/// without white space around them; none where there is no answer.
pub open spec fn listed_apps(listing: Option<Seq<char>>) -> Seq<Seq<char>> {
    match listing {
        Some(l) => parts(l, ", "@).map_values(|p: Seq<char>| trimmed(p)),
        None => Seq::empty(),
    }
}

/// The characters of each text of `list`.
pub open spec fn char_lists(list: Seq<Vec<char>>) -> Seq<Seq<char>> {
    list.map_values(|v: Vec<char>| v@)
}

/// Classifies paths by the shared safety policy.
pub struct SafetyChecker {
    protected_paths: Vec<String>,
    critical_patterns: Vec<Vec<char>>,
}

impl SafetyChecker {
    #[verifier::type_invariant]
    closed spec fn holds_policy(self) -> bool {
        &&& texts(self.protected_paths@) == protected_prefixes()
        &&& char_lists(self.critical_patterns@) == critical_patterns()
    }

    /// A checker with the policy's protected directories and critical
    /// patterns.
    pub fn new() -> (r: Self)
        ensures
            r.protected_dirs() == protected_prefixes(),
            r.patterns() == critical_patterns(),
    {
        let mut protected_paths: Vec<String> = Vec::new();
        protected_paths.push(String::from_str("/System"));
        protected_paths.push(String::from_str("/usr"));
        protected_paths.push(String::from_str("/bin"));
        protected_paths.push(String::from_str("/sbin"));
        protected_paths.push(String::from_str("/etc"));
        protected_paths.push(String::from_str("/var/db"));
        protected_paths.push(String::from_str("/private/var/db"));
        let mut critical_patterns: Vec<Vec<char>> = Vec::new();
        critical_patterns.push(to_chars(".Spotlight-"));
        critical_patterns.push(to_chars(".fseventsd"));
        critical_patterns.push(to_chars(".Trashes"));
        critical_patterns.push(to_chars("Library/Keychains"));
        critical_patterns.push(to_chars("Library/Security"));
        critical_patterns.push(to_chars("Library/CoreServices"));
        assert(texts(protected_paths@) =~= protected_prefixes());
        assert(char_lists(critical_patterns@) =~= self::critical_patterns());
        SafetyChecker { protected_paths, critical_patterns }
    }

    /// The directories under which the checker protects every path.
    pub closed spec fn protected_dirs(&self) -> Seq<Seq<char>> {
        texts(self.protected_paths@)
    }

    /// The parts of a path by which the checker takes it for critical.
    pub closed spec fn patterns(&self) -> Seq<Seq<char>> {
        char_lists(self.critical_patterns@)
    }

    /// The safety level of `path`.
    pub fn check_path(&self, path: &str) -> (level: SafetyLevel)
        ensures
            level == classify(path@),
    {
        proof {
            use_type_invariant(self);
        }
        if under_any(path, &self.protected_paths) {
            return SafetyLevel::Protected;
        }
        let chars = to_chars(path);
        let ghost patterns = char_lists(self.critical_patterns@);
        let mut j: usize = 0;
        while j < self.critical_patterns.len()
            invariant
                j <= self.critical_patterns@.len(),
                patterns == char_lists(self.critical_patterns@),
                patterns == critical_patterns(),
                !is_under_any(path@, protected_prefixes()),
                chars@ == path@,
                forall|k: int| 0 <= k < j ==> !has_infix(path@, #[trigger] patterns[k]),
            decreases self.critical_patterns.len() - j,
        {
            if chars_contain(&chars, &self.critical_patterns[j]) {
                assert(has_infix(path@, patterns[j as int]));
                return SafetyLevel::Protected;
            }
            j += 1;
        }
        if self.is_hidden_system(path) {
            return SafetyLevel::Caution;
        }
        SafetyLevel::Safe
    }

    /// Whether the file name of `path` begins with one dot, not with two.
    pub fn is_hidden_system(&self, path: &str) -> (r: bool)
        ensures
            r == is_hidden(path@),
    {
        match file_name(path) {
            Some(name) => {
                let chars = to_chars(name.as_str());
                let one = chars.len() >= 1 && chars[0] == '.';
                let two = chars.len() >= 2 && chars[0] == '.' && chars[1] == '.';
                proof {
                    if one {
                        assert(name@.subrange(0, 1) =~= seq!['.']);
                    }
                    if two {
                        assert(name@.subrange(0, 2) =~= seq!['.', '.']);
                    }
                    if has_prefix(name@, seq!['.']) {
                        assert(name@.subrange(0, 1)[0] == '.');
                    }
                    if has_prefix(name@, seq!['.', '.']) {
                        assert(name@.subrange(0, 2)[0] == '.');
                        assert(name@.subrange(0, 2)[1] == '.');
                    }
                }
                one && !two
            },
            None => false,
        }
    }

    /// Whether the policy lets `path` be deleted: it is not protected.
    pub fn is_safe_to_delete(&self, path: &str) -> (r: bool)
        ensures
            r == classify(path@).allows_delete(),
    {
        self.check_path(path).is_deletable()
    }

    /// The names of the applications that run, read from what the system
    /// answered when it was asked for them: `listing` is that answer, or
    /// `None` where the question failed.
    pub fn get_running_apps(&self, listing: Option<&str>) -> (r: Vec<String>)
        ensures
            texts(r@) == listed_apps(
                match listing {
                    Some(l) => Some(l@),
                    None => None,
                },
            ),
    {
        let mut names: Vec<String> = Vec::new();
        match listing {
            None => {
                assert(texts(names@) =~= Seq::<Seq<char>>::empty());
            },
            Some(l) => {
                let pieces = split_at(&to_chars(l), &to_chars(", "));
                let ghost all = piece_views(pieces@);
                let mut i: usize = 0;
                while i < pieces.len()
                    invariant
                        i <= pieces@.len(),
                        all == piece_views(pieces@),
                        names@.len() == i,
                        forall|k: int| 0 <= k < i ==> (#[trigger] names@[k])@ == trimmed(all[k]),
                    decreases pieces.len() - i,
                {
                    names.push(from_chars(&strip(&pieces[i], Cut::Space)));
                    i += 1;
                }
                assert(texts(names@) =~= all.map_values(|p: Seq<char>| trimmed(p)));
            },
        }
        names
    }

    /// Whether one of the running applications, whose names are `running`,
    /// has `app_name` in its name, letter case aside.
    pub fn is_app_running(&self, running: &Vec<String>, app_name: &str) -> (r: bool)
        ensures
            r == exists|i: int|
                0 <= i < running@.len() && has_infix(
                    lowercase(#[trigger] running@[i]@),
                    lowercase(app_name@),
                ),
    {
        let wanted = to_chars(to_lowercase(app_name).as_str());
        let mut i: usize = 0;
        while i < running.len()
            invariant
                i <= running@.len(),
                wanted@ == lowercase(app_name@),
                forall|k: int|
                    0 <= k < i ==> !has_infix(lowercase(#[trigger] running@[k]@), wanted@),
            decreases running.len() - i,
        {
            let name = to_chars(to_lowercase(running[i].as_str()).as_str());
            if chars_contain(&name, &wanted) {
                return true;
            }
            i += 1;
        }
        false
    }
}

impl Default for SafetyChecker {
    fn default() -> Self {
        Self::new()
    }
}

} // verus!
