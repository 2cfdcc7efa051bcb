//! Attachments that the mail application keeps.

use super::{
    any_exists, locate, placed, report, reported, rows, Candidate, CandidateView, Location,
    LocationView, Scanner,
};
use crate::decimal::{decimal, decimal_string};
use crate::paths::{
    file_name, file_name_of, file_name_or, is_under_any, name_or, parent, parent_of, under_any,
};
use crate::plugin::{
    SafetyLevel, ScanConfig, ScanConfigView, ScanResult, ScanResultView, ScannerCategory,
};
use crate::sorting::views;
use crate::text::{concat, concat4, find_char, first_index_of, str_eq, to_chars};
use vstd::prelude::*;

verus! {

/// How deep the search for attachment directories descends.
pub const ATTACHMENT_DEPTH: usize = 4;

/// Finds the directories in which the mail application keeps attachments.
pub struct MailAttachmentsScanner {
    search_paths: Vec<Location>,
}

/// The places where mail keeps attachments: name, and path relative to the
/// home directory. All of it is deleted with caution.
pub open spec fn mail_places() -> Seq<(Seq<char>, Seq<char>, SafetyLevel)> {
    seq![
        ("Mail Attachments"@, "Library/Mail"@, SafetyLevel::Caution),
        (
            "Mail Downloads"@,
            "Library/Containers/com.apple.mail/Data/Library/Mail Downloads"@,
            SafetyLevel::Caution,
        ),
    ]
}

/// The directory `path` holds attachments, by its name.
pub open spec fn holds_attachments(path: Seq<char>) -> bool {
    file_name_of(path) == Some("Attachments"@) || file_name_of(path) == Some("Mail Downloads"@)
}

/// The name of the directory above `path`, or the empty text.
pub open spec fn parent_name(path: Seq<char>) -> Seq<char> {
    match parent_of(path) {
        Some(dir) => name_or(dir, Seq::empty()),
        None => Seq::empty(),
    }
}

/// The name shown for the attachment directory `path` found at a place
/// named `label`: the directory's name, with the account in brackets where
/// the directory above is named after one, and the place's name otherwise.
pub open spec fn shown_name(path: Seq<char>, label: Seq<char>) -> Seq<char> {
    let name = name_or(path, "Attachments"@);
    let above = parent_name(path);
    if above.contains('@') {
        name + " ("@ + above + ")"@
    } else {
        name + " ("@ + label + ")"@
    }
}

impl MailAttachmentsScanner {
    /// The places where the scanner looks.
    pub closed spec fn places(&self) -> Seq<LocationView> {
        views(self.search_paths@)
    }

    /// The scanner for the home directory that the environment names.
    pub fn new() -> (r: Self)
        ensures
            exists|home: Seq<char>| r.places() == placed(home, mail_places()),
    {
        let home = super::home_or_root();
        let r = Self::with_home(home.as_str());
        assert(r.places() == placed(home@, mail_places()));
        r
    }

    /// The scanner for the home directory `home`.
    pub fn with_home(home: &str) -> (r: Self)
        ensures
            r.places() == placed(home@, mail_places()),
    {
        let mut table: Vec<(&'static str, &'static str, SafetyLevel)> = Vec::new();
        table.push(("Mail Attachments", "Library/Mail", SafetyLevel::Caution));
        table.push(
            (
                "Mail Downloads",
                "Library/Containers/com.apple.mail/Data/Library/Mail Downloads",
                SafetyLevel::Caution,
            ),
        );
        assert(rows(table@) =~= mail_places());
        MailAttachmentsScanner { search_paths: locate(home, &table) }
    }

    /// The places where the scanner looks.
    pub fn locations(&self) -> (r: &Vec<Location>)
        ensures
            views(r@) == self.places(),
    {
        &self.search_paths
    }

    /// Whether there is anything to scan: one of the places exists.
    /// `exists[i]` says whether the `i`-th place is there.
    pub fn is_available(&self, exists: &Vec<bool>) -> (r: bool)
        ensures
            r == exists@.contains(true),
    {
        any_exists(exists)
    }

    /// Whether the directory `path` holds attachments, by its name.
    pub fn is_attachment_dir(path: &str) -> (r: bool)
        ensures
            r == holds_attachments(path@),
    {
        match file_name(path) {
            Some(name) => str_eq(name.as_str(), "Attachments") || str_eq(
                name.as_str(),
                "Mail Downloads",
            ),
            None => false,
        }
    }

    /// The name shown for the attachment directory `path` found at a place
    /// named `label`.
    pub fn display_name(path: &str, label: &str) -> (r: String)
        ensures
            r@ == shown_name(path@, label@),
    {
        let name = file_name_or(path, "Attachments");
        let above = match parent(path) {
            Some(dir) => file_name_or(dir.as_str(), ""),
            None => String::new(),
        };
        let chars = to_chars(above.as_str());
        let at = find_char(&chars, '@');
        proof {
            crate::text::lemma_first_index_of(above@, '@');
            if above@.contains('@') {
                let k = choose|k: int| 0 <= k < above@.len() && above@[k] == '@';
                assert(first_index_of(above@, '@') <= k);
            }
            reveal_strlit("");
            assert(""@ =~= Seq::<char>::empty());
        }
        if at < chars.len() {
            assert(above@[at as int] == '@');
            concat4(name.as_str(), " (", above.as_str(), ")")
        } else {
            concat4(name.as_str(), " (", label, ")")
        }
    }
}

impl Scanner for MailAttachmentsScanner {
    open spec fn ident(&self) -> Seq<char> {
        "mail_attachments"@
    }

    open spec fn title(&self) -> Seq<char> {
        "Mail Attachments"@
    }

    open spec fn group(&self) -> ScannerCategory {
        ScannerCategory::System
    }

    /// An attachment directory that is not excluded and holds at least the
    /// smallest size is a finding, to be deleted with caution.
    open spec fn finding_for(
        &self,
        config: ScanConfigView,
        candidate: CandidateView,
        index: nat,
    ) -> Option<ScanResultView> {
        if candidate.slot >= self.places().len() || is_under_any(
            candidate.path,
            config.excluded_paths,
        ) || candidate.size < config.min_size {
            None
        } else {
            Some(
                reported(
                    "mail_"@ + decimal(index),
                    shown_name(candidate.path, self.places()[candidate.slot as int].label),
                    candidate,
                    candidate.file_count,
                    SafetyLevel::Caution,
                    ScannerCategory::System,
                    Some("mail_attachments"@),
                ),
            )
        }
    }

    open spec fn cap(&self) -> usize {
        super::MAX_FINDINGS
    }

    fn id(&self) -> (r: &'static str) {
        "mail_attachments"
    }

    fn name(&self) -> (r: &'static str) {
        "Mail Attachments"
    }

    fn category(&self) -> (r: ScannerCategory) {
        ScannerCategory::System
    }

    fn estimated_secs(&self) -> (r: u64) {
        5
    }

    fn accept(&self, config: &ScanConfig, candidate: &Candidate, index: usize) -> (r: Option<
        ScanResult,
    >) {
        if candidate.slot >= self.search_paths.len() || under_any(
            candidate.path.as_str(),
            &config.excluded_paths,
        ) || candidate.size < config.min_size {
            return None;
        }
        let id = concat("mail_", decimal_string(index as u64).as_str());
        let name = Self::display_name(
            candidate.path.as_str(),
            self.search_paths[candidate.slot].label.as_str(),
        );
        Some(
            report(
                id,
                name,
                candidate,
                candidate.file_count,
                SafetyLevel::Caution,
                ScannerCategory::System,
                Some("mail_attachments"),
            ),
        )
    }

    fn limit(&self) -> (r: usize) {
        super::MAX_FINDINGS
    }
}

impl Default for MailAttachmentsScanner {
    fn default() -> Self {
        Self::new()
    }
}

} // verus!
