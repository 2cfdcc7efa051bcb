//! Reading property lists: the root dictionary of one, and the few
//! questions that the tool asks of it.
//!
//! A property list is handed over as the bytes of its file. The `plist`
//! crate reads them once; what it reads depends on the bytes alone and has
//! a name. The entries of the root dictionary are then held as values of
//! this library, and every question is answered from them.

use crate::search::{first_match, lemma_first_match_is};
use crate::text::str_eq;
use vstd::prelude::*;

verus! {

/// What the bytes of a file are, read as a property list.
#[derive(Debug, Clone, Copy, PartialEq, Eq, Structural)]
pub enum PlistKind {
    /// No property list.
    Invalid,
    /// A property list whose root is a dictionary.
    Dictionary,
    /// A property list with another root.
    Other,
}

/// The value of one entry of the root dictionary, as far as the tool reads
/// it.
#[derive(Debug)]
pub enum PlistEntry {
    /// A text.
    Text(String),
    /// A truth value.
    Flag(bool),
    /// An array: for each item its text, if it is one.
    Items(Vec<Option<String>>),
    /// Any other value.
    Other,
}

/// An entry's value, with its texts as character sequences.
pub enum PlistEntryView {
    Text(Seq<char>),
    Flag(bool),
    Items(Seq<Option<Seq<char>>>),
    Other,
}

impl View for PlistEntry {
    type V = PlistEntryView;

    open spec fn view(&self) -> PlistEntryView {
        match self {
            PlistEntry::Text(t) => PlistEntryView::Text(t@),
            PlistEntry::Flag(b) => PlistEntryView::Flag(*b),
            PlistEntry::Items(items) => PlistEntryView::Items(
                items@.map_values(
                    |i: Option<String>|
                        match i {
                            Some(t) => Some(t@),
                            None => None,
                        },
                ),
            ),
            PlistEntry::Other => PlistEntryView::Other,
        }
    }
}

/// What was read from the bytes of a file.
#[derive(Debug)]
pub enum PlistRoot {
    /// The bytes are no property list.
    Invalid,
    /// A property list whose root is no dictionary.
    Other,
    /// The entries of the root dictionary, key and value, in their order.
    Dictionary(Vec<(String, PlistEntry)>),
}

/// What was read, with the texts as character sequences.
pub enum PlistRootView {
    Invalid,
    Other,
    Dictionary(Seq<(Seq<char>, PlistEntryView)>),
}

impl View for PlistRoot {
    type V = PlistRootView;

    open spec fn view(&self) -> PlistRootView {
        match self {
            PlistRoot::Invalid => PlistRootView::Invalid,
            PlistRoot::Other => PlistRootView::Other,
            PlistRoot::Dictionary(entries) => PlistRootView::Dictionary(
                entries@.map_values(|e: (String, PlistEntry)| (e.0@, e.1@)),
            ),
        }
    }
}

/// What the `plist` crate reads from `bytes`.
pub uninterp spec fn plist_root(bytes: Seq<u8>) -> PlistRootView;

/// `Value::from_reader`: reads `bytes` as a property list, in whichever of
/// its formats they are written, and hands out the entries of the root
/// dictionary one by one, each value by its variant.
#[verifier::external_body]
pub(crate) fn read(bytes: &[u8]) -> (r: PlistRoot)
    ensures
        r@ == plist_root(bytes@),
{
    let dict = match plist::Value::from_reader(std::io::Cursor::new(bytes)) {
        Ok(plist::Value::Dictionary(d)) => d,
        Ok(_) => return PlistRoot::Other,
        Err(_) => return PlistRoot::Invalid,
    };
    PlistRoot::Dictionary(dict.into_iter().map(|(k, v)| (k, match v {
        plist::Value::String(s) => PlistEntry::Text(s),
        plist::Value::Boolean(b) => PlistEntry::Flag(b),
        plist::Value::Array(a) => PlistEntry::Items(a.into_iter().map(|i| i.into_string()).collect()),
        _ => PlistEntry::Other,
    })).collect())
}

impl PlistRootView {
    /// What the root is.
    pub open spec fn kind(self) -> PlistKind {
        match self {
            PlistRootView::Invalid => PlistKind::Invalid,
            PlistRootView::Other => PlistKind::Other,
            PlistRootView::Dictionary(_) => PlistKind::Dictionary,
        }
    }

    /// The value under `key` in the root dictionary.
    pub open spec fn entry(self, key: Seq<char>) -> Option<PlistEntryView> {
        match self {
            PlistRootView::Dictionary(entries) => {
                let p = first_match(entries, |e: (Seq<char>, PlistEntryView)| e.0 == key);
                if p < entries.len() {
                    Some(entries[p].1)
                } else {
                    None
                }
            },
            _ => None,
        }
    }

    /// The text under `key` in the root dictionary.
    pub open spec fn text(self, key: Seq<char>) -> Option<Seq<char>> {
        match self.entry(key) {
            Some(PlistEntryView::Text(t)) => Some(t),
            _ => None,
        }
    }

    /// The truth value under `key` in the root dictionary.
    pub open spec fn flag(self, key: Seq<char>) -> Option<bool> {
        match self.entry(key) {
            Some(PlistEntryView::Flag(b)) => Some(b),
            _ => None,
        }
    }

    /// The first item, if it is a text, of the array under `key` in the
    /// root dictionary.
    pub open spec fn first_text(self, key: Seq<char>) -> Option<Seq<char>> {
        match self.entry(key) {
            Some(PlistEntryView::Items(items)) => if items.len() > 0 {
                items[0]
            } else {
                None
            },
            _ => None,
        }
    }
}

/// What `bytes` are, read as a property list.
pub open spec fn plist_kind(bytes: Seq<u8>) -> PlistKind {
    plist_root(bytes).kind()
}

/// The text under `key` in the root dictionary of the property list `bytes`.
pub open spec fn plist_text(bytes: Seq<u8>, key: Seq<char>) -> Option<Seq<char>> {
    plist_root(bytes).text(key)
}

/// The truth value under `key` in the root dictionary of the property list
/// `bytes`.
pub open spec fn plist_flag(bytes: Seq<u8>, key: Seq<char>) -> Option<bool> {
    plist_root(bytes).flag(key)
}

/// The first item, if it is a text, of the array under `key` in the root
/// dictionary of the property list `bytes`.
pub open spec fn plist_first_text(bytes: Seq<u8>, key: Seq<char>) -> Option<Seq<char>> {
    plist_root(bytes).first_text(key)
}

impl PlistRoot {
    /// What the root is.
    pub fn kind(&self) -> (r: PlistKind)
        ensures
            r == self@.kind(),
    {
        match self {
            PlistRoot::Invalid => PlistKind::Invalid,
            PlistRoot::Other => PlistKind::Other,
            PlistRoot::Dictionary(_) => PlistKind::Dictionary,
        }
    }

    /// The value under `key` in the root dictionary.
    pub fn entry(&self, key: &str) -> (r: Option<&PlistEntry>)
        ensures
            match r {
                Some(e) => self@.entry(key@) == Some(e@),
                None => self@.entry(key@) is None,
            },
    {
        match self {
            PlistRoot::Dictionary(entries) => {
                let ghost all = entries@.map_values(|e: (String, PlistEntry)| (e.0@, e.1@));
                let mut i: usize = 0;
                while i < entries.len() && !str_eq(entries[i].0.as_str(), key)
                    invariant
                        i <= entries@.len(),
                        all == entries@.map_values(|e: (String, PlistEntry)| (e.0@, e.1@)),
                        forall|k: int| 0 <= k < i ==> (#[trigger] all[k]).0 != key@,
                    decreases entries.len() - i,
                {
                    i += 1;
                }
                proof {
                    lemma_first_match_is(
                        all,
                        |e: (Seq<char>, PlistEntryView)| e.0 == key@,
                        i as int,
                    );
                }
                if i < entries.len() {
                    Some(&entries[i].1)
                } else {
                    None
                }
            },
            _ => None,
        }
    }

    /// The text under `key` in the root dictionary.
    pub fn text(&self, key: &str) -> (r: Option<String>)
        ensures
            match r {
                Some(t) => self@.text(key@) == Some(t@),
                None => self@.text(key@) is None,
            },
    {
        match self.entry(key) {
            Some(PlistEntry::Text(t)) => Some(t.clone()),
            _ => None,
        }
    }

    /// The truth value under `key` in the root dictionary.
    pub fn flag(&self, key: &str) -> (r: Option<bool>)
        ensures
            r == self@.flag(key@),
    {
        match self.entry(key) {
            Some(PlistEntry::Flag(b)) => Some(*b),
            _ => None,
        }
    }

    /// The first item, if it is a text, of the array under `key` in the
    /// root dictionary.
    pub fn first_text(&self, key: &str) -> (r: Option<String>)
        ensures
            match r {
                Some(t) => self@.first_text(key@) == Some(t@),
                None => self@.first_text(key@) is None,
            },
    {
        match self.entry(key) {
            Some(PlistEntry::Items(items)) => {
                if items.len() > 0 {
                    match &items[0] {
                        Some(t) => Some(t.clone()),
                        None => None,
                    }
                } else {
                    None
                }
            },
            _ => None,
        }
    }
}

} // verus!
