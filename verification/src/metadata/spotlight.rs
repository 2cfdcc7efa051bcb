//! Reading the output of the command that lists a file's usage metadata:
//! one line for each attribute, the attribute's name, `=`, and its value.

use crate::decimal::{parse_chars, parse_unsigned};
use crate::split::{piece_views, pieces, split_n};
use crate::text::{chars_start_with, from_chars, has_prefix, str_eq, to_chars};
use crate::time::{parse_utc, utc_of_text, Timestamp};
use crate::trim::{strip, stripped, trimmed, Cut};
use vstd::prelude::*;

verus! {

/// When a file was last used, and how often.
#[derive(Debug, Clone, Copy)]
pub struct FileMetadata {
    pub last_used: Option<Timestamp>,
    pub use_count: Option<u32>,
}

impl Default for FileMetadata {
    fn default() -> (r: Self)
        ensures
            r.last_used is None,
            r.use_count is None,
    {
        FileMetadata { last_used: None, use_count: None }
    }
}

/// The value of an attribute line: what follows the first `=`, without the
/// white space around it. A line without `=` has no value.
pub open spec fn value_of(line: Seq<char>) -> Option<Seq<char>> {
    let parts = pieces(line, '=', 2);
    if parts.len() != 2 {
        None
    } else {
        Some(trimmed(parts[1]))
    }
}

/// The number that an attribute line gives: none where the line has no
/// value, the value is `(null)`, or it is no number of 32 bits.
pub open spec fn int_value(line: Seq<char>) -> Option<u32> {
    match value_of(line) {
        None => None,
        Some(v) => if v == "(null)"@ {
            None
        } else {
            match parse_unsigned(v, u32::MAX as nat) {
                Some(n) => Some(n as u32),
                None => None,
            }
        },
    }
}

/// The time that an attribute line gives: none where the line has no value
/// or the value is `(null)`; else what the value, without the quotes around
/// it, reads as.
pub open spec fn date_value(line: Seq<char>) -> Option<Timestamp> {
    match value_of(line) {
        None => None,
        Some(v) => if v == "(null)"@ {
            None
        } else {
            utc_of_text(stripped(v, Cut::Quote))
        },
    }
}

fn value_chars(line: &Vec<char>) -> (r: Option<Vec<char>>)
    ensures
        match r {
            Some(v) => value_of(line@) == Some(v@),
            None => value_of(line@) is None,
        },
{
    let parts = split_n(line, '=', 2);
    assert(piece_views(parts@).len() == parts@.len());
    if parts.len() != 2 {
        return None;
    }
    assert(piece_views(parts@)[1] == parts@[1]@);
    Some(strip(&parts[1], Cut::Space))
}

fn is_null(value: &Vec<char>) -> (r: bool)
    ensures
        r == (value@ == "(null)"@),
{
    str_eq(from_chars(value).as_str(), "(null)")
}

fn int_of(line: &Vec<char>) -> (r: Option<u32>)
    ensures
        r == int_value(line@),
{
    match value_chars(line) {
        None => None,
        Some(value) => {
            if is_null(&value) {
                return None;
            }
            match parse_chars(&value, 0xffff_ffff) {
                Some(n) => Some(n as u32),
                None => None,
            }
        },
    }
}

fn date_of(line: &Vec<char>) -> (r: Option<Timestamp>)
    ensures
        r == date_value(line@),
{
    match value_chars(line) {
        None => None,
        Some(value) => {
            if is_null(&value) {
                return None;
            }
            parse_utc(from_chars(&strip(&value, Cut::Quote)).as_str())
        },
    }
}

/// The number that the attribute line `line` gives.
pub fn parse_int_value(line: &str) -> (r: Option<u32>)
    ensures
        r == int_value(line@),
{
    int_of(&to_chars(line))
}

/// The time that the attribute line `line` gives.
pub fn parse_date_value(line: &str) -> (r: Option<Timestamp>)
    ensures
        r == date_value(line@),
{
    date_of(&to_chars(line))
}

/// What the lines `lines` say of last use and use count: for each of the
/// two, the value of the last line that names it.
pub open spec fn scanned(lines: Seq<Seq<char>>) -> (Option<Timestamp>, Option<u32>)
    decreases lines.len(),
{
    if lines.len() == 0 {
        (None, None)
    } else {
        let before = scanned(lines.drop_last());
        let line = trimmed(lines.last());
        if has_prefix(line, "kMDItemLastUsedDate"@) {
            (date_value(line), before.1)
        } else if has_prefix(line, "kMDItemUseCount"@) {
            (before.0, int_value(line))
        } else {
            before
        }
    }
}

/// The metadata that the listing `output` gives, if it gives any.
pub open spec fn mdls_metadata(output: Seq<char>) -> Option<FileMetadata> {
    let found = scanned(pieces(output, '\n', usize::MAX as nat));
    if found.0 is Some || found.1 is Some {
        Some(FileMetadata { last_used: found.0, use_count: found.1 })
    } else {
        None
    }
}

/// Reads the listing of a file's usage metadata.
pub fn parse_mdls_output(output: &str) -> (r: Option<FileMetadata>)
    ensures
        r == mdls_metadata(output@),
{
    let lines = split_n(&to_chars(output), '\n', usize::MAX);
    let ghost all = piece_views(lines@);
    let date_key = to_chars("kMDItemLastUsedDate");
    let count_key = to_chars("kMDItemUseCount");
    let mut last_used: Option<Timestamp> = None;
    let mut use_count: Option<u32> = None;
    let mut i: usize = 0;
    assert(all.take(0) =~= Seq::<Seq<char>>::empty());
    while i < lines.len()
        invariant
            i <= lines@.len(),
            all == piece_views(lines@),
            date_key@ == "kMDItemLastUsedDate"@,
            count_key@ == "kMDItemUseCount"@,
            (last_used, use_count) == scanned(all.take(i as int)),
        decreases lines.len() - i,
    {
        proof {
            assert(all.take(i + 1).drop_last() == all.take(i as int));
            assert(all.take(i + 1).last() == lines@[i as int]@);
        }
        let line = strip(&lines[i], Cut::Space);
        if chars_start_with(&line, &date_key) {
            last_used = date_of(&line);
        } else if chars_start_with(&line, &count_key) {
            use_count = int_of(&line);
        }
        i += 1;
    }
    assert(all.take(lines@.len() as int) == all);
    if last_used.is_some() || use_count.is_some() {
        Some(FileMetadata { last_used, use_count })
    } else {
        None
    }
}

} // verus!
