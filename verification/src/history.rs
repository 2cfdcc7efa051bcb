//! The history log: one line for each deletion, and the reading of such
//! lines. Appending to the log file and reading it are the caller's part.

use crate::config::Config;
use crate::decimal::{decimal, decimal_string, parse_chars, parse_unsigned};
use crate::paths::{join, joined};
use crate::search::collect;
use crate::split::{piece_views, pieces, split_n};
use crate::text::{chars_start_with, from_chars, has_prefix, to_chars};
use crate::time::{parse_rfc3339, rfc3339_of, to_rfc3339, utc_of_rfc3339, Timestamp};
use vstd::prelude::*;

verus! {

/// One record of the history log.
#[derive(Debug)]
pub struct HistoryEntry {
    pub timestamp: Timestamp,
    pub action: String,
    pub path: String,
    pub size: Option<u64>,
}

/// A record, with its texts as character sequences.
pub struct HistoryEntryView {
    pub timestamp: Timestamp,
    pub action: Seq<char>,
    pub path: Seq<char>,
    pub size: Option<u64>,
}

impl View for HistoryEntry {
    type V = HistoryEntryView;

    open spec fn view(&self) -> HistoryEntryView {
        HistoryEntryView {
            timestamp: self.timestamp,
            action: self.action@,
            path: self.path@,
            size: self.size,
        }
    }
}

/// What a record writes of its size: nothing where it has none.
pub open spec fn size_part(size: Option<u64>) -> Seq<char> {
    match size {
        Some(n) => " size="@ + decimal(n as nat),
        None => Seq::empty(),
    }
}

/// The line that records `entry`: time, action, path and, where it is
/// known, the size, with one space between them and a line feed at the end.
/// There is no line where the time cannot be written.
pub open spec fn log_line(entry: HistoryEntryView) -> Option<Seq<char>> {
    match rfc3339_of(entry.timestamp) {
        Some(stamp) => Some(
            stamp + " "@ + entry.action + " "@ + entry.path + size_part(entry.size) + "\n"@,
        ),
        None => None,
    }
}

/// The record that a line of the log holds: time, action and path, parted by
/// single spaces, and after a further space the size as `size=` and a
/// number. A line with fewer than three parts or an unreadable time holds no
/// record; an unreadable size is left out.
pub open spec fn line_entry(line: Seq<char>) -> Option<HistoryEntryView> {
    let parts = pieces(line, ' ', 4);
    if parts.len() < 3 {
        None
    } else {
        match utc_of_rfc3339(parts[0]) {
            None => None,
            Some(timestamp) => Some(
                HistoryEntryView {
                    timestamp,
                    action: parts[1],
                    path: parts[2],
                    size: if parts.len() > 3 && has_prefix(parts[3], "size="@) {
                        match parse_unsigned(
                            parts[3].subrange(5, parts[3].len() as int),
                            u64::MAX as nat,
                        ) {
                            Some(n) => Some(n as u64),
                            None => None,
                        }
                    } else {
                        None
                    },
                },
            ),
        }
    }
}

/// `line` without a carriage return at its end.
pub open spec fn without_return(line: Seq<char>) -> Seq<char> {
    if line.len() > 0 && line.last() == '\r' {
        line.drop_last()
    } else {
        line
    }
}

/// The records that the log `content` holds, in the order of its lines.
pub open spec fn log_entries(content: Seq<char>) -> Seq<HistoryEntryView> {
    collect(
        pieces(content, '\n', usize::MAX as nat),
        |line: Seq<char>| line_entry(without_return(line)),
    )
}

/// The `n` last items of `s`, the last one first; all of them where there
/// are fewer.
pub open spec fn newest<T>(s: Seq<T>, n: nat) -> Seq<T> {
    if n >= s.len() {
        s.reverse()
    } else {
        s.reverse().take(n as int)
    }
}

/// What reading the log `content` gives: all records in the order of the
/// log, or, with a limit, that many of the last records, the last one first.
pub open spec fn history_of(content: Seq<char>, limit: Option<usize>) -> Seq<HistoryEntryView> {
    match limit {
        Some(n) => newest(log_entries(content), n as nat),
        None => log_entries(content),
    }
}

impl HistoryEntry {
    /// A record of `action` on `path` at the time `now`, without a size.
    pub fn new(action: String, path: String, now: Timestamp) -> (r: Self)
        ensures
            r@ == (HistoryEntryView { timestamp: now, action: action@, path: path@, size: None }),
    {
        HistoryEntry { timestamp: now, action, path, size: None }
    }

    pub fn with_size(self, size: u64) -> (r: Self)
        ensures
            r@ == (HistoryEntryView { size: Some(size), ..self@ }),
    {
        let mut r = self;
        r.size = Some(size);
        r
    }

    /// The line that records the entry.
    pub fn to_log_line(&self) -> (r: Option<String>)
        ensures
            match r {
                Some(line) => log_line(self@) == Some(line@),
                None => log_line(self@) is None,
            },
    {
        let stamp = match to_rfc3339(self.timestamp) {
            Some(s) => s,
            None => {
                return None;
            },
        };
        let line = stamp.concat(" ").concat(self.action.as_str()).concat(" ").concat(
            self.path.as_str(),
        );
        let line = match self.size {
            Some(n) => line.concat(" size=").concat(decimal_string(n).as_str()),
            None => line,
        };
        proof {
            assert(line@ =~= rfc3339_of(self.timestamp)->0 + " "@ + self.action@ + " "@
                + self.path@ + size_part(self.size));
        }
        Some(line.concat("\n"))
    }
}

/// Writes and reads the lines of the history log.
pub struct HistoryLogger {
    log_path: String,
}

impl HistoryLogger {
    /// The file that holds the log.
    pub closed spec fn file(&self) -> Seq<char> {
        self.log_path@
    }

    /// The logger for the data directory that the environment names.
    pub fn new() -> (r: Self)
        ensures
            exists|data_dir: Seq<char>| r.file() == joined(data_dir, "history.log"@),
    {
        let dir = Config::data_dir();
        let r = Self::with_data_dir(dir.as_str());
        assert(r.file() == joined(dir@, "history.log"@));
        r
    }

    /// The logger whose log is the file `history.log` in `data_dir`.
    pub fn with_data_dir(data_dir: &str) -> (r: Self)
        ensures
            r.file() == joined(data_dir@, "history.log"@),
    {
        HistoryLogger { log_path: join(data_dir, "history.log") }
    }

    /// The file that holds the log.
    pub fn path(&self) -> (r: &String)
        ensures
            r@ == self.file(),
    {
        &self.log_path
    }

    /// The line to append to the log for `entry`.
    pub fn log(&self, entry: &HistoryEntry) -> (r: Option<String>)
        ensures
            match r {
                Some(line) => log_line(entry@) == Some(line@),
                None => log_line(entry@) is None,
            },
    {
        entry.to_log_line()
    }

    /// The line to append to the log for the deletion of `path` at the time
    /// `now`, with the size that was freed where it is known.
    pub fn log_delete(&self, path: &str, size: Option<u64>, now: Timestamp) -> (r: Option<String>)
        ensures
            match r {
                Some(line) => log_line(
                    HistoryEntryView { timestamp: now, action: "DELETE"@, path: path@, size },
                ) == Some(line@),
                None => rfc3339_of(now) is None,
            },
    {
        let entry = HistoryEntry::new(String::from_str("DELETE"), String::from_str(path), now);
        let entry = match size {
            Some(s) => entry.with_size(s),
            None => entry,
        };
        self.log(&entry)
    }

    fn entry_of(line: &Vec<char>) -> (r: Option<HistoryEntry>)
        ensures
            match r {
                Some(e) => line_entry(line@) == Some(e@),
                None => line_entry(line@) is None,
            },
    {
        let parts = split_n(line, ' ', 4);
        assert(piece_views(parts@).len() == parts@.len());
        if parts.len() < 3 {
            return None;
        }
        proof {
            assert(piece_views(parts@)[0] == parts@[0]@);
            assert(piece_views(parts@)[1] == parts@[1]@);
            assert(piece_views(parts@)[2] == parts@[2]@);
            if parts@.len() > 3 {
                assert(piece_views(parts@)[3] == parts@[3]@);
            }
        }
        let timestamp = match parse_rfc3339(from_chars(&parts[0]).as_str()) {
            Some(t) => t,
            None => {
                return None;
            },
        };
        let size = if parts.len() > 3 && chars_start_with(&parts[3], &to_chars("size=")) {
            proof {
                reveal_strlit("size=");
            }
            let mut digits: Vec<char> = Vec::new();
            let mut i: usize = 5;
            while i < parts[3].len()
                invariant
                    5 <= i <= parts@[3]@.len(),
                    parts@.len() > 3,
                    digits@ == parts@[3]@.subrange(5, i as int),
                decreases parts[3].len() - i,
            {
                digits.push(parts[3][i]);
                assert(parts@[3]@.subrange(5, i + 1) == parts@[3]@.subrange(5, i as int).push(
                    parts@[3]@[i as int],
                ));
                i += 1;
            }
            parse_chars(&digits, u64::MAX)
        } else {
            None
        };
        Some(
            HistoryEntry {
                timestamp,
                action: from_chars(&parts[1]),
                path: from_chars(&parts[2]),
                size,
            },
        )
    }

    /// The record that the line `line` of the log holds.
    pub fn parse_line(&self, line: &str) -> (r: Option<HistoryEntry>)
        ensures
            match r {
                Some(e) => line_entry(line@) == Some(e@),
                None => line_entry(line@) is None,
            },
    {
        Self::entry_of(&to_chars(line))
    }

    /// The records of the log whose text is `content`: all of them in the
    /// order of the log, or, with a limit, that many of the last ones, the
    /// last one first.
    pub fn read_history(&self, content: &str, limit: Option<usize>) -> (r: Vec<HistoryEntry>)
        ensures
            crate::sorting::views(r@) == history_of(content@, limit),
    {
        let lines = split_n(&to_chars(content), '\n', usize::MAX);
        let ghost all = piece_views(lines@);
        let ghost read = |line: Seq<char>| line_entry(without_return(line));
        let mut entries: Vec<HistoryEntry> = Vec::new();
        let mut i: usize = 0;
        assert(crate::sorting::views(entries@) =~= collect(all.take(0), read));
        while i < lines.len()
            invariant
                i <= lines@.len(),
                all == piece_views(lines@),
                read == |line: Seq<char>| line_entry(without_return(line)),
                crate::sorting::views(entries@) == collect(all.take(i as int), read),
            decreases lines.len() - i,
        {
            proof {
                assert(all.take(i + 1).drop_last() == all.take(i as int));
                assert(all.take(i + 1).last() == lines@[i as int]@);
            }
            let mut line: Vec<char> = Vec::new();
            let n = lines[i].len();
            let end = if n > 0 && lines[i][n - 1] == '\r' {
                n - 1
            } else {
                n
            };
            let mut k: usize = 0;
            while k < end
                invariant
                    k <= end <= lines@[i as int]@.len(),
                    i < lines@.len(),
                    line@ == lines@[i as int]@.take(k as int),
                decreases end - k,
            {
                line.push(lines[i][k]);
                assert(lines@[i as int]@.take(k + 1) == lines@[i as int]@.take(k as int).push(
                    lines@[i as int]@[k as int],
                ));
                k += 1;
            }
            assert(line@ == without_return(lines@[i as int]@)) by {
                if end == n {
                    assert(lines@[i as int]@.take(n as int) == lines@[i as int]@);
                }
            }
            let ghost before = entries@;
            match Self::entry_of(&line) {
                Some(e) => {
                    entries.push(e);
                    assert(crate::sorting::views(entries@) =~= crate::sorting::views(before).push(
                        e@,
                    ));
                },
                None => {},
            }
            i += 1;
        }
        assert(all.take(lines@.len() as int) == all);
        match limit {
            None => entries,
            Some(n) => {
                let ghost listed = crate::sorting::views(entries@);
                let mut rest = entries;
                let mut out: Vec<HistoryEntry> = Vec::new();
                while out.len() < n && rest.len() > 0
                    invariant
                        rest@.len() + out@.len() == listed.len(),
                        out@.len() <= n,
                        crate::sorting::views(rest@) == listed.take(rest@.len() as int),
                        crate::sorting::views(out@) == listed.reverse().take(out@.len() as int),
                    decreases rest.len(),
                {
                    let ghost out_before = out@;
                    let ghost rest_before = rest@;
                    let e = rest.pop().unwrap();
                    out.push(e);
                    proof {
                        assert(crate::sorting::views(rest_before)[rest_before.len() - 1]
                            == rest_before[rest_before.len() - 1]@);
                        assert(crate::sorting::views(rest@) =~= listed.take(rest@.len() as int));
                        assert(e@ == listed[rest@.len() as int]);
                        assert(listed.reverse()[out_before.len() as int] == e@);
                        assert(crate::sorting::views(out@) =~= listed.reverse().take(
                            out@.len() as int,
                        ));
                    }
                }
                proof {
                    if n >= listed.len() {
                        assert(listed.reverse().take(listed.len() as int) == listed.reverse());
                    }
                }
                out
            },
        }
    }
}

impl Default for HistoryLogger {
    fn default() -> Self {
        Self::new()
    }
}

} // verus!
