//! The tool's settings and the rules for changing them.

use crate::decimal::{parse_chars, parse_unsigned};
use crate::paths::{join, joined};
use crate::plugin::traits::{clone_strings, texts};
use crate::text::{str_eq, to_chars};
use vstd::prelude::*;

verus! {

/// The smallest finding that is reported unless the settings say otherwise:
/// one mebibyte.
pub fn default_min_size() -> (r: u64)
    ensures
        r == 1024 * 1024,
{
    1024 * 1024
}

/// How deep a walk descends unless the settings say otherwise.
pub fn default_max_depth() -> (r: usize)
    ensures
        r == 3,
{
    3
}

/// The value of a switch that is on unless the settings say otherwise.
pub fn default_true() -> (r: bool)
    ensures
        r,
{
    true
}

/// Settings of the scanners.
#[derive(Debug)]
pub struct ScanConfig {
    pub min_size_bytes: u64,
    pub max_depth: usize,
    pub excluded_paths: Vec<String>,
    pub scan_paths: Vec<String>,
}

impl Default for ScanConfig {
    fn default() -> (c: Self)
        ensures
            c.min_size_bytes == 1024 * 1024,
            c.max_depth == 3,
            c.excluded_paths@.len() == 0,
            c.scan_paths@.len() == 0,
    {
        ScanConfig {
            min_size_bytes: default_min_size(),
            max_depth: default_max_depth(),
            excluded_paths: Vec::new(),
            scan_paths: Vec::new(),
        }
    }
}

/// Settings of the clean-up.
#[derive(Debug, Clone, Copy)]
pub struct CleanConfig {
    pub dry_run_by_default: bool,
    pub log_history: bool,
    pub confirm_before_clean: bool,
}

impl Default for CleanConfig {
    fn default() -> (c: Self)
        ensures
            c.dry_run_by_default,
            c.log_history,
            c.confirm_before_clean,
    {
        CleanConfig { dry_run_by_default: true, log_history: true, confirm_before_clean: true }
    }
}

/// Settings of the display.
#[derive(Debug, Clone, Copy)]
pub struct UiConfig {
    pub show_sizes_in_bytes: bool,
    pub color_output: bool,
}

impl Default for UiConfig {
    fn default() -> (c: Self)
        ensures
            !c.show_sizes_in_bytes,
            c.color_output,
    {
        UiConfig { show_sizes_in_bytes: false, color_output: true }
    }
}

/// All settings.
#[derive(Debug)]
pub struct Config {
    pub scan: ScanConfig,
    pub clean: CleanConfig,
    pub ui: UiConfig,
}

impl Default for Config {
    fn default() -> (c: Self)
        ensures
            c.scan.min_size_bytes == 1024 * 1024,
            c.scan.max_depth == 3,
            c.scan.excluded_paths@.len() == 0,
            c.scan.scan_paths@.len() == 0,
            c.clean.dry_run_by_default,
            c.clean.log_history,
            c.clean.confirm_before_clean,
            !c.ui.show_sizes_in_bytes,
            c.ui.color_output,
    {
        Config {
            scan: ScanConfig::default(),
            clean: CleanConfig::default(),
            ui: UiConfig::default(),
        }
    }
}

/// Why a setting could not be changed.
#[derive(Debug, Clone, Copy, PartialEq, Eq, Structural)]
pub enum SetError {
    /// No setting has this key.
    UnknownKey,
    /// The value is no number that the setting can hold.
    InvalidNumber,
}

/// The largest depth that the machine can hold, as a 64-bit number.
pub open spec fn depth_limit() -> nat {
    if usize::MAX < u64::MAX {
        usize::MAX as nat
    } else {
        u64::MAX as nat
    }
}

/// The user's local data directory, as `dirs::data_local_dir` finds it in
/// the environment; `None` where it finds none or its name is no valid text.
#[verifier::external_body]
fn local_data_dir() -> Option<String> {
    Some(dirs::data_local_dir()?.to_str()?.to_string())
}

/// The user's configuration directory, as `dirs::config_dir` finds it in
/// the environment; `None` where it finds none or its name is no valid text.
#[verifier::external_body]
fn user_config_dir() -> Option<String> {
    Some(dirs::config_dir()?.to_str()?.to_string())
}

impl Config {
    /// The directory that holds the tool's data, for the data directory that
    /// the environment names.
    pub fn data_dir() -> (dir: String)
        ensures
            exists|base: Seq<char>| dir@ == joined(base, "cleanx"@),
    {
        let base = local_data_dir();
        let dir = Self::data_dir_under(base);
        assert(dir@ == joined(
            match base {
                Some(b) => b@,
                None => "."@,
            },
            "cleanx"@,
        ));
        dir
    }

    /// The file that holds the settings, for the configuration directory
    /// that the environment names.
    pub fn config_path() -> (file: String)
        ensures
            exists|base: Seq<char>| file@ == joined(joined(base, "cleanx"@), "config.toml"@),
    {
        let base = user_config_dir();
        let file = Self::config_path_under(base);
        assert(file@ == joined(
            joined(
                match base {
                    Some(b) => b@,
                    None => "."@,
                },
                "cleanx"@,
            ),
            "config.toml"@,
        ));
        file
    }

    /// Adds `path` to the excluded paths unless it is one of them.
    pub fn add_excluded_path(&mut self, path: String)
        ensures
            texts(final(self).scan.excluded_paths@) == if texts(
                old(self).scan.excluded_paths@,
            ).contains(path@) {
                texts(old(self).scan.excluded_paths@)
            } else {
                texts(old(self).scan.excluded_paths@).push(path@)
            },
            final(self).scan.min_size_bytes == old(self).scan.min_size_bytes,
            final(self).scan.max_depth == old(self).scan.max_depth,
            final(self).scan.scan_paths == old(self).scan.scan_paths,
            final(self).clean == old(self).clean,
            final(self).ui == old(self).ui,
    {
        if !crate::plugin::registry::id_listed(&self.scan.excluded_paths, path.as_str()) {
            let ghost before = texts(self.scan.excluded_paths@);
            self.scan.excluded_paths.push(path);
            assert(texts(self.scan.excluded_paths@) =~= before.push(path@));
        }
    }

    /// Changes the setting `key` to the number that `value` writes:
    /// `min_size` is the smallest finding in bytes, `max_depth` the depth of
    /// a walk. Any other key and any value that is not such a number is
    /// refused, and nothing changes.
    pub fn set(&mut self, key: &str, value: &str) -> (r: Result<(), SetError>)
        ensures
            key@ == "min_size"@ ==> match parse_unsigned(value@, u64::MAX as nat) {
                Some(n) => r is Ok && final(self).scan.min_size_bytes == n && final(self).scan.max_depth == old(self).scan.max_depth,
                None => r == Err::<(), SetError>(SetError::InvalidNumber) && *final(self) == *old(self),
            },
            key@ != "min_size"@ && key@ == "max_depth"@ ==> match parse_unsigned(
                value@,
                depth_limit(),
            ) {
                Some(n) => r is Ok && final(self).scan.max_depth == n && final(self).scan.min_size_bytes == old(self).scan.min_size_bytes,
                None => r == Err::<(), SetError>(SetError::InvalidNumber) && *final(self) == *old(self),
            },
            key@ != "min_size"@ && key@ != "max_depth"@ ==> r == Err::<(), SetError>(
                SetError::UnknownKey,
            ) && *final(self) == *old(self),
            final(self).scan.excluded_paths == old(self).scan.excluded_paths,
            final(self).scan.scan_paths == old(self).scan.scan_paths,
            final(self).clean == old(self).clean,
            final(self).ui == old(self).ui,
    {
        if str_eq(key, "min_size") {
            match parse_chars(&to_chars(value), u64::MAX) {
                Some(n) => {
                    self.scan.min_size_bytes = n;
                    Ok(())
                },
                None => Err(SetError::InvalidNumber),
            }
        } else if str_eq(key, "max_depth") {
            let limit: u64 = usize::MAX as u64;
            match parse_chars(&to_chars(value), limit) {
                Some(n) => {
                    self.scan.max_depth = n as usize;
                    Ok(())
                },
                None => Err(SetError::InvalidNumber),
            }
        } else {
            Err(SetError::UnknownKey)
        }
    }

    /// The settings of a scan as the scanners take them.
    pub fn scan_settings(&self) -> (c: crate::plugin::ScanConfig)
        ensures
            c.min_size == self.scan.min_size_bytes,
            c.max_depth == self.scan.max_depth,
            c.excluded_paths@ == self.scan.excluded_paths@,
            !c.follow_symlinks,
    {
        crate::plugin::ScanConfig {
            min_size: self.scan.min_size_bytes,
            max_depth: self.scan.max_depth,
            excluded_paths: clone_strings(&self.scan.excluded_paths),
            follow_symlinks: false,
        }
    }

    /// The directory that holds the tool's data, under the user's local data
    /// directory `base`, or under the working directory where there is none.
    pub fn data_dir_under(base: Option<String>) -> (dir: String)
        ensures
            dir@ == joined(
                match base {
                    Some(b) => b@,
                    None => "."@,
                },
                "cleanx"@,
            ),
    {
        match base {
            Some(b) => join(b.as_str(), "cleanx"),
            None => join(".", "cleanx"),
        }
    }

    /// The file that holds the settings, under the user's configuration
    /// directory `base`, or under the working directory where there is none.
    pub fn config_path_under(base: Option<String>) -> (file: String)
        ensures
            file@ == joined(
                joined(
                    match base {
                        Some(b) => b@,
                        None => "."@,
                    },
                    "cleanx"@,
                ),
                "config.toml"@,
            ),
    {
        let dir = match base {
            Some(b) => join(b.as_str(), "cleanx"),
            None => join(".", "cleanx"),
        };
        join(dir.as_str(), "config.toml")
    }
}

} // verus!
