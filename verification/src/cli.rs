//! The commands of the tool and their options, as plain values.

use vstd::prelude::*;

verus! {

/// How a command writes its result.
#[derive(Debug, Clone, Copy, PartialEq, Eq, Structural)]
pub enum OutputFormat {
    Human,
    Json,
}

impl Default for OutputFormat {
    fn default() -> (r: Self)
        ensures
            r == OutputFormat::Human,
    {
        OutputFormat::Human
    }
}

/// The form of a report.
#[derive(Debug, Clone, Copy, PartialEq, Eq, Structural)]
pub enum ReportFormat {
    Json,
    Md,
    Txt,
}

/// What to do with the settings.
#[derive(Debug)]
pub enum ConfigActions {
    /// Show the settings.
    Show,
    /// Change one setting.
    SetValue { key: String, value: String },
    /// Exclude a path from scans.
    AddExclude { path: String },
}

/// A command of the tool.
#[derive(Debug)]
#[allow(inconsistent_fields)]
pub enum Commands {
    /// Scan for cleanable items.
    Scan { category: String, format: OutputFormat, out: Option<String>, metadata: bool },
    /// Create a cleanup plan from scan results.
    Plan {
        from: Option<String>,
        category: Option<String>,
        format: OutputFormat,
        out: Option<String>,
    },
    /// Execute the cleanup plan.
    Apply {
        plan: Option<String>,
        category: Option<String>,
        yes: bool,
        format: OutputFormat,
        out: Option<String>,
    },
    /// Generate a report from scan or execution results.
    Report { from: String, format: ReportFormat, out: Option<String> },
    /// Clean scanned items.
    Clean { category: String, execute: bool },
    /// Uninstall an application completely.
    Uninstall { name: String, execute: bool },
    /// Browse and uninstall applications.
    Apps,
    /// Visualize disk usage.
    Space { path: Option<String>, single: bool, threads: usize },
    /// Manage the settings.
    Config { action: ConfigActions },
    /// View the deletion history.
    History { limit: usize },
    /// Run as a server for tool integration.
    Mcp,
}

/// The command line: a command, or none for the interactive tool.
#[derive(Debug)]
pub struct Cli {
    pub command: Option<Commands>,
}

impl Commands {
    /// Number of worker threads that the explorer uses for a request of
    /// `threads`: at least one.
    pub fn thread_count(threads: usize) -> (r: usize)
        ensures
            r == if threads < 1 {
                1
            } else {
                threads
            },
    {
        if threads < 1 {
            1
        } else {
            threads
        }
    }
}

} // verus!
