//! Administrative tasks that the tool offers beside deletions. A task is a
//! finding without size whose metadata carries the command to run.

use crate::plugin::{SafetyLevel, ScanResult, ScanResultView, ScannerCategory};
use crate::sorting::views;
use crate::text::{concat, concat3};
use vstd::prelude::*;

verus! {

/// One administrative task.
#[derive(Debug)]
pub struct MaintenanceTask {
    pub id: String,
    pub name: String,
    pub description: String,
    pub command: String,
    pub requires_sudo: bool,
    pub safety: SafetyLevel,
}

/// A task, with its texts as character sequences.
pub struct MaintenanceTaskView {
    pub id: Seq<char>,
    pub name: Seq<char>,
    pub description: Seq<char>,
    pub command: Seq<char>,
    pub requires_sudo: bool,
    pub safety: SafetyLevel,
}

impl View for MaintenanceTask {
    type V = MaintenanceTaskView;

    open spec fn view(&self) -> MaintenanceTaskView {
        MaintenanceTaskView {
            id: self.id@,
            name: self.name@,
            description: self.description@,
            command: self.command@,
            requires_sudo: self.requires_sudo,
            safety: self.safety,
        }
    }
}

/// `true` or `false`, written out.
pub open spec fn flag_text(b: bool) -> Seq<char> {
    if b {
        "true"@
    } else {
        "false"@
    }
}

/// `true` or `false`, written out.
pub fn flag_string(b: bool) -> (r: String)
    ensures
        r@ == flag_text(b),
{
    if b {
        String::from_str("true")
    } else {
        String::from_str("false")
    }
}

/// The tasks that the tool offers for the home directory `home`.
pub open spec fn maintenance_tasks(home: Seq<char>) -> Seq<MaintenanceTaskView> {
    seq![
        MaintenanceTaskView {
            id: "flush_dns"@,
            name: "Flush DNS Cache"@,
            description: "Clear DNS cache to resolve network issues"@,
            command: "dscacheutil -flushcache && sudo killall -HUP mDNSResponder"@,
            requires_sudo: true,
            safety: SafetyLevel::Safe,
        },
        MaintenanceTaskView {
            id: "rebuild_launchservices"@,
            name: "Rebuild Launch Services"@,
            description: "Rebuild Launch Services database to fix app associations"@,
            command: "/System/Library/Frameworks/CoreServices.framework/Frameworks/LaunchServices.framework/Support/lsregister -kill -r -domain local -domain system -domain user"@,
            requires_sudo: false,
            safety: SafetyLevel::Safe,
        },
        MaintenanceTaskView {
            id: "clear_font_cache"@,
            name: "Clear Font Cache"@,
            description: "Clear font cache to fix font rendering issues"@,
            command: "atsutil databases -remove"@,
            requires_sudo: false,
            safety: SafetyLevel::Safe,
        },
        MaintenanceTaskView {
            id: "reset_spotlight"@,
            name: "Reset Spotlight Index"@,
            description: "Reset Spotlight search index (may take time)"@,
            command: "sudo mdutil -E /"@,
            requires_sudo: true,
            safety: SafetyLevel::Caution,
        },
        MaintenanceTaskView {
            id: "purge_memory"@,
            name: "Purge Memory"@,
            description: "Free up inactive memory"@,
            command: "purge"@,
            requires_sudo: false,
            safety: SafetyLevel::Safe,
        },
        MaintenanceTaskView {
            id: "clean_tmp"@,
            name: "Clean TMP Files"@,
            description: "Remove temporary system files"@,
            command: "rm -rf /tmp/* 2>/dev/null; rm -rf "@ + home + "/.tmp/* 2>/dev/null"@,
            requires_sudo: false,
            safety: SafetyLevel::Safe,
        },
        MaintenanceTaskView {
            id: "verify_disk"@,
            name: "Verify Disk"@,
            description: "Verify startup disk for errors"@,
            command: "diskutil verifyVolume /"@,
            requires_sudo: false,
            safety: SafetyLevel::Safe,
        },
        MaintenanceTaskView {
            id: "clear_quicklook"@,
            name: "Clear Quick Look Cache"@,
            description: "Clear Quick Look thumbnail cache"@,
            command: "qlmanage -r cache"@,
            requires_sudo: false,
            safety: SafetyLevel::Safe,
        },
        MaintenanceTaskView {
            id: "reset_dock"@,
            name: "Reset Dock"@,
            description: "Reset Dock to default settings"@,
            command: "defaults delete com.apple.dock; killall Dock"@,
            requires_sudo: false,
            safety: SafetyLevel::Caution,
        },
        MaintenanceTaskView {
            id: "reset_finder"@,
            name: "Reset Finder"@,
            description: "Restart Finder to apply changes"@,
            command: "killall Finder"@,
            requires_sudo: false,
            safety: SafetyLevel::Safe,
        },
    ]
}

/// The finding that offers `task`: no bytes, one item, the command as its
/// path and in its metadata.
pub open spec fn task_finding(task: MaintenanceTaskView) -> ScanResultView {
    ScanResultView {
        id: "maint_"@ + task.id,
        name: task.name,
        path: task.command,
        size: 0,
        file_count: 1,
        dir_count: 0,
        last_accessed: None,
        last_modified: None,
        safety_level: task.safety,
        category: ScannerCategory::System,
        metadata: Map::empty().insert("scanner_id"@, "maintenance"@).insert(
            "task_id"@,
            task.id,
        ).insert("command"@, task.command).insert("description"@, task.description).insert(
            "requires_sudo"@,
            flag_text(task.requires_sudo),
        ),
    }
}

fn task(
    id: &str,
    name: &str,
    description: &str,
    command: String,
    requires_sudo: bool,
    safety: SafetyLevel,
) -> (r: MaintenanceTask)
    ensures
        r@ == (MaintenanceTaskView {
            id: id@,
            name: name@,
            description: description@,
            command: command@,
            requires_sudo,
            safety,
        }),
{
    MaintenanceTask {
        id: String::from_str(id),
        name: String::from_str(name),
        description: String::from_str(description),
        command,
        requires_sudo,
        safety,
    }
}

/// Offers the administrative tasks as findings.
pub struct MaintenanceScanner {
    tasks: Vec<MaintenanceTask>,
}

impl MaintenanceScanner {
    /// The tasks that are offered.
    pub closed spec fn offered(&self) -> Seq<MaintenanceTaskView> {
        views(self.tasks@)
    }

    /// The scanner for the home directory that the environment names.
    pub fn new() -> (r: Self)
        ensures
            exists|home: Seq<char>| r.offered() == maintenance_tasks(home),
    {
        let home = super::home_or_root();
        let r = Self::with_home(home.as_str());
        assert(r.offered() == maintenance_tasks(home@));
        r
    }

    /// The scanner for the home directory `home`.
    pub fn with_home(home: &str) -> (r: Self)
        ensures
            r.offered() == maintenance_tasks(home@),
    {
        let mut tasks: Vec<MaintenanceTask> = Vec::new();
        tasks.push(
            task(
                "flush_dns",
                "Flush DNS Cache",
                "Clear DNS cache to resolve network issues",
                String::from_str("dscacheutil -flushcache && sudo killall -HUP mDNSResponder"),
                true,
                SafetyLevel::Safe,
            ),
        );
        tasks.push(
            task(
                "rebuild_launchservices",
                "Rebuild Launch Services",
                "Rebuild Launch Services database to fix app associations",
                String::from_str(
                    "/System/Library/Frameworks/CoreServices.framework/Frameworks/LaunchServices.framework/Support/lsregister -kill -r -domain local -domain system -domain user",
                ),
                false,
                SafetyLevel::Safe,
            ),
        );
        tasks.push(
            task(
                "clear_font_cache",
                "Clear Font Cache",
                "Clear font cache to fix font rendering issues",
                String::from_str("atsutil databases -remove"),
                false,
                SafetyLevel::Safe,
            ),
        );
        tasks.push(
            task(
                "reset_spotlight",
                "Reset Spotlight Index",
                "Reset Spotlight search index (may take time)",
                String::from_str("sudo mdutil -E /"),
                true,
                SafetyLevel::Caution,
            ),
        );
        tasks.push(
            task(
                "purge_memory",
                "Purge Memory",
                "Free up inactive memory",
                String::from_str("purge"),
                false,
                SafetyLevel::Safe,
            ),
        );
        tasks.push(
            task(
                "clean_tmp",
                "Clean TMP Files",
                "Remove temporary system files",
                concat3("rm -rf /tmp/* 2>/dev/null; rm -rf ", home, "/.tmp/* 2>/dev/null"),
                false,
                SafetyLevel::Safe,
            ),
        );
        tasks.push(
            task(
                "verify_disk",
                "Verify Disk",
                "Verify startup disk for errors",
                String::from_str("diskutil verifyVolume /"),
                false,
                SafetyLevel::Safe,
            ),
        );
        tasks.push(
            task(
                "clear_quicklook",
                "Clear Quick Look Cache",
                "Clear Quick Look thumbnail cache",
                String::from_str("qlmanage -r cache"),
                false,
                SafetyLevel::Safe,
            ),
        );
        tasks.push(
            task(
                "reset_dock",
                "Reset Dock",
                "Reset Dock to default settings",
                String::from_str("defaults delete com.apple.dock; killall Dock"),
                false,
                SafetyLevel::Caution,
            ),
        );
        tasks.push(
            task(
                "reset_finder",
                "Reset Finder",
                "Restart Finder to apply changes",
                String::from_str("killall Finder"),
                false,
                SafetyLevel::Safe,
            ),
        );
        assert(views(tasks@) =~= maintenance_tasks(home@));
        MaintenanceScanner { tasks }
    }

    pub fn id(&self) -> (r: &'static str)
        ensures
            r@ == "maintenance"@,
    {
        "maintenance"
    }

    pub fn name(&self) -> (r: &'static str)
        ensures
            r@ == "Maintenance"@,
    {
        "Maintenance"
    }

    pub fn category(&self) -> (r: ScannerCategory)
        ensures
            r == ScannerCategory::System,
    {
        ScannerCategory::System
    }

    /// Seconds that a scan is expected to take.
    pub fn estimated_secs(&self) -> (r: u64)
        ensures
            r == 1,
    {
        1
    }

    pub fn is_available(&self) -> (r: bool)
        ensures
            r,
    {
        true
    }

    fn finding(task: &MaintenanceTask) -> (r: ScanResult)
        ensures
            r@ == task_finding(task@),
    {
        ScanResult::new(
            concat("maint_", task.id.as_str()),
            task.name.clone(),
            task.command.clone(),
        ).with_size(0).with_file_count(1).with_category(ScannerCategory::System).with_safety(
            task.safety,
        ).with_meta("scanner_id", String::from_str("maintenance")).with_meta(
            "task_id",
            task.id.clone(),
        ).with_meta("command", task.command.clone()).with_meta(
            "description",
            task.description.clone(),
        ).with_meta("requires_sudo", flag_string(task.requires_sudo))
    }

    /// One finding for each task, no more than the scanners' limit. As no
    /// finding has a size, they keep the order of the tasks.
    pub fn scan(&self) -> (r: Vec<ScanResult>)
        ensures
            views(r@) == super::largest(
                self.offered().map_values(|t: MaintenanceTaskView| task_finding(t)),
                super::MAX_FINDINGS,
            ),
    {
        let mut items: Vec<ScanResult> = Vec::new();
        let mut i: usize = 0;
        while i < self.tasks.len()
            invariant
                i <= self.tasks@.len(),
                items@.len() == i,
                forall|k: int| 0 <= k < i ==> (#[trigger] items@[k])@ == task_finding(self.tasks@[k]@),
            decreases self.tasks.len() - i,
        {
            items.push(Self::finding(&self.tasks[i]));
            i += 1;
        }
        assert(views(items@) =~= self.offered().map_values(
            |t: MaintenanceTaskView| task_finding(t),
        ));
        super::keep_largest(items, super::MAX_FINDINGS)
    }
}

impl Default for MaintenanceScanner {
    fn default() -> Self {
        Self::new()
    }
}

} // verus!
