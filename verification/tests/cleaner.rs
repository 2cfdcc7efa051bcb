use cleanx::cleaner::{
    needs_escalation, plan_deletion, settle, Attempt, CleanStep, DefaultCleaner, DeletePlan,
    PathKind, Removal, StepOutcome,
};
use cleanx::plugin::{CleanConfig, CleanResult, SafetyLevel, ScanResult};

fn finding(path: &str, size: u64, level: SafetyLevel) -> ScanResult {
    ScanResult::new(path.to_string(), "item".to_string(), path.to_string())
        .with_size(size)
        .with_safety(level)
}

fn task(command: &str, level: SafetyLevel) -> ScanResult {
    ScanResult::new("maint_x".to_string(), "Task".to_string(), command.to_string())
        .with_safety(level)
        .with_meta("scanner_id", "maintenance".to_string())
        .with_meta("command", command.to_string())
}

fn dry() -> CleanConfig {
    CleanConfig { dry_run: true, log_history: true }
}

fn for_real() -> CleanConfig {
    CleanConfig { dry_run: false, log_history: true }
}

fn done(n: usize) -> Vec<StepOutcome> {
    (0..n).map(|_| StepOutcome::Done).collect()
}

#[test]
fn dry_run_counts_every_finding_and_frees_nothing() {
    let cleaner = DefaultCleaner::new();
    let items = vec![
        finding("/Users/u/Library/Caches/a", 100, SafetyLevel::Safe),
        finding("/Users/u/Library/Caches/b", 200, SafetyLevel::Caution),
        task("purge", SafetyLevel::Safe),
    ];
    // whatever the outcomes say
    let outcomes = vec![
        StepOutcome::Failed("ignored".to_string()),
        StepOutcome::Done,
        StepOutcome::Failed("ignored".to_string()),
    ];
    let result = cleaner.clean(&items, &dry(), outcomes);
    assert_eq!(result.success_count, 3);
    assert_eq!(result.failed_count, 0);
    assert_eq!(result.total_freed, 0);
    assert!(result.failed_items.is_empty());
    for item in &items {
        let step = cleaner.step_for(item, &dry());
        assert!(matches!(step, CleanStep::WouldDelete(_) | CleanStep::WouldRun(_)));
    }
}

#[test]
fn protected_finding_is_never_deleted() {
    let cleaner = DefaultCleaner::new();
    let item = finding("/Users/u/Documents/x", 10, SafetyLevel::Protected);
    assert!(!cleaner.can_clean(&item));
    assert!(matches!(cleaner.step_for(&item, &for_real()), CleanStep::Refuse));
    assert!(matches!(cleaner.step_for(&item, &dry()), CleanStep::Refuse));
    for config in [for_real(), dry()] {
        let result = cleaner.clean(&vec![item.clone()], &config, done(1));
        assert_eq!(result.success_count, 0);
        assert_eq!(result.failed_count, 1);
        assert_eq!(result.total_freed, 0);
        assert_eq!(
            result.failed_items,
            vec![("/Users/u/Documents/x".to_string(), "Not safe to delete".to_string())]
        );
    }
}

#[test]
fn path_that_turned_unsafe_is_refused() {
    let cleaner = DefaultCleaner::new();
    // the finding says safe, the policy says protected
    let item = finding("/System/Library/Caches/x", 10, SafetyLevel::Safe);
    assert!(!cleaner.can_clean(&item));
    assert!(matches!(cleaner.step_for(&item, &for_real()), CleanStep::Refuse));
    let keychain = finding("/Users/u/Library/Keychains/login.keychain", 1, SafetyLevel::Caution);
    assert!(matches!(cleaner.step_for(&keychain, &for_real()), CleanStep::Refuse));
}

#[test]
fn a_missing_path_counts_as_deleted() {
    assert!(matches!(plan_deletion(PathKind::Missing), DeletePlan::Finished(StepOutcome::Done)));
    assert!(matches!(plan_deletion(PathKind::Directory), DeletePlan::Remove(Removal::Tree)));
    assert!(matches!(plan_deletion(PathKind::File), DeletePlan::Remove(Removal::File)));
    let cleaner = DefaultCleaner::new();
    let item = finding("/Users/u/gone", 64, SafetyLevel::Safe);
    let outcome = match plan_deletion(PathKind::Missing) {
        DeletePlan::Finished(o) => o,
        DeletePlan::Remove(_) => panic!("nothing is there to remove"),
    };
    let result = cleaner.clean(&vec![item], &for_real(), vec![outcome]);
    assert_eq!(result.success_count, 1);
    assert_eq!(result.failed_count, 0);
    assert!(result.failed_items.is_empty());
}

#[test]
fn one_failure_does_not_stop_the_batch() {
    let cleaner = DefaultCleaner::new();
    let items = vec![
        finding("/Users/u/a", 100, SafetyLevel::Safe),
        finding("/Users/u/b", 200, SafetyLevel::Safe),
        task("false", SafetyLevel::Safe),
        task("purge", SafetyLevel::Caution),
        finding("/usr/lib/c", 400, SafetyLevel::Safe),
        finding("/Users/u/d", 800, SafetyLevel::Caution),
    ];
    let outcomes = vec![
        StepOutcome::Done,
        StepOutcome::Failed("Permission denied".to_string()),
        StepOutcome::Failed("Command failed: boom".to_string()),
        StepOutcome::Done,
        StepOutcome::Done,
        StepOutcome::Done,
    ];
    let result = cleaner.clean(&items, &for_real(), outcomes);
    assert_eq!(result.success_count, 3);
    assert_eq!(result.failed_count, 3);
    // bytes count for deleted paths only, not for tasks
    assert_eq!(result.total_freed, 900);
    assert_eq!(
        result.failed_items,
        vec![
            ("/Users/u/b".to_string(), "Permission denied".to_string()),
            ("false".to_string(), "Command failed: boom".to_string()),
            ("/usr/lib/c".to_string(), "Not safe to delete".to_string()),
        ]
    );
    assert_eq!(result.duration_ms, 0);
}

#[test]
fn steps_of_a_real_run() {
    let cleaner = DefaultCleaner::new();
    match cleaner.step_for(&finding("/Users/u/a", 1, SafetyLevel::Safe), &for_real()) {
        CleanStep::DeletePath(p) => assert_eq!(p, "/Users/u/a"),
        other => panic!("{:?}", other),
    }
    match cleaner.step_for(&task("qlmanage -r cache", SafetyLevel::Safe), &for_real()) {
        CleanStep::RunCommand(c) => assert_eq!(c, "qlmanage -r cache"),
        other => panic!("{:?}", other),
    }
    match cleaner.step_for(&task("qlmanage -r cache", SafetyLevel::Safe), &dry()) {
        CleanStep::WouldRun(c) => assert_eq!(c, "qlmanage -r cache"),
        other => panic!("{:?}", other),
    }
    match cleaner.step_for(&finding("/Users/u/a", 1, SafetyLevel::Caution), &dry()) {
        CleanStep::WouldDelete(p) => assert_eq!(p, "/Users/u/a"),
        other => panic!("{:?}", other),
    }
}

#[test]
fn a_command_of_another_scanner_is_no_task() {
    let cleaner = DefaultCleaner::new();
    let item = finding("/Users/u/a", 1, SafetyLevel::Safe)
        .with_meta("command", "rm -rf /".to_string())
        .with_meta("scanner_id", "system_caches".to_string());
    assert!(!cleaner.is_task(&item));
    assert!(matches!(cleaner.step_for(&item, &for_real()), CleanStep::DeletePath(_)));
    let no_source = finding("/Users/u/a", 1, SafetyLevel::Safe).with_meta("command", "x".to_string());
    assert!(!cleaner.is_task(&no_source));
    let no_command =
        finding("/Users/u/a", 1, SafetyLevel::Safe).with_meta("scanner_id", "maintenance".to_string());
    assert!(!cleaner.is_task(&no_command));
    assert!(cleaner.is_task(&task("purge", SafetyLevel::Protected)));
}

#[test]
fn history_is_logged_for_real_deletions_only() {
    let cleaner = DefaultCleaner::new();
    let item = finding("/Users/u/a", 1, SafetyLevel::Safe);
    let failed = StepOutcome::Failed("no".to_string());
    assert!(cleaner.logs_history(&item, &for_real(), &StepOutcome::Done));
    assert!(!cleaner.logs_history(&item, &for_real(), &failed));
    assert!(!cleaner.logs_history(&item, &dry(), &StepOutcome::Done));
    let quiet = CleanConfig { dry_run: false, log_history: false };
    assert!(!cleaner.logs_history(&item, &quiet, &StepOutcome::Done));
    assert!(!cleaner.logs_history(&task("purge", SafetyLevel::Safe), &for_real(), &StepOutcome::Done));
    let refused = finding("/etc/hosts", 1, SafetyLevel::Safe);
    assert!(!cleaner.logs_history(&refused, &for_real(), &StepOutcome::Done));
}

#[test]
fn escalation_only_after_a_denial() {
    assert!(needs_escalation(&Attempt::Denied("denied".to_string())));
    assert!(!needs_escalation(&Attempt::Removed));
    assert!(!needs_escalation(&Attempt::Failed("busy".to_string())));
    assert!(matches!(settle(Attempt::Removed, None), StepOutcome::Done));
    assert!(matches!(settle(Attempt::Failed("busy".to_string()), None), StepOutcome::Failed(e) if e == "busy"));
    assert!(matches!(
        settle(Attempt::Denied("denied".to_string()), Some(Attempt::Removed)),
        StepOutcome::Done
    ));
    assert!(matches!(
        settle(Attempt::Denied("denied".to_string()), Some(Attempt::Failed("admin said no".to_string()))),
        StepOutcome::Failed(e) if e == "admin said no"
    ));
    assert!(matches!(
        settle(Attempt::Denied("denied".to_string()), Some(Attempt::Denied("again".to_string()))),
        StepOutcome::Failed(e) if e == "again"
    ));
    assert!(matches!(
        settle(Attempt::Denied("denied".to_string()), None),
        StepOutcome::Failed(e) if e == "denied"
    ));
}

#[test]
fn record_books_one_finding() {
    let cleaner = DefaultCleaner::new();
    let mut result = CleanResult::new();
    let item = finding("/Users/u/a", 5, SafetyLevel::Safe);
    cleaner.record(&mut result, &item, &for_real(), StepOutcome::Done);
    assert_eq!((result.success_count, result.failed_count, result.total_freed), (1, 0, 5));
    cleaner.record(&mut result, &item, &for_real(), StepOutcome::Failed("e".to_string()));
    assert_eq!((result.success_count, result.failed_count, result.total_freed), (1, 1, 5));
    result.total_freed = u64::MAX - 2;
    cleaner.record(&mut result, &item, &for_real(), StepOutcome::Done);
    assert_eq!(result.total_freed, u64::MAX);
}

#[test]
fn a_finding_without_an_outcome_is_booked_as_a_failure() {
    let cleaner = DefaultCleaner::new();
    let items = vec![
        finding("/Users/u/a", 5, SafetyLevel::Safe),
        finding("/Users/u/p", 6, SafetyLevel::Protected),
        finding("/Users/u/b", 7, SafetyLevel::Safe),
    ];
    // one outcome for three findings
    let result = cleaner.clean(&items, &for_real(), vec![StepOutcome::Done]);
    assert_eq!((result.success_count, result.failed_count, result.total_freed), (1, 2, 5));
    assert_eq!(
        result.failed_items,
        vec![
            ("/Users/u/p".to_string(), "Not safe to delete".to_string()),
            ("/Users/u/b".to_string(), "No outcome".to_string()),
        ]
    );
    // none at all: the protected finding is still refused, the others fail
    let result = cleaner.clean(&items, &for_real(), Vec::new());
    assert_eq!((result.success_count, result.failed_count, result.total_freed), (0, 3, 0));
    assert_eq!(result.failed_items[1].1, "Not safe to delete");
    // in a dry run no outcome is needed
    let result = cleaner.clean(&items, &dry(), Vec::new());
    assert_eq!((result.success_count, result.failed_count, result.total_freed), (2, 1, 0));
    // outcomes beyond the findings do not count
    let result = cleaner.clean(&items[..1].to_vec(), &for_real(), vec![StepOutcome::Done, StepOutcome::Done]);
    assert_eq!((result.success_count, result.failed_count), (1, 0));
    let empty = cleaner.clean(&Vec::new(), &for_real(), Vec::new());
    assert_eq!((empty.success_count, empty.failed_count), (0, 0));
}

#[test]
fn clean_settings_by_default() {
    let c = CleanConfig::default();
    assert!(c.dry_run);
    assert!(c.log_history);
    let r = CleanResult::default();
    assert_eq!((r.success_count, r.failed_count, r.total_freed, r.duration_ms), (0, 0, 0, 0));
    assert!(r.failed_items.is_empty());
}
