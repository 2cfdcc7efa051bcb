//! The execution of a clean-up: which findings may be deleted, which are
//! commands to run, what is only announced in a dry run, and how the outcomes
//! of the single steps add up to the result of the batch.
//!
//! The library decides; whoever drives it deletes, runs and records. For each
//! finding [`DefaultCleaner::step_for`] names the step to take, and
//! [`DefaultCleaner::record`] books what came of it.

use crate::plugin::registry::{add_clamped, add_clamped_usize, clamp_u64, clamp_usize};
use crate::plugin::{CleanConfig, CleanResult, SafetyLevel, ScanResult, ScanResultView};
use crate::safety::{classify, SafetyChecker};
use crate::text::str_eq;
use vstd::prelude::*;

verus! {

/// The finding is a maintenance task: its metadata carries a command, and
/// names the maintenance scanner as its source.
pub open spec fn is_task(item: ScanResultView) -> bool {
    &&& item.metadata.dom().contains("command"@)
    &&& item.metadata.dom().contains("scanner_id"@)
    &&& item.metadata["scanner_id"@] == "maintenance"@
}

/// The finding may be deleted: its own level allows it, and so does the
/// safety policy for its path as it is now.
pub open spec fn may_delete(item: ScanResultView) -> bool {
    item.safety_level.allows_delete() && classify(item.path).allows_delete()
}

/// What is to be done with one finding.
#[derive(Debug)]
pub enum CleanStep {
    /// Nothing: the finding is not safe to delete.
    Refuse,
    /// Dry run: say that the command would be run.
    WouldRun(String),
    /// Dry run: say that the path would be deleted.
    WouldDelete(String),
    /// Run the command.
    RunCommand(String),
    /// Delete the path.
    DeletePath(String),
}

/// A step, with its text as a character sequence.
pub enum CleanStepView {
    Refuse,
    WouldRun(Seq<char>),
    WouldDelete(Seq<char>),
    RunCommand(Seq<char>),
    DeletePath(Seq<char>),
}

impl View for CleanStep {
    type V = CleanStepView;

    open spec fn view(&self) -> CleanStepView {
        match self {
            CleanStep::Refuse => CleanStepView::Refuse,
            CleanStep::WouldRun(c) => CleanStepView::WouldRun(c@),
            CleanStep::WouldDelete(p) => CleanStepView::WouldDelete(p@),
            CleanStep::RunCommand(c) => CleanStepView::RunCommand(c@),
            CleanStep::DeletePath(p) => CleanStepView::DeletePath(p@),
        }
    }
}

impl CleanStepView {
    /// The step changes something outside the program.
    pub open spec fn mutates(self) -> bool {
        self is RunCommand || self is DeletePath
    }
}

/// The step for `item`: a task is run, anything else is deleted if that is
/// safe and refused if not; in a dry run the step is only announced.
pub open spec fn step_of(item: ScanResultView, dry_run: bool) -> CleanStepView {
    if is_task(item) {
        if dry_run {
            CleanStepView::WouldRun(item.metadata["command"@])
        } else {
            CleanStepView::RunCommand(item.metadata["command"@])
        }
    } else if !may_delete(item) {
        CleanStepView::Refuse
    } else if dry_run {
        CleanStepView::WouldDelete(item.path)
    } else {
        CleanStepView::DeletePath(item.path)
    }
}

/// How the outside work of one step ended.
#[derive(Debug)]
pub enum StepOutcome {
    Done,
    /// The work failed, with the error's text.
    Failed(String),
}

/// An outcome, with its text as a character sequence.
pub enum StepOutcomeView {
    Done,
    Failed(Seq<char>),
}

impl View for StepOutcome {
    type V = StepOutcomeView;

    open spec fn view(&self) -> StepOutcomeView {
        match self {
            StepOutcome::Done => StepOutcomeView::Done,
            StepOutcome::Failed(e) => StepOutcomeView::Failed(e@),
        }
    }
}

/// The result of a clean-up, with its texts as character sequences.
pub struct CleanResultView {
    pub success_count: nat,
    pub failed_count: nat,
    pub total_freed: nat,
    pub failed_items: Seq<(Seq<char>, Seq<char>)>,
}

/// The error recorded for a finding that is not safe to delete.
pub open spec fn refusal() -> Seq<char> {
    "Not safe to delete"@
}

/// `so_far` after one more finding: a refused finding and a step that failed
/// count as failures, with the finding's path and the error; everything else
/// is a success. Bytes count as freed only where a path was in fact deleted.
pub open spec fn booked(
    so_far: CleanResultView,
    item: ScanResultView,
    dry_run: bool,
    outcome: StepOutcomeView,
) -> CleanResultView {
    match step_of(item, dry_run) {
        CleanStepView::Refuse => CleanResultView {
            failed_count: so_far.failed_count + 1,
            failed_items: so_far.failed_items.push((item.path, refusal())),
            ..so_far
        },
        CleanStepView::WouldRun(_) | CleanStepView::WouldDelete(_) => CleanResultView {
            success_count: so_far.success_count + 1,
            ..so_far
        },
        CleanStepView::RunCommand(_) => match outcome {
            StepOutcomeView::Done => CleanResultView {
                success_count: so_far.success_count + 1,
                ..so_far
            },
            StepOutcomeView::Failed(e) => CleanResultView {
                failed_count: so_far.failed_count + 1,
                failed_items: so_far.failed_items.push((item.path, e)),
                ..so_far
            },
        },
        CleanStepView::DeletePath(_) => match outcome {
            StepOutcomeView::Done => CleanResultView {
                success_count: so_far.success_count + 1,
                total_freed: so_far.total_freed + item.size as nat,
                ..so_far
            },
            StepOutcomeView::Failed(e) => CleanResultView {
                failed_count: so_far.failed_count + 1,
                failed_items: so_far.failed_items.push((item.path, e)),
                ..so_far
            },
        },
    }
}

/// The error recorded for a step that had to be taken and of which nothing
/// is known.
pub open spec fn no_outcome() -> Seq<char> {
    "No outcome"@
}

/// How the step for the `i`-th finding ended. A step of which `outcomes`
/// says nothing counts as failed.
pub open spec fn outcome_at(outcomes: Seq<StepOutcomeView>, i: int) -> StepOutcomeView {
    if 0 <= i < outcomes.len() {
        outcomes[i]
    } else {
        StepOutcomeView::Failed(no_outcome())
    }
}

/// The result of cleaning `items` in order, where `outcomes[i]` is how the
/// step for `items[i]` ended. Every finding is booked: one whose step had to
/// be taken and has no outcome is booked as a failure.
pub open spec fn cleaned(
    items: Seq<ScanResultView>,
    dry_run: bool,
    outcomes: Seq<StepOutcomeView>,
) -> CleanResultView
    decreases items.len(),
{
    if items.len() == 0 {
        CleanResultView { success_count: 0, failed_count: 0, total_freed: 0, failed_items: seq![] }
    } else {
        booked(
            cleaned(items.drop_last(), dry_run, outcomes),
            items.last(),
            dry_run,
            outcome_at(outcomes, items.len() - 1),
        )
    }
}

/// The pairs of texts that a vector of pairs of strings holds.
pub open spec fn failures(v: Seq<(String, String)>) -> Seq<(Seq<char>, Seq<char>)> {
    v.map_values(|p: (String, String)| (p.0@, p.1@))
}

/// `result` says what `view` says, each number stopping at the largest that
/// the machine can hold.
pub open spec fn matches_result(result: CleanResult, view: CleanResultView) -> bool {
    &&& result.success_count == clamp_usize(view.success_count)
    &&& result.failed_count == clamp_usize(view.failed_count)
    &&& result.total_freed == clamp_u64(view.total_freed)
    &&& failures(result.failed_items@) == view.failed_items
}

/// What becomes of a path when it is deleted.
#[derive(Debug, Clone, Copy, PartialEq, Eq, Structural)]
pub enum PathKind {
    Directory,
    File,
    Missing,
}

/// The removal that deletes a path that is there.
#[derive(Debug, Clone, Copy, PartialEq, Eq, Structural)]
pub enum Removal {
    /// Remove the directory with all that is in it.
    Tree,
    /// Remove the single file.
    File,
}

/// How the deletion of a path goes on once it is known what is there.
#[derive(Debug)]
pub enum DeletePlan {
    /// Make the removal, then settle its attempts.
    Remove(Removal),
    /// Nothing is left to do; the deletion has ended this way.
    Finished(StepOutcome),
}

/// How one attempt to remove a path ended.
#[derive(Debug)]
pub enum Attempt {
    Removed,
    /// The system denied permission, with the error's text.
    Denied(String),
    /// Any other error, with its text.
    Failed(String),
}

/// An attempt, with its text as a character sequence.
pub enum AttemptView {
    Removed,
    Denied(Seq<char>),
    Failed(Seq<char>),
}

impl View for Attempt {
    type V = AttemptView;

    open spec fn view(&self) -> AttemptView {
        match self {
            Attempt::Removed => AttemptView::Removed,
            Attempt::Denied(e) => AttemptView::Denied(e@),
            Attempt::Failed(e) => AttemptView::Failed(e@),
        }
    }
}

/// How to delete a path of the given kind: a directory goes with all that
/// is in it, a file alone, and a path that is no longer there counts as
/// deleted without anything being done.
pub fn plan_deletion(kind: PathKind) -> (plan: DeletePlan)
    ensures
        match kind {
            PathKind::Directory => plan == DeletePlan::Remove(Removal::Tree),
            PathKind::File => plan == DeletePlan::Remove(Removal::File),
            PathKind::Missing => plan == DeletePlan::Finished(StepOutcome::Done),
        },
{
    match kind {
        PathKind::Directory => DeletePlan::Remove(Removal::Tree),
        PathKind::File => DeletePlan::Remove(Removal::File),
        PathKind::Missing => DeletePlan::Finished(StepOutcome::Done),
    }
}

/// Whether a removal that ended as `first` is to be tried once more with
/// raised privileges: only after a denial.
pub fn needs_escalation(first: &Attempt) -> (r: bool)
    ensures
        r == (first@ is Denied),
{
    match first {
        Attempt::Denied(_) => true,
        _ => false,
    }
}

/// The outcome of a deletion after its first attempt and, where that was
/// denied, the one retry with raised privileges.
pub open spec fn settled(first: AttemptView, retry: Option<AttemptView>) -> StepOutcomeView {
    match first {
        AttemptView::Removed => StepOutcomeView::Done,
        AttemptView::Failed(e) => StepOutcomeView::Failed(e),
        AttemptView::Denied(e) => match retry {
            None => StepOutcomeView::Failed(e),
            Some(AttemptView::Removed) => StepOutcomeView::Done,
            Some(AttemptView::Denied(e2)) => StepOutcomeView::Failed(e2),
            Some(AttemptView::Failed(e2)) => StepOutcomeView::Failed(e2),
        },
    }
}

/// The outcome of a deletion after its first attempt and the retry, if one
/// was made.
pub fn settle(first: Attempt, retry: Option<Attempt>) -> (r: StepOutcome)
    ensures
        r@ == settled(
            first@,
            match retry {
                Some(a) => Some(a@),
                None => None,
            },
        ),
{
    match first {
        Attempt::Removed => StepOutcome::Done,
        Attempt::Failed(e) => StepOutcome::Failed(e),
        Attempt::Denied(e) => match retry {
            None => StepOutcome::Failed(e),
            Some(Attempt::Removed) => StepOutcome::Done,
            Some(Attempt::Denied(e2)) => StepOutcome::Failed(e2),
            Some(Attempt::Failed(e2)) => StepOutcome::Failed(e2),
        },
    }
}

/// Decides, finding by finding, what a clean-up does.
pub struct DefaultCleaner {
    safety_checker: SafetyChecker,
}

impl DefaultCleaner {
    pub fn new() -> (r: Self)
        ensures
            r.checker().protected_dirs() == crate::safety::protected_prefixes(),
            r.checker().patterns() == crate::safety::critical_patterns(),
    {
        DefaultCleaner { safety_checker: SafetyChecker::new() }
    }

    /// The checker by which the cleaner looks at a path once more before it
    /// deletes it.
    pub closed spec fn checker(&self) -> SafetyChecker {
        self.safety_checker
    }

    /// Whether `item` is a maintenance task.
    pub fn is_task(&self, item: &ScanResult) -> (r: bool)
        ensures
            r == is_task(item@),
    {
        if !item.metadata.contains_key("command") {
            return false;
        }
        match item.metadata.get_text("scanner_id") {
            Some(id) => str_eq(id.as_str(), "maintenance"),
            None => false,
        }
    }

    /// Whether `item` may be deleted.
    pub fn can_clean(&self, item: &ScanResult) -> (r: bool)
        ensures
            r == may_delete(item@),
    {
        item.safety_level.is_deletable() && self.safety_checker.is_safe_to_delete(
            item.path.as_str(),
        )
    }

    /// The step to take for `item`.
    pub fn step_for(&self, item: &ScanResult, config: &CleanConfig) -> (step: CleanStep)
        ensures
            step@ == step_of(item@, config.dry_run),
    {
        if self.is_task(item) {
            let command = match item.metadata.get_text("command") {
                Some(c) => c.clone(),
                None => String::new(),
            };
            if config.dry_run {
                CleanStep::WouldRun(command)
            } else {
                CleanStep::RunCommand(command)
            }
        } else if !self.can_clean(item) {
            CleanStep::Refuse
        } else if config.dry_run {
            CleanStep::WouldDelete(item.path.clone())
        } else {
            CleanStep::DeletePath(item.path.clone())
        }
    }

    /// Whether the deletion of `item` is to be written to the history log:
    /// the path was in fact deleted, and the settings ask for the log.
    pub fn logs_history(
        &self,
        item: &ScanResult,
        config: &CleanConfig,
        outcome: &StepOutcome,
    ) -> (r: bool)
        ensures
            r == (config.log_history && step_of(item@, config.dry_run) is DeletePath && outcome@
                is Done),
    {
        if !config.log_history || config.dry_run || self.is_task(item) || !self.can_clean(item) {
            return false;
        }
        match outcome {
            StepOutcome::Done => true,
            StepOutcome::Failed(_) => false,
        }
    }

    /// Books in `result` how the step for `item` ended. Where the step was
    /// refused or only announced, `outcome` does not matter.
    pub fn record(
        &self,
        result: &mut CleanResult,
        item: &ScanResult,
        config: &CleanConfig,
        outcome: StepOutcome,
    )
        ensures
            forall|before: CleanResultView|
                matches_result(*old(result), before) ==> matches_result(
                    *final(result),
                    booked(before, item@, config.dry_run, outcome@),
                ),
            final(result).duration_ms == old(result).duration_ms,
    {
        let ghost prior = *result;
        let step = self.step_for(item, config);
        let failure: Option<String> = match step {
            CleanStep::Refuse => Some(String::from_str("Not safe to delete")),
            CleanStep::WouldRun(_) => None,
            CleanStep::WouldDelete(_) => None,
            CleanStep::RunCommand(_) => match outcome {
                StepOutcome::Done => None,
                StepOutcome::Failed(e) => Some(e),
            },
            CleanStep::DeletePath(_) => match outcome {
                StepOutcome::Done => {
                    result.total_freed = add_clamped(result.total_freed, item.size);
                    None
                },
                StepOutcome::Failed(e) => Some(e),
            },
        };
        match failure {
            Some(error) => {
                result.failed_items.push((item.path.clone(), error));
                result.failed_count = add_clamped_usize(result.failed_count, 1);
                assert(failures(result.failed_items@) =~= failures(prior.failed_items@).push(
                    (item.path@, error@),
                ));
            },
            None => {
                result.success_count = add_clamped_usize(result.success_count, 1);
            },
        }
    }

    /// The result of cleaning `items` in order, where `outcomes[i]` is how
    /// the step for `items[i]` ended. A finding whose step had to be taken
    /// and has no outcome is booked as a failure.
    pub fn clean(
        &self,
        items: &Vec<ScanResult>,
        config: &CleanConfig,
        outcomes: Vec<StepOutcome>,
    ) -> (result: CleanResult)
        ensures
            matches_result(
                result,
                cleaned(
                    crate::sorting::views(items@),
                    config.dry_run,
                    outcomes@.map_values(|o: StepOutcome| o@),
                ),
            ),
            result.duration_ms == 0,
    {
        let ghost views = crate::sorting::views(items@);
        let ghost outs = outcomes@.map_values(|o: StepOutcome| o@);
        let known = outcomes.len();
        let mut rest = crate::plugin::registry::reversed(outcomes);
        let mut result = CleanResult::new();
        let mut i: usize = 0;
        assert(views.take(0) =~= Seq::<ScanResultView>::empty());
        assert(failures(result.failed_items@) =~= Seq::<(Seq<char>, Seq<char>)>::empty());
        while i < items.len()
            invariant
                i <= items@.len(),
                known == outs.len(),
                rest@.len() == if i < known {
                    known - i
                } else {
                    0
                },
                views == crate::sorting::views(items@),
                forall|j: int|
                    0 <= j < rest@.len() ==> (#[trigger] rest@[j])@ == outs[outs.len() - 1 - j],
                matches_result(result, cleaned(views.take(i as int), config.dry_run, outs)),
                result.duration_ms == 0,
            decreases items.len() - i,
        {
            let outcome = if rest.len() > 0 {
                rest.pop().unwrap()
            } else {
                StepOutcome::Failed(String::from_str("No outcome"))
            };
            assert(outcome@ == outcome_at(outs, i as int));
            proof {
                assert(views.take(i + 1).drop_last() == views.take(i as int));
                assert(views.take(i + 1).last() == items@[i as int]@);
            }
            self.record(&mut result, &items[i], config, outcome);
            i += 1;
        }
        assert(views.take(items@.len() as int) == views);
        result
    }
}

/// In a dry run no step changes anything outside the program.
pub proof fn lemma_dry_run_changes_nothing(item: ScanResultView)
    ensures
        !step_of(item, true).mutates(),
{
}

/// A dry run over findings of which each is a task or may be deleted counts
/// every finding as a success, frees no byte and records no failure,
/// whatever outcomes it is handed.
pub proof fn lemma_dry_run_counts(items: Seq<ScanResultView>, outcomes: Seq<StepOutcomeView>)
    requires
        forall|i: int| 0 <= i < items.len() ==> is_task(items[i]) || may_delete(items[i]),
    ensures
        cleaned(items, true, outcomes).success_count == items.len(),
        cleaned(items, true, outcomes).failed_count == 0,
        cleaned(items, true, outcomes).total_freed == 0,
        cleaned(items, true, outcomes).failed_items.len() == 0,
    decreases items.len(),
{
    if items.len() > 0 {
        lemma_dry_run_counts(items.drop_last(), outcomes);
        assert(is_task(items[items.len() - 1]) || may_delete(items[items.len() - 1]));
    }
}

/// The steps that a clean-up of `items` asks for, one for each finding.
pub open spec fn steps_of(items: Seq<ScanResultView>, dry_run: bool) -> Seq<CleanStepView> {
    items.map_values(|item: ScanResultView| step_of(item, dry_run))
}

/// A dry run asks for no step that changes anything, whatever the findings
/// are, tasks with a command among them: no path is deleted and no command
/// is run; each finding is refused or only announced.
pub proof fn lemma_dry_run_asks_for_no_change(items: Seq<ScanResultView>)
    ensures
        forall|k: int|
            0 <= k < items.len() ==> {
                &&& !(#[trigger] steps_of(items, true)[k]).mutates()
                &&& !(steps_of(items, true)[k] is DeletePath)
                &&& !(steps_of(items, true)[k] is RunCommand)
            },
{
}

/// Bytes of the findings among `items` that are refused.
pub open spec fn refused_size(items: Seq<ScanResultView>) -> nat
    decreases items.len(),
{
    if items.len() == 0 {
        0
    } else {
        refused_size(items.drop_last()) + if is_refused(items.last()) {
            items.last().size as nat
        } else {
            0nat
        }
    }
}

/// The bytes of a refused finding are never among the bytes freed: what a
/// clean-up frees is at most what the findings that are not refused hold.
/// And no step for a refused finding deletes its path or runs a command.
pub proof fn lemma_refused_sizes_are_not_freed(
    items: Seq<ScanResultView>,
    dry_run: bool,
    outcomes: Seq<StepOutcomeView>,
)
    ensures
        cleaned(items, dry_run, outcomes).total_freed + refused_size(items)
            <= crate::plugin::registry::sum_sizes(items),
        forall|k: int|
            0 <= k < items.len() && is_refused(items[k]) ==> (#[trigger] steps_of(
                items,
                dry_run,
            )[k]) is Refuse,
    decreases items.len(),
{
    if items.len() > 0 {
        lemma_refused_sizes_are_not_freed(items.drop_last(), dry_run, outcomes);
    }
}

/// A dry run frees no byte, whatever the findings are.
pub proof fn lemma_dry_run_frees_nothing(items: Seq<ScanResultView>, outcomes: Seq<StepOutcomeView>)
    ensures
        cleaned(items, true, outcomes).total_freed == 0,
    decreases items.len(),
{
    if items.len() > 0 {
        lemma_dry_run_frees_nothing(items.drop_last(), outcomes);
    }
}

/// The finding is refused: it is no task, and its level or the safety
/// policy for its path forbids its deletion.
pub open spec fn is_refused(item: ScanResultView) -> bool {
    !is_task(item) && !may_delete(item)
}

/// Number of findings among `items` that are refused.
pub open spec fn refused_count(items: Seq<ScanResultView>) -> nat
    decreases items.len(),
{
    if items.len() == 0 {
        0
    } else {
        refused_count(items.drop_last()) + if is_refused(items.last()) {
            1nat
        } else {
            0nat
        }
    }
}

/// In every clean-up, a dry run or not and whatever outcomes it is handed,
/// each refused finding appears as a failure and never as a success: it is
/// listed among the failures with its path and the reason, the failures
/// number at least the refused findings, and the successes at most the
/// others. A protected finding that is no task is refused.
pub proof fn lemma_refused_findings_fail(
    items: Seq<ScanResultView>,
    dry_run: bool,
    outcomes: Seq<StepOutcomeView>,
    k: int,
)
    requires
        0 <= k < items.len(),
        is_refused(items[k]),
    ensures
        cleaned(items, dry_run, outcomes).failed_items.contains((items[k].path, refusal())),
        cleaned(items, dry_run, outcomes).failed_count >= refused_count(items),
        cleaned(items, dry_run, outcomes).success_count + refused_count(items) <= items.len(),
        items[k].safety_level == SafetyLevel::Protected && !is_task(items[k]) ==> is_refused(
            items[k],
        ),
    decreases items.len(),
{
    lemma_refused_are_counted(items, dry_run, outcomes);
    let head = items.drop_last();
    let before = cleaned(head, dry_run, outcomes);
    let after = cleaned(items, dry_run, outcomes);
    if k == items.len() - 1 {
        assert(after.failed_items == before.failed_items.push((items[k].path, refusal())));
        assert(after.failed_items[before.failed_items.len() as int] == (
            items[k].path,
            refusal(),
        ));
    } else {
        lemma_refused_findings_fail(head, dry_run, outcomes, k);
        assert(head[k] == items[k]);
        let j = choose|j: int|
            0 <= j < before.failed_items.len() && before.failed_items[j] == (
                items[k].path,
                refusal(),
            );
        lemma_failures_only_grow(items, dry_run, outcomes);
        assert(after.failed_items[j] == before.failed_items[j]);
    }
}

/// The failures number at least the refused findings, and successes and
/// failures together are the findings.
pub proof fn lemma_refused_are_counted(
    items: Seq<ScanResultView>,
    dry_run: bool,
    outcomes: Seq<StepOutcomeView>,
)
    ensures
        cleaned(items, dry_run, outcomes).failed_count >= refused_count(items),
        cleaned(items, dry_run, outcomes).success_count + cleaned(
            items,
            dry_run,
            outcomes,
        ).failed_count == items.len(),
    decreases items.len(),
{
    if items.len() > 0 {
        lemma_refused_are_counted(items.drop_last(), dry_run, outcomes);
    }
}

/// One more finding leaves the failures listed so far as they are.
proof fn lemma_failures_only_grow(
    items: Seq<ScanResultView>,
    dry_run: bool,
    outcomes: Seq<StepOutcomeView>,
)
    requires
        items.len() > 0,
    ensures
        cleaned(items.drop_last(), dry_run, outcomes).failed_items.len() <= cleaned(
            items,
            dry_run,
            outcomes,
        ).failed_items.len(),
        forall|j: int|
            0 <= j < cleaned(items.drop_last(), dry_run, outcomes).failed_items.len() ==> cleaned(
                items,
                dry_run,
                outcomes,
            ).failed_items[j] == cleaned(items.drop_last(), dry_run, outcomes).failed_items[j],
{
}

/// No step deletes a protected finding or announces its deletion, in a dry
/// run or not, and none deletes a finding whose path the safety policy
/// protects by now.
pub proof fn lemma_protected_is_never_deleted(item: ScanResultView, dry_run: bool)
    requires
        item.safety_level == SafetyLevel::Protected || classify(item.path)
            == SafetyLevel::Protected,
    ensures
        !(step_of(item, dry_run) is DeletePath),
        !(step_of(item, dry_run) is WouldDelete),
{
}

/// A protected finding that is no task is refused, in a dry run or not: no
/// step deletes it, and it is booked as a failure, never as a success.
pub proof fn lemma_protected_is_refused(
    so_far: CleanResultView,
    item: ScanResultView,
    dry_run: bool,
    outcome: StepOutcomeView,
)
    requires
        item.safety_level == SafetyLevel::Protected,
        !is_task(item),
    ensures
        step_of(item, dry_run) is Refuse,
        booked(so_far, item, dry_run, outcome).success_count == so_far.success_count,
        booked(so_far, item, dry_run, outcome).total_freed == so_far.total_freed,
        booked(so_far, item, dry_run, outcome).failed_count == so_far.failed_count + 1,
        booked(so_far, item, dry_run, outcome).failed_items == so_far.failed_items.push(
            (item.path, refusal()),
        ),
{
}

/// Every finding of a clean-up is booked once, as a success or as a failure,
/// and each failure is listed.
pub proof fn lemma_every_item_is_booked(
    items: Seq<ScanResultView>,
    dry_run: bool,
    outcomes: Seq<StepOutcomeView>,
)
    ensures
        cleaned(items, dry_run, outcomes).success_count + cleaned(
            items,
            dry_run,
            outcomes,
        ).failed_count == items.len(),
        cleaned(items, dry_run, outcomes).failed_items.len() == cleaned(
            items,
            dry_run,
            outcomes,
        ).failed_count,
    decreases items.len(),
{
    if items.len() > 0 {
        lemma_every_item_is_booked(items.drop_last(), dry_run, outcomes);
    }
}

/// A finding whose path is gone by the time it is deleted is booked as a
/// success: the plan for a missing path is finished at once, as done, and a
/// deletion that is done counts as a success.
pub proof fn lemma_missing_path_is_success(so_far: CleanResultView, item: ScanResultView)
    requires
        step_of(item, false) is DeletePath,
    ensures
        booked(so_far, item, false, StepOutcomeView::Done).success_count == so_far.success_count
            + 1,
        booked(so_far, item, false, StepOutcomeView::Done).failed_count == so_far.failed_count,
        booked(so_far, item, false, StepOutcomeView::Done).failed_items == so_far.failed_items,
{
}

/// Something that carries out clean-ups: it says which findings it cleans,
/// and what a clean-up of given findings results in.
pub trait Cleaner {
    /// The cleaner cleans `item`.
    spec fn accepts(&self, item: ScanResultView) -> bool;

    /// The result of cleaning `items` in order, where `outcomes[i]` is how
    /// the outside work for `items[i]` ended.
    spec fn result_of(
        &self,
        items: Seq<ScanResultView>,
        dry_run: bool,
        outcomes: Seq<StepOutcomeView>,
    ) -> CleanResultView;

    /// Whether the cleaner cleans `item`.
    fn can_clean(&self, item: &ScanResult) -> (r: bool)
        ensures
            r == self.accepts(item@),
    ;

    /// Cleans `items` in order.
    fn clean(&self, items: &Vec<ScanResult>, config: &CleanConfig, outcomes: Vec<StepOutcome>) -> (r:
        CleanResult)
        ensures
            matches_result(
                r,
                self.result_of(
                    crate::sorting::views(items@),
                    config.dry_run,
                    outcomes@.map_values(|o: StepOutcome| o@),
                ),
            ),
    ;
}

impl Cleaner for DefaultCleaner {
    open spec fn accepts(&self, item: ScanResultView) -> bool {
        may_delete(item)
    }

    open spec fn result_of(
        &self,
        items: Seq<ScanResultView>,
        dry_run: bool,
        outcomes: Seq<StepOutcomeView>,
    ) -> CleanResultView {
        cleaned(items, dry_run, outcomes)
    }

    fn can_clean(&self, item: &ScanResult) -> (r: bool) {
        DefaultCleaner::can_clean(self, item)
    }

    fn clean(&self, items: &Vec<ScanResult>, config: &CleanConfig, outcomes: Vec<StepOutcome>) -> (r:
        CleanResult) {
        DefaultCleaner::clean(self, items, config, outcomes)
    }
}

impl Default for DefaultCleaner {
    fn default() -> Self {
        Self::new()
    }
}

} // verus!
