//! What becomes of loops that were running when the daemon went down.
//!
//! A loop whose worktree still exists goes back to waiting, and what lies in the
//! worktree is committed. A loop whose worktree is lost has failed.

use crate::numbers::{decimal, show};
use crate::records::{Loop, LoopView};
use crate::status::LoopStatus;
use crate::table::{
    distinct, filter_holds_those, holds_those, put, row_is_found, Keyed, Record,
};
use crate::text::{copy, lists, opt_text, texts};
use vstd::prelude::*;
use vstd::string::*;

verus! {

/// The outcome of recovering one loop.
#[derive(Debug, Clone, PartialEq, Eq)]
pub enum RecoveryAction {
    /// The worktree existed; the loop waits to go on.
    Resumed { loop_id: String },
    /// The worktree was lost; the loop has failed.
    MarkedFailed { loop_id: String },
    /// The loop was not running.
    Skipped { loop_id: String },
}

#[verifier::ext_equal]
pub enum RecoveryActionView {
    Resumed { loop_id: Seq<char> },
    MarkedFailed { loop_id: Seq<char> },
    Skipped { loop_id: Seq<char> },
}

impl View for RecoveryAction {
    type V = RecoveryActionView;

    open spec fn view(&self) -> RecoveryActionView {
        match self {
            RecoveryAction::Resumed { loop_id } => RecoveryActionView::Resumed {
                loop_id: loop_id@,
            },
            RecoveryAction::MarkedFailed { loop_id } => RecoveryActionView::MarkedFailed {
                loop_id: loop_id@,
            },
            RecoveryAction::Skipped { loop_id } => RecoveryActionView::Skipped {
                loop_id: loop_id@,
            },
        }
    }
}

/// How to recover.
#[derive(Debug, Clone)]
pub struct RecoveryConfig {
    /// The message of the commit.
    pub commit_message: String,
    /// Whether to commit what lies in the worktree.
    pub auto_commit: bool,
}

impl Default for RecoveryConfig {
    fn default() -> (r: Self)
        ensures
            r.commit_message@ == "WIP: recovery"@,
            r.auto_commit,
    {
        RecoveryConfig { commit_message: copy("WIP: recovery"), auto_commit: true }
    }
}

/// What is to be done for one loop: the commit to make in its worktree, if any,
/// and the record to write, if it changes. A commit that fails does not matter.
#[derive(Debug, Clone)]
pub struct RecoveryStep {
    pub action: RecoveryAction,
    pub commit: Option<String>,
    pub updated: Option<Loop>,
}

#[verifier::ext_equal]
pub struct RecoveryStepView {
    pub action: RecoveryActionView,
    pub commit: Option<Seq<char>>,
    pub updated: Option<LoopView>,
}

impl View for RecoveryStep {
    type V = RecoveryStepView;

    open spec fn view(&self) -> RecoveryStepView {
        RecoveryStepView {
            action: self.action@,
            commit: opt_text(self.commit),
            updated: match self.updated {
                Some(l) => Some(l@),
                None => None,
            },
        }
    }
}

/// The loop once it waits to go on.
pub open spec fn resumed(l: LoopView) -> LoopView {
    LoopView {
        status: LoopStatus::Pending,
        progress: l.progress + "\n---\nRecovered at iteration "@ + decimal(l.iteration as nat)
            + " after crash\n"@,
        ..l
    }
}

/// The loop once its worktree is lost.
pub open spec fn lost(l: LoopView) -> LoopView {
    LoopView {
        status: LoopStatus::Failed,
        progress: l.progress + "\n---\nFailed: worktree lost during crash\n"@,
        ..l
    }
}

/// What is to be done for a loop.
pub open spec fn recovery_of(l: LoopView, worktree: bool, config: RecoveryConfig) -> RecoveryStepView {
    if l.status != LoopStatus::Running {
        RecoveryStepView {
            action: RecoveryActionView::Skipped { loop_id: l.id },
            commit: None,
            updated: None,
        }
    } else if worktree {
        RecoveryStepView {
            action: RecoveryActionView::Resumed { loop_id: l.id },
            commit: if config.auto_commit {
                Some(config.commit_message@)
            } else {
                None
            },
            updated: Some(resumed(l)),
        }
    } else {
        RecoveryStepView {
            action: RecoveryActionView::MarkedFailed { loop_id: l.id },
            commit: None,
            updated: Some(lost(l)),
        }
    }
}

/// The contents of a list of loops.
pub open spec fn loops_view(loops: Seq<Loop>) -> Seq<LoopView> {
    loops.map_values(|l: Loop| l@)
}

/// The contents of a list of steps.
pub open spec fn steps_view(steps: Seq<RecoveryStep>) -> Seq<RecoveryStepView> {
    steps.map_values(|s: RecoveryStep| s@)
}

/// The loops that were running, in their order.
pub open spec fn interrupted(loops: Seq<LoopView>) -> Seq<LoopView> {
    loops.filter(|l: LoopView| l.status == LoopStatus::Running)
}

/// What is to be done for a list of loops, given the ids that have a worktree.
pub open spec fn recoveries(
    loops: Seq<LoopView>,
    worktrees: Seq<Seq<char>>,
    config: RecoveryConfig,
) -> Seq<RecoveryStepView> {
    interrupted(loops).map_values(
        |l: LoopView| recovery_of(l, worktrees.contains(l.id), config),
    )
}

/// Decides how interrupted loops are restored.
#[derive(Debug)]
pub struct Recovery {
    pub config: RecoveryConfig,
}

impl Recovery {
    /// A recovery with the given configuration.
    pub fn new(config: RecoveryConfig) -> (r: Self)
        ensures
            r.config == config,
    {
        Recovery { config }
    }

    /// A recovery with the default configuration.
    pub fn with_defaults() -> (r: Self)
        ensures
            r.config.commit_message@ == "WIP: recovery"@,
            r.config.auto_commit,
    {
        Recovery::new(RecoveryConfig::default())
    }

    /// Decides what is to be done for one loop, given whether its worktree
    /// exists.
    pub fn recover_loop(&self, loop_record: &Loop, worktree: bool) -> (r: RecoveryStep)
        ensures
            r@ == recovery_of(loop_record@, worktree, self.config),
    {
        let loop_id: String = copy(loop_record.id.as_str());
        match loop_record.status {
            LoopStatus::Running => {},
            _ => {
                return RecoveryStep {
                    action: RecoveryAction::Skipped { loop_id },
                    commit: None,
                    updated: None,
                };
            },
        }
        let mut updated: Loop = loop_record.copied();
        if worktree {
            updated.status = LoopStatus::Pending;
            updated.progress.append("\n---\nRecovered at iteration ");
            updated.progress.append(show(loop_record.iteration as u64).as_str());
            updated.progress.append(" after crash\n");
            let commit: Option<String> = if self.config.auto_commit {
                Some(copy(self.config.commit_message.as_str()))
            } else {
                None
            };
            RecoveryStep {
                action: RecoveryAction::Resumed { loop_id },
                commit,
                updated: Some(updated),
            }
        } else {
            updated.status = LoopStatus::Failed;
            updated.progress.append("\n---\nFailed: worktree lost during crash\n");
            RecoveryStep {
                action: RecoveryAction::MarkedFailed { loop_id },
                commit: None,
                updated: Some(updated),
            }
        }
    }

    /// Decides what is to be done for all loops that were running, given the
    /// ids that have a worktree.
    pub fn recover_all(&self, loops: &Vec<Loop>, worktrees: &Vec<String>) -> (r: Vec<RecoveryStep>)
        ensures
            steps_view(r@) == recoveries(loops_view(loops@), texts(worktrees@), self.config),
    {
        let ghost all = loops_view(loops@);
        let ghost trees = texts(worktrees@);
        let mut r: Vec<RecoveryStep> = Vec::new();
        let mut i: usize = 0;
        proof {
            reveal(Seq::filter);
            assert(all.take(0) =~= Seq::empty());
            assert(steps_view(r@) =~= recoveries(all.take(0), trees, self.config));
        }
        while i < loops.len()
            invariant
                i <= loops@.len(),
                all == loops_view(loops@),
                trees == texts(worktrees@),
                steps_view(r@) == recoveries(all.take(i as int), trees, self.config),
            decreases loops@.len() - i,
        {
            let ghost before = steps_view(r@);
            let l: &Loop = &loops[i];
            proof {
                reveal(Seq::filter);
                assert(all.take(i + 1).drop_last() =~= all.take(i as int));
                assert(all.take(i + 1).last() == l@);
            }
            match l.status {
                LoopStatus::Running => {
                    let step: RecoveryStep = self.recover_loop(l, lists(worktrees, l.id.as_str()));
                    r.push(step);
                    assert(steps_view(r@) =~= before.push(
                        recovery_of(l@, trees.contains(l@.id), self.config),
                    ));
                },
                _ => {},
            }
            assert(steps_view(r@) =~= recoveries(all.take(i + 1), trees, self.config));
            i = i + 1;
        }
        assert(all.take(i as int) =~= all);
        r
    }

    /// How many loops were running.
    pub fn count_interrupted(&self, loops: &Vec<Loop>) -> (r: usize)
        ensures
            r == interrupted(loops_view(loops@)).len(),
    {
        let ghost all = loops_view(loops@);
        let mut n: usize = 0;
        let mut i: usize = 0;
        proof {
            reveal(Seq::filter);
            assert(all.take(0) =~= Seq::empty());
        }
        while i < loops.len()
            invariant
                n <= i <= loops@.len(),
                all == loops_view(loops@),
                n == interrupted(all.take(i as int)).len(),
            decreases loops@.len() - i,
        {
            proof {
                reveal(Seq::filter);
                assert(all.take(i + 1).drop_last() =~= all.take(i as int));
                assert(all.take(i + 1).last() == loops@[i as int]@);
            }
            match loops[i].status {
                LoopStatus::Running => {
                    n = n + 1;
                },
                _ => {},
            }
            i = i + 1;
        }
        assert(all.take(i as int) =~= all);
        n
    }

    /// Whether any loop was running.
    pub fn needs_recovery(&self, loops: &Vec<Loop>) -> (r: bool)
        ensures
            r == (interrupted(loops_view(loops@)).len() > 0),
    {
        self.count_interrupted(loops) > 0
    }
}

/// The loops once the records of some steps are written, one after the other.
pub open spec fn written(loops: Seq<LoopView>, steps: Seq<RecoveryStepView>) -> Seq<LoopView>
    decreases steps.len(),
{
    if steps.len() == 0 {
        loops
    } else {
        let before = written(loops, steps.drop_last());
        match steps.last().updated {
            Some(l) => put(before, l),
            None => before,
        }
    }
}

/// A loop after recovery.
pub open spec fn recovered(l: LoopView, worktree: bool, config: RecoveryConfig) -> LoopView {
    match recovery_of(l, worktree, config).updated {
        Some(u) => u,
        None => l,
    }
}

/// Each loop after recovery.
pub open spec fn all_recovered(
    loops: Seq<LoopView>,
    worktrees: Seq<Seq<char>>,
    config: RecoveryConfig,
) -> Seq<LoopView> {
    loops.map_values(|l: LoopView| recovered(l, worktrees.contains(l.id), config))
}

/// Writing the records that recovery asks for recovers each loop in its place
/// and leaves the others as they were.
pub proof fn writing_recovers_each_loop(
    loops: Seq<LoopView>,
    worktrees: Seq<Seq<char>>,
    config: RecoveryConfig,
)
    requires
        distinct(loops),
    ensures
        written(loops, recoveries(loops, worktrees, config)) == all_recovered(
            loops,
            worktrees,
            config,
        ),
{
    assert(loops.take(loops.len() as int) =~= loops);
    writing_recovers_a_prefix(loops, worktrees, config, loops.len() as int);
    assert(all_recovered(loops, worktrees, config).take(loops.len() as int) + loops.skip(
        loops.len() as int,
    ) =~= all_recovered(loops, worktrees, config));
}

proof fn writing_recovers_a_prefix(
    loops: Seq<LoopView>,
    worktrees: Seq<Seq<char>>,
    config: RecoveryConfig,
    n: int,
)
    requires
        distinct(loops),
        0 <= n <= loops.len(),
    ensures
        written(loops, recoveries(loops.take(n), worktrees, config)) == all_recovered(
            loops,
            worktrees,
            config,
        ).take(n) + loops.skip(n),
    decreases n,
{
    reveal(Seq::filter);
    let all = all_recovered(loops, worktrees, config);
    if n == 0 {
        assert(recoveries(loops.take(0), worktrees, config) =~= Seq::empty());
        assert(all.take(0) + loops.skip(0) =~= loops);
    } else {
        writing_recovers_a_prefix(loops, worktrees, config, n - 1);
        let l = loops[n - 1];
        let before = all.take(n - 1) + loops.skip(n - 1);
        let step = recovery_of(l, worktrees.contains(l.id), config);
        assert(loops.take(n).drop_last() =~= loops.take(n - 1));
        assert(loops.take(n).last() == l);
        let steps = recoveries(loops.take(n), worktrees, config);
        let earlier = recoveries(loops.take(n - 1), worktrees, config);
        if l.status == LoopStatus::Running {
            assert(steps =~= earlier.push(step));
            assert(steps.drop_last() =~= earlier);
            assert(before.len() == loops.len());
            assert forall|i: int| 0 <= i < before.len() implies (#[trigger] before[i]).key()
                == loops[i].key() by {}
            assert forall|i: int, j: int| 0 <= i < j < before.len() implies (
            #[trigger] before[i]).key() != (#[trigger] before[j]).key() by {
                assert(loops[i].key() != loops[j].key());
            }
            assert(before[n - 1] == l);
            row_is_found(before, n - 1);
            assert(all[n - 1] == step.updated->0);
            assert(put(before, step.updated->0) =~= all.take(n) + loops.skip(n));
        } else {
            assert(steps =~= earlier);
            assert(all[n - 1] == l);
            assert(before =~= all.take(n) + loops.skip(n));
        }
    }
}

/// Whether the loop in place `i` is one of the first `k` that were running.
pub open spec fn among_first(loops: Seq<LoopView>, i: int, k: int) -> bool {
    loops[i].status == LoopStatus::Running && interrupted(loops.take(i)).len() < k
}

/// A recovery that stops after `k` steps has recovered the first `k` loops that
/// were running, and every other loop is as it was.
pub proof fn interrupted_recovery_is_a_prefix(
    loops: Seq<LoopView>,
    worktrees: Seq<Seq<char>>,
    config: RecoveryConfig,
    k: int,
)
    requires
        distinct(loops),
        0 <= k <= recoveries(loops, worktrees, config).len(),
    ensures
        written(loops, recoveries(loops, worktrees, config).take(k)) == Seq::new(
            loops.len(),
            |i: int|
                if among_first(loops, i, k) {
                    recovered(loops[i], worktrees.contains(loops[i].id), config)
                } else {
                    loops[i]
                },
        ),
{
    let n = place_of_step(loops, k);
    let all = all_recovered(loops, worktrees, config);
    let steps = recoveries(loops, worktrees, config);
    assert(steps.take(k) =~= recoveries(loops.take(n), worktrees, config));
    writing_recovers_a_prefix(loops, worktrees, config, n);
    let after = written(loops, steps.take(k));
    let expected = Seq::new(
        loops.len(),
        |i: int|
            if among_first(loops, i, k) {
                recovered(loops[i], worktrees.contains(loops[i].id), config)
            } else {
                loops[i]
            },
    );
    assert forall|i: int| 0 <= i < loops.len() implies after[i] == expected[i] by {
        if i < n {
            interrupted_step(loops, i);
            interrupted_grows(loops, i + 1, n);
            assert(after[i] == all[i]);
        } else {
            interrupted_grows(loops, n, i);
            assert(after[i] == loops[i]);
        }
    }
    assert(after =~= expected);
}

/// How far the first `k` loops that were running reach.
proof fn place_of_step(loops: Seq<LoopView>, k: int) -> (n: int)
    requires
        0 <= k <= interrupted(loops).len(),
    ensures
        0 <= n <= loops.len(),
        interrupted(loops.take(n)).len() == k,
        interrupted(loops.take(n)) == interrupted(loops).take(k),
    decreases loops.len(),
{
    reveal(Seq::filter);
    assert(loops.take(loops.len() as int) =~= loops);
    if k == interrupted(loops).len() {
        assert(interrupted(loops).take(k) =~= interrupted(loops));
        loops.len() as int
    } else {
        let rest = loops.drop_last();
        let n = place_of_step(rest, k);
        assert(rest.take(n) =~= loops.take(n));
        assert(interrupted(rest).take(k) =~= interrupted(loops).take(k));
        n
    }
}

/// One more loop counts if it was running.
proof fn interrupted_step(loops: Seq<LoopView>, i: int)
    requires
        0 <= i < loops.len(),
    ensures
        interrupted(loops.take(i + 1)).len() == interrupted(loops.take(i)).len() + (
        if loops[i].status == LoopStatus::Running {
            1int
        } else {
            0int
        }),
{
    reveal(Seq::filter);
    assert(loops.take(i + 1).drop_last() =~= loops.take(i));
    assert(loops.take(i + 1).last() == loops[i]);
}

/// Among more loops no fewer were running.
proof fn interrupted_grows(loops: Seq<LoopView>, i: int, j: int)
    requires
        0 <= i <= j <= loops.len(),
    ensures
        interrupted(loops.take(i)).len() <= interrupted(loops.take(j)).len(),
    decreases j - i,
{
    if i < j {
        interrupted_grows(loops, i, j - 1);
        interrupted_step(loops, j - 1);
    }
}

/// After recovery no loop is left running, and recovering once more does
/// nothing.
pub proof fn recovery_leaves_none_interrupted(
    loops: Seq<LoopView>,
    worktrees: Seq<Seq<char>>,
    config: RecoveryConfig,
)
    ensures
        interrupted(all_recovered(loops, worktrees, config)) == Seq::<LoopView>::empty(),
        recoveries(all_recovered(loops, worktrees, config), worktrees, config) == Seq::<
            RecoveryStepView,
        >::empty(),
{
    let all = all_recovered(loops, worktrees, config);
    all.lemma_all_neg_filter_empty(|l: LoopView| l.status == LoopStatus::Running);
    assert(interrupted(all) =~= Seq::empty());
    assert(recoveries(all, worktrees, config) =~= Seq::empty());
}

/// Recovery moves a loop that was running to waiting where its worktree exists
/// and to failed where it does not, adds to its progress, and changes nothing
/// else of it; a loop that was not running is left alone.
pub proof fn recovery_of_one_loop(l: LoopView, worktree: bool, config: RecoveryConfig)
    ensures
        recovered(l, worktree, config).status == (if l.status != LoopStatus::Running {
            l.status
        } else if worktree {
            LoopStatus::Pending
        } else {
            LoopStatus::Failed
        }),
        l.progress.is_prefix_of(recovered(l, worktree, config).progress),
        recovered(l, worktree, config) == (LoopView {
            status: recovered(l, worktree, config).status,
            progress: recovered(l, worktree, config).progress,
            ..l
        }),
        l.status != LoopStatus::Running ==> recovered(l, worktree, config) == l,
{
}

/// A loop that was not running is skipped: nothing is committed or written for
/// it. One that was running is always written: where its worktree exists it
/// waits again and what lies there is committed, if that is wanted, with the
/// message that is configured; where the worktree is lost it has failed and
/// there is nothing to commit. The progress says which, and at which iteration
/// the loop goes on.
pub proof fn each_loop_is_recovered_by_its_worktree(
    l: LoopView,
    worktree: bool,
    config: RecoveryConfig,
)
    ensures
        ({
            let step = recovery_of(l, worktree, config);
            if l.status != LoopStatus::Running {
                &&& step.action == RecoveryActionView::Skipped { loop_id: l.id }
                &&& step.commit is None
                &&& step.updated is None
            } else {
                let u = step.updated->0;
                &&& step.updated is Some
                &&& u == LoopView { status: u.status, progress: u.progress, ..l }
                &&& worktree ==> step.action == RecoveryActionView::Resumed { loop_id: l.id }
                    && u.status == LoopStatus::Pending && u.progress == l.progress
                    + "\n---\nRecovered at iteration "@ + decimal(l.iteration as nat)
                    + " after crash\n"@ && step.commit == (if config.auto_commit {
                    Some(config.commit_message@)
                } else {
                    None
                })
                &&& !worktree ==> step.action == RecoveryActionView::MarkedFailed { loop_id: l.id }
                    && u.status == LoopStatus::Failed && u.progress == l.progress
                    + "\n---\nFailed: worktree lost during crash\n"@ && step.commit is None
            }
        }),
{
}

/// Recovery takes one step for each loop that was running, in their order, and
/// none for another; the step goes by whether that loop's own worktree exists.
pub proof fn every_running_loop_is_recovered(
    loops: Seq<LoopView>,
    worktrees: Seq<Seq<char>>,
    config: RecoveryConfig,
    n: int,
)
    requires
        0 <= n < interrupted(loops).len(),
    ensures
        holds_those(loops, |l: LoopView| l.status == LoopStatus::Running, interrupted(loops)),
        recoveries(loops, worktrees, config).len() == interrupted(loops).len(),
        recoveries(loops, worktrees, config)[n] == recovery_of(
            interrupted(loops)[n],
            exists|k: int|
                0 <= k < worktrees.len() && #[trigger] worktrees[k] == interrupted(loops)[n].id,
            config,
        ),
{
    let running = |l: LoopView| l.status == LoopStatus::Running;
    filter_holds_those(loops, running, running);
    let l = interrupted(loops)[n];
    if worktrees.contains(l.id) {
        let k = choose|k: int| 0 <= k < worktrees.len() && worktrees[k] == l.id;
        assert(worktrees[k] == l.id);
    }
}

} // verus!
