//! What holds of work items whatever requests come.

use crate::graph::{acyclic, any_leads, chain, depends, leads, link, put_keeps_acyclic};
use crate::params::{all_strings_of, flag_of, member, strings_of, text_of, Members};
use crate::protocol::{Actor, DaemonEventView, Reply, RpcErrorView};
use crate::records::{BundleView, PhaseView, PlanView, WorkView};
use crate::status::{BundleStatus, HierarchyStatus, Role, VerdictView, WorkStatus};
use crate::steps::{is_refused_with, StepView};
use crate::table::{
    distinct, filter_holds_those, holds_those, known, lookup, place, put, put_then_lookup,
    row_is_found, stands_in, Keyed,
};
use crate::text::lowercase;
use crate::work::{
    asked_work, first_rival_exists, rivals, work_creation, work_update, work_update_request,
    WorkChangesView, WorkDraftView,
};
use crate::work_moves::{
    advanced, asked_work_move, assigned, countable, freed, freed_event, frees, is_reset, moved_work, newly_ready, obstacle,
    ready, satisfied, unblocked, work_transition, WorkMoveView,
};
use vstd::prelude::*;

verus! {

/// Whether the same ids depend on the same ids.
pub open spec fn same_dependencies(a: Seq<WorkView>, b: Seq<WorkView>) -> bool {
    forall|x: Seq<char>, y: Seq<char>| #[trigger] depends(a, x, y) == depends(b, x, y)
}

/// Whether there are cycles hangs on the dependencies alone.
pub proof fn same_dependencies_keep_acyclic(a: Seq<WorkView>, b: Seq<WorkView>)
    requires
        same_dependencies(a, b),
        acyclic(a),
    ensures
        acyclic(b),
{
    assert forall|p: Seq<Seq<char>>| (#[trigger] chain(b, p)) && p.len() >= 2 implies p[0]
        != p.last() by {
        assert forall|i: int| 0 <= i < p.len() - 1 implies #[trigger] link(a, p, i) by {
            assert(link(b, p, i));
            assert(depends(a, p[i], p[i + 1]) == depends(b, p[i], p[i + 1]));
        }
        assert(chain(a, p));
    }
}

/// Putting a record in the place of one with the same dependencies changes no
/// dependency.
proof fn put_with_same_dependencies(works: Seq<WorkView>, w: WorkView)
    requires
        distinct(works),
        lookup(works, w.id) matches Some(v) && v.dependencies == w.dependencies,
    ensures
        same_dependencies(works, put(works, w)),
{
    assert forall|x: Seq<char>, y: Seq<char>| #[trigger] depends(works, x, y) == depends(
        put(works, w),
        x,
        y,
    ) by {
        put_then_lookup(works, w, x);
    }
}

/// A work item that is made brings no cycle into the dependencies.
pub proof fn creation_keeps_acyclic(
    phases: Seq<PhaseView>,
    plans: Seq<PlanView>,
    works: Seq<WorkView>,
    d: WorkDraftView,
    id: Seq<char>,
    now: i64,
)
    requires
        distinct(works),
        acyclic(works),
    ensures
        work_creation(phases, plans, works, d, id, now) matches StepView::Persist(w, _) ==> acyclic(
            put(works, w),
        ),
{
    match work_creation(phases, plans, works, d, id, now) {
        StepView::Persist(w, _) => put_keeps_acyclic(works, w),
        _ => {},
    }
}

/// Changes to a work item bring no cycle into the dependencies.
pub proof fn update_keeps_acyclic(works: Seq<WorkView>, c: WorkChangesView, now: i64)
    requires
        distinct(works),
        acyclic(works),
    ensures
        acyclic(work_update(works, c, now).0),
{
    if c.dependencies is Some && any_leads(works, c.dependencies->0, c.id) {
    } else if let Some(w) = lookup(works, c.id) {
        found_under_its_id(works, c.id);
        let after = crate::work::changed_work(w, c, now);
        if c.dependencies is Some {
            put_keeps_acyclic(works, after);
        } else {
            put_with_same_dependencies(works, after);
            same_dependencies_keep_acyclic(works, put(works, after));
        }
    }
}

/// What is found under an id has it.
proof fn found_under_its_id(works: Seq<WorkView>, id: Seq<char>)
    ensures
        lookup(works, id) matches Some(w) ==> w.id == id,
{
    if known(works, id) {
        assert(works[place(works, id)].key() == id);
    }
}

/// Moves bring no cycle into the dependencies.
pub proof fn moves_keep_acyclic(
    works: Seq<WorkView>,
    bundles: Seq<BundleView>,
    m: WorkMoveView,
    verdict: VerdictView,
    now: i64,
)
    requires
        distinct(works),
        acyclic(works),
    ensures
        acyclic(moved_work(works, bundles, m, verdict, now).0),
{
    if let Some(w) = lookup(works, m.id) {
        found_under_its_id(works, m.id);
        let a = assigned(w, m.assignee);
        put_with_same_dependencies(works, a);
        same_dependencies_keep_acyclic(works, put(works, a));
        put_with_same_dependencies(works, advanced(a, m.target, now));
        same_dependencies_keep_acyclic(works, put(works, advanced(a, m.target, now)));
    }
}

/// The row of an id stands in its place after freeing.
proof fn unblocked_lookup(works: Seq<WorkView>, done: Seq<char>, now: i64, id: Seq<char>)
    requires
        distinct(works),
    ensures
        distinct(unblocked(works, done, now)),
        lookup(unblocked(works, done, now), id) == (match lookup(works, id) {
            Some(w) => Some(
                if freed(works, done, w) {
                    ready(w, now)
                } else {
                    w
                },
            ),
            None => None,
        }),
{
    let after = unblocked(works, done, now);
    assert forall|i: int, j: int| 0 <= i < j < after.len() implies (#[trigger] after[i]).key() != (
    #[trigger] after[j]).key() by {
        assert(works[i].key() != works[j].key());
    }
    if known(works, id) {
        let i = place(works, id);
        assert(works[i].key() == id);
        assert(after[i].key() == id);
        row_is_found(after, i);
    }
    if known(after, id) {
        let i = place(after, id);
        assert(after[i].key() == id);
        assert(works[i].key() == id);
    }
}

/// Freeing work items brings no cycle into the dependencies.
pub proof fn freeing_keeps_acyclic(works: Seq<WorkView>, done: Seq<char>, now: i64)
    requires
        distinct(works),
        acyclic(works),
    ensures
        acyclic(unblocked(works, done, now)),
{
    let after = unblocked(works, done, now);
    assert forall|x: Seq<char>, y: Seq<char>| #[trigger] depends(works, x, y) == depends(
        after,
        x,
        y,
    ) by {
        unblocked_lookup(works, done, now, x);
    }
    same_dependencies_keep_acyclic(works, after);
}

/// Freeing touches blocked work items only: each of them becomes ready exactly
/// if every dependency is done, and nothing else of it changes but its time.
/// Freeing once more, whenever that is, changes nothing.
pub proof fn freeing_is_exact_and_done_at_once(
    works: Seq<WorkView>,
    done: Seq<char>,
    now: i64,
    later: i64,
)
    requires
        distinct(works),
    ensures
        unblocked(works, done, now).len() == works.len(),
        forall|i: int|
            0 <= i < works.len() ==> {
                let after = #[trigger] unblocked(works, done, now)[i];
                &&& !(works[i].status is Blocked) ==> after == works[i]
                &&& works[i].status is Blocked ==> (after.status is Ready <==> forall|k: int|
                    0 <= k < works[i].dependencies.len() ==> satisfied(
                        works,
                        done,
                        #[trigger] works[i].dependencies[k],
                    ))
                &&& after == works[i] || after == ready(works[i], now)
            },
        unblocked(unblocked(works, done, now), done, later) == unblocked(works, done, now),
{
    let after = unblocked(works, done, now);
    assert forall|i: int| 0 <= i < after.len() implies !freed(after, done, #[trigger] after[i]) by {
        if after[i].status is Blocked {
            assert(after[i] == works[i]);
            assert(!freed(works, done, works[i]));
            let k = choose|k: int|
                0 <= k < works[i].dependencies.len() && !satisfied(
                    works,
                    done,
                    #[trigger] works[i].dependencies[k],
                );
            unblocked_lookup(works, done, now, works[i].dependencies[k]);
            assert(!satisfied(after, done, after[i].dependencies[k]));
        }
    }
    assert(unblocked(after, done, later) =~= after);
}

/// No two work items under one parent have the same title up to case, unless
/// one of them is abandoned.
pub open spec fn titles_unique(works: Seq<WorkView>) -> bool {
    forall|i: int, j: int|
        0 <= i < works.len() && 0 <= j < works.len() && i != j && !((
        #[trigger] works[i]).status is Abandoned) && !((#[trigger] works[j]).status is Abandoned)
            ==> !(works[i].parent_id == works[j].parent_id && lowercase(works[i].title)
            == lowercase(works[j].title))
}

/// A work item that is made under a fresh id has a title of its own.
pub proof fn creation_keeps_titles_unique(
    phases: Seq<PhaseView>,
    plans: Seq<PlanView>,
    works: Seq<WorkView>,
    d: WorkDraftView,
    id: Seq<char>,
    now: i64,
)
    requires
        titles_unique(works),
        !known(works, id),
    ensures
        work_creation(phases, plans, works, d, id, now) matches StepView::Persist(w, _)
            ==> titles_unique(put(works, w)),
{
    match work_creation(phases, plans, works, d, id, now) {
        StepView::Persist(w, _) => {
            first_rival_exists(works, w.parent_id, w.title);
            let after = put(works, w);
            assert(after == works.push(w));
            assert forall|i: int, j: int|
                0 <= i < after.len() && 0 <= j < after.len() && i != j && !((
                #[trigger] after[i]).status is Abandoned) && !((
                #[trigger] after[j]).status is Abandoned) implies !(after[i].parent_id
                == after[j].parent_id && lowercase(after[i].title) == lowercase(after[j].title)) by {
                if i < works.len() {
                    assert(after[i] == works[i]);
                    assert(!rivals(works[i], w.parent_id, w.title));
                }
                if j < works.len() {
                    assert(after[j] == works[j]);
                    assert(!rivals(works[j], w.parent_id, w.title));
                }
            }
        },
        _ => {},
    }
}

/// A work item is made only under a phase or a plan that exists and is open,
/// with a title, with a file, and with dependencies that exist.
pub proof fn made_work_is_sound(
    phases: Seq<PhaseView>,
    plans: Seq<PlanView>,
    works: Seq<WorkView>,
    d: WorkDraftView,
    id: Seq<char>,
    now: i64,
)
    ensures
        work_creation(phases, plans, works, d, id, now) matches StepView::Persist(w, _) ==> {
            &&& w.id == id
            &&& match lookup(phases, w.parent_id) {
                Some(phase) => !phase.status.is_closed(),
                None => lookup(plans, w.parent_id) matches Some(plan) && !plan.status.is_closed(),
            }
            &&& w.title.len() > 0
            &&& w.files.len() > 0
            &&& forall|k: int|
                0 <= k < w.dependencies.len() ==> known(works, #[trigger] w.dependencies[k])
            &&& w.status is Ready <==> w.acceptance_criteria.len() > 0
            &&& w.status is Draft <==> w.acceptance_criteria.len() == 0
        },
{
    match work_creation(phases, plans, works, d, id, now) {
        StepView::Persist(w, _) => {
            assert forall|k: int| 0 <= k < w.dependencies.len() implies known(
                works,
                #[trigger] w.dependencies[k],
            ) by {
                d.dependencies.lemma_filter_pred(
                    |dep: Seq<char>| crate::work::kept_dependency(works, dep),
                    k,
                );
            }
        },
        _ => {},
    }
}

/// A work item that was put back four times or more is abandoned when it is put
/// back once more; with fewer it becomes ready. Every time is counted.
pub proof fn fifth_reset_abandons(w: WorkView, now: i64)
    requires
        is_reset(w, WorkStatus::Ready),
        w.attempt_count < u32::MAX,
    ensures
        advanced(w, WorkStatus::Ready, now).attempt_count == w.attempt_count + 1,
        w.attempt_count >= 4 ==> advanced(w, WorkStatus::Ready, now).status is Abandoned,
        w.attempt_count < 4 ==> advanced(w, WorkStatus::Ready, now).status is Ready,
{
}

/// A move that is not carried out changes no work item but for the assignee of
/// the one it was about, and that only where the rules allow the move and
/// something else holds it up.
pub proof fn refused_move_changes_the_assignee_at_most(
    works: Seq<WorkView>,
    bundles: Seq<BundleView>,
    m: WorkMoveView,
    verdict: VerdictView,
    now: i64,
)
    ensures
        moved_work(works, bundles, m, verdict, now).1 is Reply ==> {
            let after = moved_work(works, bundles, m, verdict, now).0;
            ||| after == works
            ||| lookup(works, m.id) matches Some(w) && verdict is Changed && after == put(
                works,
                assigned(w, m.assignee),
            ) && obstacle(assigned(w, m.assignee), bundles, m.target) is Some
        },
{
}

/// Changes that are refused change no work item.
pub proof fn refused_update_changes_nothing(works: Seq<WorkView>, c: WorkChangesView, now: i64)
    ensures
        work_update(works, c, now).1 is Reply ==> work_update(works, c, now).0 == works,
{
}

/// Where a move is carried out, the work item under the id is the one that has
/// to be written, and no other has changed.
pub proof fn carried_out_move_is_found(
    works: Seq<WorkView>,
    bundles: Seq<BundleView>,
    m: WorkMoveView,
    verdict: VerdictView,
    now: i64,
    id: Seq<char>,
)
    requires
        distinct(works),
    ensures
        moved_work(works, bundles, m, verdict, now).1 matches StepView::Persist(w, _) ==> lookup(
            moved_work(works, bundles, m, verdict, now).0,
            id,
        ) == (if id == m.id {
            Some(w)
        } else {
            lookup(works, id)
        }),
{
    found_under_its_id(works, m.id);
    match moved_work(works, bundles, m, verdict, now).1 {
        StepView::Persist(w, _) => put_then_lookup(works, w, id),
        _ => {},
    }
}

// ------------------------------------------------------------- freeing

/// Whether the work item under the id is done, by its status.
pub open spec fn is_done(works: Seq<WorkView>, id: Seq<char>) -> bool {
    lookup(works, id) matches Some(w) && w.status == WorkStatus::Done
}

/// A blocked work item becomes ready exactly if each of its dependencies is the
/// work item just done, or is found with the status `Done`. Of an item that
/// becomes ready, nothing but the status and the time changes. Every other item
/// stays what it was: one that was not blocked, and one that a single
/// dependency in another status, or under an unknown id, holds up.
pub proof fn freeing_waits_for_every_dependency(
    works: Seq<WorkView>,
    done: Seq<char>,
    now: i64,
    i: int,
)
    requires
        0 <= i < works.len(),
    ensures
        ({
            let (w, after) = (works[i], unblocked(works, done, now)[i]);
            let all_done = forall|k: int|
                0 <= k < w.dependencies.len() ==> (#[trigger] w.dependencies[k]) == done || is_done(
                    works,
                    w.dependencies[k],
                );
            &&& w.status == WorkStatus::Blocked && all_done ==> after.status == WorkStatus::Ready
                && after.updated_at == now && after == (WorkView {
                status: after.status,
                updated_at: after.updated_at,
                ..w
            })
            &&& !(w.status == WorkStatus::Blocked && all_done) ==> after == w
        }),
{
    let w = works[i];
    if w.status is Blocked {
        if forall|k: int|
            0 <= k < w.dependencies.len() ==> (#[trigger] w.dependencies[k]) == done || is_done(
                works,
                w.dependencies[k],
            ) {
            assert forall|k: int| 0 <= k < w.dependencies.len() implies satisfied(
                works,
                done,
                #[trigger] w.dependencies[k],
            ) by {
                assert(w.dependencies[k] == done || is_done(works, w.dependencies[k]));
            }
        } else {
            let k = choose|k: int|
                0 <= k < w.dependencies.len() && !((#[trigger] w.dependencies[k]) == done
                    || is_done(works, w.dependencies[k]));
            assert(!satisfied(works, done, w.dependencies[k]));
        }
    }
}

/// One dependency in a status other than `Done` leaves a blocked work item
/// blocked, whatever the others are, unless it is the one just done.
pub proof fn one_open_dependency_blocks(
    works: Seq<WorkView>,
    done: Seq<char>,
    now: i64,
    i: int,
    k: int,
)
    requires
        0 <= i < works.len(),
        works[i].status == WorkStatus::Blocked,
        0 <= k < works[i].dependencies.len(),
        works[i].dependencies[k] != done,
        lookup(works, works[i].dependencies[k]) matches Some(d) ==> d.status != WorkStatus::Done,
    ensures
        unblocked(works, done, now)[i] == works[i],
        unblocked(works, done, now)[i].status == WorkStatus::Blocked,
{
    freeing_waits_for_every_dependency(works, done, now, i);
    assert(!(works[i].dependencies[k] == done || is_done(works, works[i].dependencies[k])));
}

/// The work items that are handed on to be written are, in their order, exactly
/// those that were blocked and are ready now, as they are now.
pub proof fn freed_items_are_those_that_changed(works: Seq<WorkView>, done: Seq<char>, now: i64)
    ensures
        exists|places: Seq<int>|
            #[trigger] stands_in(
                unblocked(works, done, now),
                places,
                newly_ready(works, done, now),
            ) && forall|i: int|
                0 <= i < works.len() ==> (places.contains(i) <==> (
                #[trigger] works[i]).status == WorkStatus::Blocked && unblocked(
                    works,
                    done,
                    now,
                )[i].status == WorkStatus::Ready),
{
    let keep = |w: WorkView| freed(works, done, w);
    filter_holds_those(works, keep, keep);
    let places = choose|places: Seq<int>|
        #[trigger] stands_in(works, places, works.filter(keep)) && forall|i: int|
            0 <= i < works.len() ==> (places.contains(i) <==> keep(#[trigger] works[i]));
    let (after, r) = (unblocked(works, done, now), newly_ready(works, done, now));
    assert forall|k: int| 0 <= k < places.len() implies 0 <= (#[trigger] places[k]) < after.len()
        && r[k] == after[places[k]] by {
        assert(places.contains(places[k]));
        assert(keep(works[places[k]]));
    }
    assert(stands_in(after, places, r));
}

/// Work items are freed by one that is done and written, and by nothing else.
/// Clients are told that the daemon itself moved each of them.
pub proof fn only_what_is_done_and_written_frees(
    rec: WorkView,
    written: Result<(), Seq<char>>,
    id: Seq<char>,
)
    ensures
        rec.status != WorkStatus::Done ==> !frees(rec, written),
        written is Err ==> !frees(rec, written),
        rec.status == WorkStatus::Done && written is Ok ==> frees(rec, written),
        freed_event(id) == (DaemonEventView::TransitionCompleted {
            collection: "work"@,
            id,
            from: WorkStatus::Blocked.shown(),
            to: WorkStatus::Ready.shown(),
            by: Actor::System,
        }),
{
}

// --------------------------------------------------------------- moves

/// Whether a bundle of the work item has been handed in and is neither merged,
/// nor turned down, nor replaced.
pub open spec fn has_active_bundle(bundles: Seq<BundleView>, work_id: Seq<char>) -> bool {
    exists|i: int|
        0 <= i < bundles.len() && (#[trigger] bundles[i]).work_id == work_id && (bundles[i].status
            == BundleStatus::Proposed || bundles[i].status == BundleStatus::Triaged
            || bundles[i].status == BundleStatus::Reviewed || bundles[i].status
            == BundleStatus::Accepted)
}

/// Bundles count for a work item exactly while they are active.
proof fn live_bundles_are_active(bundles: Seq<BundleView>, work_id: Seq<char>)
    ensures
        crate::work_moves::has_live_bundle(bundles, work_id) == has_active_bundle(bundles, work_id),
{
    if crate::work_moves::has_live_bundle(bundles, work_id) {
        let i = choose|i: int|
            0 <= i < bundles.len() && (#[trigger] bundles[i]).work_id == work_id
                && bundles[i].status.is_live();
        assert(bundles[i].work_id == work_id);
    }
    if has_active_bundle(bundles, work_id) {
        let i = choose|i: int|
            0 <= i < bundles.len() && (#[trigger] bundles[i]).work_id == work_id && (
            bundles[i].status == BundleStatus::Proposed || bundles[i].status
                == BundleStatus::Triaged || bundles[i].status == BundleStatus::Reviewed
                || bundles[i].status == BundleStatus::Accepted);
        assert(bundles[i].work_id == work_id);
    }
}

/// Whether a work item with this assignee has all that the stage asks for: an
/// assignee while it is worked on or judged, acceptance criteria once it can be
/// taken up, and an active bundle while it is judged.
pub open spec fn fit_for(
    w: WorkView,
    assignee: Option<Seq<char>>,
    bundles: Seq<BundleView>,
    target: WorkStatus,
) -> bool {
    match target {
        WorkStatus::InProgress => assignee is Some,
        WorkStatus::InReview => assignee is Some && has_active_bundle(bundles, w.id),
        WorkStatus::Ready => w.acceptance_criteria.len() > 0,
        _ => true,
    }
}

/// Where a move is carried out, the work item kept under the id is the one to be
/// written, and it is in the stage that the request asked for; only a work item
/// that goes back to `Ready` after its first time is abandoned instead, the
/// fifth time and later. It was put back once more exactly then, has the
/// assignee of the request if it names one, and is otherwise as it was; so is
/// every other work item.
pub proof fn moved_work_is_where_it_was_sent(
    works: Seq<WorkView>,
    bundles: Seq<BundleView>,
    p: Members,
    named: Option<Role>,
    verdict: VerdictView,
    now: i64,
    id: Seq<char>,
)
    requires
        distinct(works),
    ensures
        ({
            let (after, step) = work_transition(works, bundles, p, named, verdict, now);
            step matches StepView::Persist(w, _) ==> {
                &&& text_of(p, "id"@) == Some(w.id)
                &&& lookup(after, id) == if id == w.id {
                    Some(w)
                } else {
                    lookup(works, id)
                }
                &&& lookup(works, w.id) matches Some(before) && text_of(
                    p,
                    "target_status"@,
                ) matches Some(name) && WorkStatus::of_name(name) matches Some(target) && {
                    let again = target == WorkStatus::Ready && before.status != WorkStatus::Draft;
                    &&& !again ==> w.status == target && w.attempt_count == before.attempt_count
                    &&& again && before.attempt_count < 4 ==> w.status == target
                    &&& again && 4 <= before.attempt_count < u32::MAX ==> w.status
                        == WorkStatus::Abandoned
                    &&& again && before.attempt_count < u32::MAX ==> w.attempt_count
                        == before.attempt_count + 1
                    &&& w.assignee == if text_of(p, "assignee"@) is Some {
                        text_of(p, "assignee"@)
                    } else {
                        before.assignee
                    }
                    &&& w.parent_id == before.parent_id
                    &&& w.title == before.title
                    &&& w.files == before.files
                    &&& w.acceptance_criteria == before.acceptance_criteria
                    &&& w.dependencies == before.dependencies
                    &&& w.created_at == before.created_at
                    &&& w.updated_at == now
                }
            }
        }),
{
    let (after, step) = work_transition(works, bundles, p, named, verdict, now);
    if let StepView::Persist(w, _) = step {
        let mid = text_of(p, "id"@)->0;
        found_under_its_id(works, mid);
        put_then_lookup(works, w, id);
    }
}

/// What the rules allow is carried out exactly if the work item is known and fit
/// for the stage, with the assignee that the request gives it. Clients are told
/// of the stage it left and the one it was sent to, in whose name, and of the
/// reason where the move overrides the ordinary rules.
pub proof fn work_moves_when_allowed_and_fit(
    works: Seq<WorkView>,
    bundles: Seq<BundleView>,
    p: Members,
    named: Option<Role>,
    verdict: VerdictView,
    now: i64,
    id: Seq<char>,
    target: WorkStatus,
    role: Role,
)
    requires
        text_of(p, "id"@) == Some(id),
        text_of(p, "target_status"@) matches Some(name) && WorkStatus::of_name(name) == Some(
            target,
        ),
        if member(p, "role"@) is None {
            role == Role::Coordinator
        } else {
            named == Some(role)
        },
    ensures
        ({
            let (after, step) = work_transition(works, bundles, p, named, verdict, now);
            match lookup(works, id) {
                None => after == works && is_refused_with(step, -32001),
                Some(w) => match verdict {
                    VerdictView::Rejected(reason) => after == works && step == StepView::Reply(
                        Reply::<WorkView>::Refused(RpcErrorView { code: -32000, message: reason }),
                        seq![
                            DaemonEventView::TransitionRejected {
                                collection: "works"@,
                                id,
                                from: w.status.shown(),
                                to: target.shown(),
                                by: Actor::Role(role),
                                reason,
                            },
                        ],
                    ),
                    VerdictView::Unchanged => after == works && step == StepView::Reply(
                        Reply::<WorkView>::Null,
                        Seq::empty(),
                    ),
                    VerdictView::Changed => {
                        let assignee = if text_of(p, "assignee"@) is Some {
                            text_of(p, "assignee"@)
                        } else {
                            w.assignee
                        };
                        if fit_for(w, assignee, bundles, target) {
                            let told = step->Persist_1;
                            &&& step is Persist
                            &&& told[0] == DaemonEventView::TransitionCompleted {
                                collection: "work"@,
                                id,
                                from: w.status.shown(),
                                to: target.shown(),
                                by: Actor::Role(role),
                            }
                            &&& flag_of(p, "override"@) != Some(true) ==> told.len() == 1
                            &&& flag_of(p, "override"@) == Some(true) ==> told.len() == 2
                                && told[1] == DaemonEventView::WorkOverridden {
                                work_id: id,
                                from: w.status.shown(),
                                to: target.shown(),
                                reason: match text_of(p, "reason"@) {
                                    Some(reason) => reason,
                                    None => "no reason provided"@,
                                },
                            }
                        } else {
                            after == put(works, WorkView { assignee, ..w }) && is_refused_with(
                                step,
                                -32005,
                            )
                        }
                    },
                },
            }
        }),
{
    found_under_its_id(works, id);
    live_bundles_are_active(bundles, id);
    if let Some(w) = lookup(works, id) {
        assert(assigned(w, text_of(p, "assignee"@)) =~= (WorkView {
            assignee: if text_of(p, "assignee"@) is Some {
                text_of(p, "assignee"@)
            } else {
                w.assignee
            },
            ..w
        }));
    }
}

/// A move request that lacks an id or a known stage, or that names a role that
/// is none, is refused for its parameters and changes nothing.
pub proof fn work_moves_need_id_stage_and_role(
    works: Seq<WorkView>,
    bundles: Seq<BundleView>,
    p: Members,
    named: Option<Role>,
    verdict: VerdictView,
    now: i64,
)
    requires
        text_of(p, "id"@) is None || text_of(p, "target_status"@) is None || WorkStatus::of_name(
            text_of(p, "target_status"@)->0,
        ) is None || (member(p, "role"@) is Some && named is None),
    ensures
        ({
            let (after, step) = work_transition(works, bundles, p, named, verdict, now);
            after == works && is_refused_with(step, -32602)
        }),
{
}

// -------------------------------------------------------------- making

/// Whether work items can be made under the id: it belongs to a phase, or else
/// to a plan, that is a draft or at work.
pub open spec fn open_parent(
    phases: Seq<PhaseView>,
    plans: Seq<PlanView>,
    id: Seq<char>,
) -> bool {
    let open = |s: HierarchyStatus| s == HierarchyStatus::Draft || s == HierarchyStatus::Active;
    match lookup(phases, id) {
        Some(phase) => open(phase.status),
        None => lookup(plans, id) matches Some(plan) && open(plan.status),
    }
}

/// The work item that a creation makes has what the request lists, all of it and
/// in its order: its parent, its title, its files, and its acceptance criteria,
/// with which it is ready at once. Of the dependencies it has exactly those that
/// are known and are no places in a batch. It begins without an assignee and
/// without an earlier attempt.
pub proof fn made_work_is_what_was_asked_for(
    phases: Seq<PhaseView>,
    plans: Seq<PlanView>,
    works: Seq<WorkView>,
    p: Members,
    id: Seq<char>,
    now: i64,
)
    ensures
        work_creation(phases, plans, works, asked_work(p), id, now) matches StepView::Persist(
            w,
            told,
        ) ==> {
            &&& w.id == id
            &&& text_of(p, "parent_id"@) == Some(w.parent_id)
            &&& text_of(p, "title"@) == Some(w.title)
            &&& all_strings_of(p, "files"@) == Some(w.files)
            &&& match all_strings_of(p, "acceptance_criteria"@) {
                Some(criteria) => w.acceptance_criteria == criteria,
                None => w.acceptance_criteria.len() == 0,
            }
            &&& match all_strings_of(p, "dependencies"@) {
                Some(deps) => holds_those(
                    deps,
                    |d: Seq<char>| lookup(works, d) is Some && !"batch:"@.is_prefix_of(d),
                    w.dependencies,
                ),
                None => w.dependencies.len() == 0,
            }
            &&& w.acceptance_criteria.len() > 0 ==> w.status == WorkStatus::Ready
            &&& w.acceptance_criteria.len() == 0 ==> w.status == WorkStatus::Draft
            &&& w.assignee is None
            &&& w.attempt_count == 0
            &&& w.created_at == now
            &&& w.updated_at == now
            &&& told == seq![DaemonEventView::RecordCreated { collection: "work"@, id }]
        },
{
    let d = asked_work(p);
    let keep = |dep: Seq<char>| crate::work::kept_dependency(works, dep);
    filter_holds_those(
        d.dependencies,
        keep,
        |d: Seq<char>| lookup(works, d) is Some && !"batch:"@.is_prefix_of(d),
    );
    reveal(Seq::filter);
}

/// Whether a work item under the parent that is not abandoned has the title, up
/// to case.
pub open spec fn title_taken(works: Seq<WorkView>, parent: Seq<char>, title: Seq<char>) -> bool {
    exists|i: int|
        0 <= i < works.len() && (#[trigger] works[i]).parent_id == parent && lowercase(
            works[i].title,
        ) == lowercase(title) && works[i].status != WorkStatus::Abandoned
}

/// Whether one of the dependencies that is known, and is no place in a batch, is
/// the id or leads to it.
pub open spec fn leads_back(works: Seq<WorkView>, deps: Seq<Seq<char>>, id: Seq<char>) -> bool {
    exists|d: Seq<char>| #[trigger]
        deps.contains(d) && lookup(works, d) is Some && !"batch:"@.is_prefix_of(d) && leads(
            works,
            d,
            id,
        )
}

/// A work item is made exactly if the request names an open parent and a title
/// that no work item under that parent has, up to case, unless it is abandoned;
/// lists a file; and lists no dependency from which the dependencies lead to the
/// new item. Otherwise the request is refused.
pub proof fn work_is_made_when_nothing_stands_against_it(
    phases: Seq<PhaseView>,
    plans: Seq<PlanView>,
    works: Seq<WorkView>,
    p: Members,
    id: Seq<char>,
    now: i64,
)
    ensures
        ({
            let step = work_creation(phases, plans, works, asked_work(p), id, now);
            let title = text_of(p, "title"@);
            match text_of(p, "parent_id"@) {
                None => is_refused_with(step, -32602),
                Some(parent) => if lookup(phases, parent) is None && lookup(
                    plans,
                    parent,
                ) is None {
                    is_refused_with(step, -32001)
                } else if !open_parent(phases, plans, parent) {
                    is_refused_with(step, -32005)
                } else if title is None || title->0.len() == 0 {
                    is_refused_with(step, -32602)
                } else if title_taken(works, parent, title->0) || all_strings_of(
                    p,
                    "files"@,
                ) is None || all_strings_of(p, "files"@)->0.len() == 0 || (all_strings_of(
                    p,
                    "dependencies"@,
                ) matches Some(deps) && leads_back(works, deps, id)) {
                    is_refused_with(step, -32005)
                } else {
                    step is Persist
                },
            }
        }),
{
    let d = asked_work(p);
    if let Some(parent) = d.parent_id {
        rivals_take_the_title(works, parent, d.title);
    }
    kept_dependencies_lead_back(works, d.dependencies, id);
    if all_strings_of(p, "dependencies"@) is None {
        assert(!leads_back(works, d.dependencies, id));
    }
}

/// A title is taken exactly if some work item stands in the way.
proof fn rivals_take_the_title(works: Seq<WorkView>, parent: Seq<char>, title: Seq<char>)
    ensures
        title_taken(works, parent, title) <==> crate::work::first_rival(
            works,
            parent,
            title,
        ) is Some,
{
    first_rival_exists(works, parent, title);
    if exists|i: int| 0 <= i < works.len() && #[trigger] rivals(works[i], parent, title) {
        let i = choose|i: int| 0 <= i < works.len() && #[trigger] rivals(works[i], parent, title);
        assert(works[i].parent_id == parent);
    }
    if title_taken(works, parent, title) {
        let i = choose|i: int|
            0 <= i < works.len() && (#[trigger] works[i]).parent_id == parent && lowercase(
                works[i].title,
            ) == lowercase(title) && works[i].status != WorkStatus::Abandoned;
        assert(rivals(works[i], parent, title));
    }
}

/// What is taken up of the dependencies leads back where one of them does.
proof fn kept_dependencies_lead_back(works: Seq<WorkView>, deps: Seq<Seq<char>>, id: Seq<char>)
    ensures
        leads_back(works, deps, id) == any_leads(
            works,
            crate::work::kept_dependencies(works, deps),
            id,
        ),
{
    kept_dependencies_are(works, deps);
    let kept = crate::work::kept_dependencies(works, deps);
    if any_leads(works, kept, id) {
        let x = choose|x: Seq<char>| kept.contains(x) && #[trigger] leads(works, x, id);
        assert(deps.contains(x));
    }
    if leads_back(works, deps, id) {
        let x = choose|x: Seq<char>| #[trigger]
            deps.contains(x) && lookup(works, x) is Some && !"batch:"@.is_prefix_of(x) && leads(
                works,
                x,
                id,
            );
        assert(kept.contains(x));
    }
}

/// The dependencies that are taken up are those listed that can be.
proof fn kept_dependencies_are(works: Seq<WorkView>, deps: Seq<Seq<char>>)
    ensures
        forall|x: Seq<char>| #[trigger]
            crate::work::kept_dependencies(works, deps).contains(x) <==> deps.contains(x) && lookup(
                works,
                x,
            ) is Some && !"batch:"@.is_prefix_of(x),
    decreases deps.len(),
{
    reveal(Seq::filter);
    let kept = crate::work::kept_dependencies(works, deps);
    if deps.len() > 0 {
        let rest = deps.drop_last();
        kept_dependencies_are(works, rest);
        let before = crate::work::kept_dependencies(works, rest);
        assert forall|x: Seq<char>| #[trigger] kept.contains(x) <==> deps.contains(x) && lookup(
            works,
            x,
        ) is Some && !"batch:"@.is_prefix_of(x) by {
            let fits = crate::work::kept_dependency(works, deps.last());
            assert(deps =~= rest.push(deps.last()));
            assert(kept =~= if fits {
                before.push(deps.last())
            } else {
                before
            });
            broadcast use vstd::seq_lib::group_seq_properties;

            assert(before.contains(x) <==> rest.contains(x) && lookup(works, x) is Some
                && !"batch:"@.is_prefix_of(x));
        }
    }
}

// ------------------------------------------------------------- changing

/// A work item that is changed has what the request gives and keeps what the
/// request does not speak of; its stage, its attempts, its place and its
/// beginning are beyond the request. The item kept under the id is the one to be
/// written, and no other changes.
pub proof fn changed_work_has_what_was_given(
    works: Seq<WorkView>,
    p: Members,
    now: i64,
    id: Seq<char>,
)
    requires
        distinct(works),
    ensures
        ({
            let (after, step) = work_update_request(works, p, now);
            match step {
                StepView::Reply(..) => after == works,
                StepView::Persist(w, told) => {
                    &&& text_of(p, "id"@) == Some(w.id)
                    &&& told == seq![
                        DaemonEventView::RecordUpdated { collection: "works"@, id: w.id },
                    ]
                    &&& lookup(after, id) == if id == w.id {
                        Some(w)
                    } else {
                        lookup(works, id)
                    }
                    &&& lookup(works, w.id) matches Some(before) && {
                        &&& w.title == match text_of(p, "title"@) {
                            Some(title) => title,
                            None => before.title,
                        }
                        &&& w.assignee == match text_of(p, "assignee"@) {
                            Some(assignee) => Some(assignee),
                            None => before.assignee,
                        }
                        &&& w.files == match strings_of(p, "files"@) {
                            Some(files) => files,
                            None => before.files,
                        }
                        &&& w.acceptance_criteria == match strings_of(p, "acceptance_criteria"@) {
                            Some(criteria) => criteria,
                            None => before.acceptance_criteria,
                        }
                        &&& w.dependencies == match strings_of(p, "dependencies"@) {
                            Some(deps) => deps,
                            None => before.dependencies,
                        }
                        &&& w.parent_id == before.parent_id
                        &&& w.status == before.status
                        &&& w.attempt_count == before.attempt_count
                        &&& w.created_at == before.created_at
                        &&& w.updated_at == now
                    }
                },
            }
        }),
{
    let (after, step) = work_update_request(works, p, now);
    if let StepView::Persist(w, _) = step {
        found_under_its_id(works, text_of(p, "id"@)->0);
        put_then_lookup(works, w, id);
    }
}

/// A work item is changed exactly if the request names one that is known, and
/// none of the dependencies it gives leads back to it.
pub proof fn work_changes_unless_it_would_wait_for_itself(
    works: Seq<WorkView>,
    p: Members,
    now: i64,
)
    ensures
        ({
            let step = work_update_request(works, p, now).1;
            match text_of(p, "id"@) {
                None => is_refused_with(step, -32602),
                Some(id) => {
                    let circular = strings_of(p, "dependencies"@) matches Some(deps) && exists|
                        d: Seq<char>,
                    | #[trigger]
                        deps.contains(d) && leads(works, d, id);
                    if circular {
                        is_refused_with(step, -32005)
                    } else if lookup(works, id) is None {
                        is_refused_with(step, -32001)
                    } else {
                        step is Persist
                    }
                },
            }
        }),
{
    if let (Some(id), Some(deps)) = (text_of(p, "id"@), strings_of(p, "dependencies"@)) {
        if any_leads(works, deps, id) {
            let d = choose|d: Seq<char>| deps.contains(d) && #[trigger]
                leads(works, d, id);
            assert(deps.contains(d));
        }
    }
}

// ------------------------------------------------------------- reading

/// A move that is read from a request is about the id, the stage and the role
/// that the request names; it overrides the rules only where the request says
/// so, and has the reason and the assignee of the request.
pub proof fn work_moves_are_read_as_asked(p: Members, named: Option<Role>)
    ensures
        asked_work_move(p, named) matches Ok(m) ==> {
            &&& text_of(p, "id"@) == Some(m.id)
            &&& text_of(p, "target_status"@) matches Some(name) && WorkStatus::of_name(name)
                == Some(m.target)
            &&& m.role == Role::Coordinator || named == Some(m.role)
            &&& member(p, "role"@) is Some ==> named == Some(m.role)
            &&& m.is_override <==> flag_of(p, "override"@) == Some(true)
            &&& text_of(p, "reason"@) matches Some(reason) ==> m.reason == reason
            &&& m.assignee == text_of(p, "assignee"@)
        },
        asked_work_move(p, named) is Ok <==> text_of(p, "id"@) is Some && (text_of(
            p,
            "target_status"@,
        ) matches Some(name) && WorkStatus::of_name(name) is Some) && (member(p, "role"@) is None
            || named is Some),
{
}

/// Attempts are counted without a gap: a work item whose attempts can be counted
/// has one more after it is put back, and only a full count stands in the way.
pub proof fn attempts_are_counted_one_by_one(
    works: Seq<WorkView>,
    bundles: Seq<BundleView>,
    m: WorkMoveView,
    verdict: VerdictView,
    now: i64,
)
    ensures
        ({
            let step = moved_work(works, bundles, m, verdict, now).1;
            let can = countable(works, bundles, m, verdict);
            &&& lookup(works, m.id) is None ==> can
            &&& lookup(works, m.id) matches Some(w) ==> (w.attempt_count < u32::MAX ==> can)
            &&& !can ==> step is Persist
            &&& step is Persist && can ==> (lookup(works, m.id) matches Some(w)
                && step->Persist_0.attempt_count == w.attempt_count + (if m.target
                == WorkStatus::Ready && w.status != WorkStatus::Draft {
                1int
            } else {
                0int
            }))
        }),
{
}

/// The reasons that keep a work item from a stage, the assignee before the
/// bundle.
pub proof fn obstacles_say_what_is_missing(
    w: WorkView,
    bundles: Seq<BundleView>,
    target: WorkStatus,
)
    ensures
        obstacle(w, bundles, target) is None <==> fit_for(w, w.assignee, bundles, target),
        (target == WorkStatus::InProgress || target == WorkStatus::InReview) && w.assignee is None
            ==> obstacle(w, bundles, target) == Some(
            "Work must have an assignee before transitioning to InProgress/InReview"@,
        ),
        target == WorkStatus::Ready && w.acceptance_criteria.len() == 0 ==> obstacle(
            w,
            bundles,
            target,
        ) == Some("Work must have acceptance_criteria before transitioning to Ready"@),
        target == WorkStatus::InReview && w.assignee is Some && !has_active_bundle(bundles, w.id)
            ==> obstacle(w, bundles, target) == Some(
            "Work cannot move to InReview without an active Bundle"@,
        ),
{
    live_bundles_are_active(bundles, w.id);
}

/// A request for a title that is taken is told so with the first work item that
/// has it: its parent, its status and its id.
pub proof fn duplicates_are_told_with_the_first_rival(
    phases: Seq<PhaseView>,
    plans: Seq<PlanView>,
    works: Seq<WorkView>,
    d: WorkDraftView,
    id: Seq<char>,
    now: i64,
    i: int,
)
    requires
        d.parent_id is Some,
        open_parent(phases, plans, d.parent_id->0),
        d.title.len() > 0,
        0 <= i < works.len(),
        works[i].parent_id == d.parent_id->0,
        lowercase(works[i].title) == lowercase(d.title),
        works[i].status != WorkStatus::Abandoned,
        !title_taken(works.take(i), d.parent_id->0, d.title),
    ensures
        work_creation(phases, plans, works, d, id, now) == StepView::Reply(
            Reply::<WorkView>::Refused(
                RpcErrorView {
                    code: -32005,
                    message: "Duplicate work '"@ + d.title + "' already exists in phase "@
                        + d.parent_id->0 + " with status "@ + works[i].status.shown() + " (ID: "@
                        + works[i].id + ")"@,
                },
            ),
            Seq::empty(),
        ),
{
    let parent = d.parent_id->0;
    rivals_take_the_title(works.take(i), parent, d.title);
    let first = works.take(i + 1);
    assert(first.drop_last() =~= works.take(i));
    assert(first.last() == works[i]);
    crate::work::rival_found_first(works, i + 1, parent, d.title);
}

} // verus!
