//! The moves of work items from stage to stage, and what they set free.

use crate::hierarchy::{asked_role, read_role};
use crate::params::{flag_of, text_of, Members, Params};
use crate::protocol::{
    answers, events_view, invalid_params, not_found, precondition_failed, transition_rejected,
    Actor, DaemonEvent, DaemonEventView, DaemonRequest, Outcome, Reply, RpcError, RpcErrorView,
};
use crate::records::{Bundle, BundleView, Work, WorkView};
use crate::status::{Role, Verdict, VerdictView, WorkStatus};
use crate::steps::{
    refuse, settle, settled, settled_events, takes, write_view, Pending, Step, StepView,
};
use crate::table::{lookup, put, Record, Table};
use crate::text::{copy, copy_opt, opt_text, same, text_or};
use crate::work::MAX_WORK_ATTEMPTS;
use vstd::prelude::*;

verus! {

/// A move that a request asks for.
#[derive(Debug)]
pub struct WorkMove {
    pub id: String,
    pub target: WorkStatus,
    pub role: Role,
    /// Whether the rules for overrides are to judge the move.
    pub is_override: bool,
    /// Why the move overrides the ordinary rules.
    pub reason: String,
    /// The assignee that the work item gets with the move.
    pub assignee: Option<String>,
}

#[verifier::ext_equal]
pub struct WorkMoveView {
    pub id: Seq<char>,
    pub target: WorkStatus,
    pub role: Role,
    pub is_override: bool,
    pub reason: Seq<char>,
    pub assignee: Option<Seq<char>>,
}

impl View for WorkMove {
    type V = WorkMoveView;

    open spec fn view(&self) -> WorkMoveView {
        WorkMoveView {
            id: self.id@,
            target: self.target,
            role: self.role,
            is_override: self.is_override,
            reason: self.reason@,
            assignee: opt_text(self.assignee),
        }
    }
}

/// The move that parameters ask for, or why they ask for none.
pub open spec fn asked_work_move(p: Members, named: Option<Role>) -> Result<
    WorkMoveView,
    RpcErrorView,
> {
    match text_of(p, "id"@) {
        None => Err(invalid_params("id is required"@)),
        Some(id) => match text_of(p, "target_status"@) {
            None => Err(invalid_params("target_status is required"@)),
            Some(name) => match WorkStatus::of_name(name) {
                None => Err(invalid_params("invalid target_status"@)),
                Some(target) => match asked_role(p, named, Role::Coordinator) {
                    None => Err(invalid_params("invalid role"@)),
                    Some(role) => Ok(
                        WorkMoveView {
                            id,
                            target,
                            role,
                            is_override: flag_of(p, "override"@) == Some(true),
                            reason: text_or(text_of(p, "reason"@), "no reason provided"@),
                            assignee: text_of(p, "assignee"@),
                        },
                    ),
                },
            },
        },
    }
}

impl WorkMove {
    /// Reads the move that parameters ask for. Without a role it is the
    /// coordinator's.
    pub fn read(p: &Params, named: Option<Role>) -> (r: Result<WorkMove, RpcError>)
        ensures
            match r {
                Ok(m) => asked_work_move(p@, named) == Ok::<WorkMoveView, RpcErrorView>(m@),
                Err(e) => asked_work_move(p@, named) == Err::<WorkMoveView, RpcErrorView>(e@),
            },
    {
        let id: String = match p.text("id") {
            Some(id) => id,
            None => {
                return Err(RpcError::invalid_params("id is required"));
            },
        };
        let name: String = match p.text("target_status") {
            Some(name) => name,
            None => {
                return Err(RpcError::invalid_params("target_status is required"));
            },
        };
        let target: WorkStatus = match WorkStatus::from_name(name.as_str()) {
            Some(target) => target,
            None => {
                return Err(RpcError::invalid_params("invalid target_status"));
            },
        };
        let role: Role = match read_role(p, named, Role::Coordinator) {
            Some(role) => role,
            None => {
                return Err(RpcError::invalid_params("invalid role"));
            },
        };
        let is_override: bool = match p.flag("override") {
            Some(b) => b,
            None => false,
        };
        let reason: String = match p.text("reason") {
            Some(reason) => reason,
            None => copy("no reason provided"),
        };
        let assignee: Option<String> = p.text("assignee");
        Ok(WorkMove { id, target, role, is_override, reason, assignee })
    }
}

/// Whether some bundle that still counts belongs to the work item.
pub open spec fn has_live_bundle(bundles: Seq<BundleView>, work_id: Seq<char>) -> bool {
    exists|i: int|
        0 <= i < bundles.len() && (#[trigger] bundles[i]).work_id == work_id
            && bundles[i].status.is_live()
}

/// Whether some bundle that still counts belongs to the work item.
pub fn live_bundle(bundles: &Table<Bundle>, work_id: &str) -> (r: bool)
    ensures
        r == has_live_bundle(bundles@, work_id@),
{
    let n: usize = bundles.len();
    let mut i: usize = 0;
    while i < n
        invariant
            n == bundles@.len(),
            i <= n,
            forall|j: int|
                0 <= j < i ==> !((#[trigger] bundles@[j]).work_id == work_id@
                    && bundles@[j].status.is_live()),
        decreases n - i,
    {
        let b: &Bundle = bundles.row(i);
        if same(b.work_id.as_str(), work_id) && b.status.live() {
            assert(bundles@[i as int].work_id == work_id@);
            return true;
        }
        i = i + 1;
    }
    false
}

/// What keeps a work item from a stage that the rules let it move to.
pub open spec fn obstacle(
    w: WorkView,
    bundles: Seq<BundleView>,
    target: WorkStatus,
) -> Option<Seq<char>> {
    if (target is InProgress || target is InReview) && w.assignee is None {
        Some("Work must have an assignee before transitioning to InProgress/InReview"@)
    } else if target is Ready && w.acceptance_criteria.len() == 0 {
        Some("Work must have acceptance_criteria before transitioning to Ready"@)
    } else if target is InReview && !has_live_bundle(bundles, w.id) {
        Some("Work cannot move to InReview without an active Bundle"@)
    } else {
        None
    }
}

fn find_obstacle(w: &Work, bundles: &Table<Bundle>, target: WorkStatus) -> (r: Option<&'static str>)
    ensures
        match r {
            Some(s) => obstacle(w@, bundles@, target) == Some(s@),
            None => obstacle(w@, bundles@, target) is None,
        },
{
    if matches!(target, WorkStatus::InProgress | WorkStatus::InReview) && w.assignee.is_none() {
        return Some("Work must have an assignee before transitioning to InProgress/InReview");
    }
    if target == WorkStatus::Ready && w.acceptance_criteria.is_empty() {
        return Some("Work must have acceptance_criteria before transitioning to Ready");
    }
    if target == WorkStatus::InReview && !live_bundle(bundles, w.id.as_str()) {
        return Some("Work cannot move to InReview without an active Bundle");
    }
    None
}

/// The work item with the assignee that a move gives it, if any.
pub open spec fn assigned(w: WorkView, assignee: Option<Seq<char>>) -> WorkView {
    match assignee {
        Some(a) => WorkView { assignee: Some(a), ..w },
        None => w,
    }
}

/// Whether the move puts a work item back that was begun before.
pub open spec fn is_reset(w: WorkView, target: WorkStatus) -> bool {
    target is Ready && !(w.status is Draft)
}

/// The work item after a move. A work item that is put back counts it, and is
/// abandoned instead once it was put back too often.
pub open spec fn advanced(w: WorkView, target: WorkStatus, now: i64) -> WorkView {
    if is_reset(w, target) {
        let attempts = (w.attempt_count + 1) as u32;
        WorkView {
            attempt_count: attempts,
            status: if attempts >= MAX_WORK_ATTEMPTS {
                WorkStatus::Abandoned
            } else {
                target
            },
            updated_at: now,
            ..w
        }
    } else {
        WorkView { status: target, updated_at: now, ..w }
    }
}

/// What clients are told of a move.
pub open spec fn move_events(from: WorkStatus, m: WorkMoveView) -> Seq<DaemonEventView> {
    let completed = DaemonEventView::TransitionCompleted {
        collection: "work"@,
        id: m.id,
        from: from.shown(),
        to: m.target.shown(),
        by: Actor::Role(m.role),
    };
    if m.is_override {
        seq![
            completed,
            DaemonEventView::WorkOverridden {
                work_id: m.id,
                from: from.shown(),
                to: m.target.shown(),
                reason: m.reason,
            },
        ]
    } else {
        seq![completed]
    }
}

/// What a move makes of the work items, and its next step. A work item that
/// the rules let move takes its assignee even if something else then holds it.
pub open spec fn moved_work(
    works: Seq<WorkView>,
    bundles: Seq<BundleView>,
    m: WorkMoveView,
    verdict: VerdictView,
    now: i64,
) -> (Seq<WorkView>, StepView<WorkView>) {
    match lookup(works, m.id) {
        None => (works, StepView::Reply(Reply::Refused(not_found("work"@, m.id)), Seq::empty())),
        Some(w) => match verdict {
            VerdictView::Rejected(reason) => (
                works,
                StepView::Reply(
                    Reply::Refused(transition_rejected(reason)),
                    seq![
                        DaemonEventView::TransitionRejected {
                            collection: "works"@,
                            id: m.id,
                            from: w.status.shown(),
                            to: m.target.shown(),
                            by: Actor::Role(m.role),
                            reason,
                        },
                    ],
                ),
            ),
            VerdictView::Unchanged => (works, StepView::Reply(Reply::Null, Seq::empty())),
            VerdictView::Changed => {
                let a = assigned(w, m.assignee);
                match obstacle(a, bundles, m.target) {
                    Some(reason) => (
                        put(works, a),
                        StepView::Reply(
                            Reply::Refused(precondition_failed(reason)),
                            Seq::empty(),
                        ),
                    ),
                    None => (
                        put(works, advanced(a, m.target, now)),
                        StepView::Persist(
                            advanced(a, m.target, now),
                            move_events(w.status, m),
                        ),
                    ),
                }
            },
        },
    }
}

/// Whether a move that is carried out and puts a work item back finds room to
/// count it.
pub open spec fn countable(
    works: Seq<WorkView>,
    bundles: Seq<BundleView>,
    m: WorkMoveView,
    verdict: VerdictView,
) -> bool {
    lookup(works, m.id) matches Some(w) ==> verdict is Changed && obstacle(
        assigned(w, m.assignee),
        bundles,
        m.target,
    ) is None && is_reset(w, m.target) ==> w.attempt_count < u32::MAX
}

/// Whether a move that is carried out and puts a work item back finds room to
/// count it.
pub fn can_count(
    works: &Table<Work>,
    bundles: &Table<Bundle>,
    m: &WorkMove,
    verdict: &Verdict,
) -> (r: bool)
    ensures
        r == countable(works@, bundles@, m@, verdict@),
{
    let mut w: Work = match works.get(m.id.as_str()) {
        Some(w) => w.copied(),
        None => {
            return true;
        },
    };
    let ghost before = w@;
    if m.assignee.is_some() {
        w.assignee = copy_opt(&m.assignee);
    }
    assert(w@ =~= assigned(before, m@.assignee));
    let counted: bool = matches!(verdict, Verdict::Changed) && m.target == WorkStatus::Ready
        && w.status != WorkStatus::Draft && find_obstacle(&w, bundles, m.target).is_none();
    !counted || w.attempt_count < u32::MAX
}

/// Carries out a move: the work item changes at once and has then to be written.
pub fn move_work(
    works: &mut Table<Work>,
    bundles: &Table<Bundle>,
    request: u64,
    m: &WorkMove,
    verdict: Verdict,
    now: i64,
) -> (r: Step<Work>)
    requires
        countable(old(works)@, bundles@, m@, verdict@),
    ensures
        final(works)@ == moved_work(old(works)@, bundles@, m@, verdict@, now).0,
        takes(r, request, moved_work(old(works)@, bundles@, m@, verdict@, now).1),
{
    let mut w: Work = match works.get(m.id.as_str()) {
        Some(w) => w.copied(),
        None => {
            return refuse(request, RpcError::not_found("work", m.id.as_str()));
        },
    };
    let from: WorkStatus = w.status;
    match verdict {
        Verdict::Rejected(reason) => {
            let event: DaemonEvent = DaemonEvent::transition_rejected(
                "works",
                m.id.as_str(),
                from.name(),
                m.target.name(),
                Actor::Role(m.role),
                reason.as_str(),
            );
            return Step::Reply(
                Outcome::refuse_and_tell(
                    request,
                    RpcError::transition_rejected(reason.as_str()),
                    event,
                ),
            );
        },
        Verdict::Unchanged => {
            return Step::Reply(Outcome::null(request));
        },
        Verdict::Changed => {},
    }
    let ghost before = w@;
    if m.assignee.is_some() {
        w.assignee = copy_opt(&m.assignee);
    }
    assert(w@ =~= assigned(before, m@.assignee));
    match find_obstacle(&w, bundles, m.target) {
        Some(reason) => {
            works.put(w);
            return refuse(request, RpcError::precondition_failed(reason));
        },
        None => {},
    }
    let ghost a = w@;
    if m.target == WorkStatus::Ready && from != WorkStatus::Draft {
        w.attempt_count = w.attempt_count + 1;
        w.status = if w.attempt_count >= MAX_WORK_ATTEMPTS {
            WorkStatus::Abandoned
        } else {
            m.target
        };
    } else {
        w.status = m.target;
    }
    w.updated_at = now;
    assert(w@ =~= advanced(a, m.target, now));
    works.put(w.copied());
    let mut events: Vec<DaemonEvent> = Vec::new();
    events.push(
        DaemonEvent::transition_completed(
            "work",
            m.id.as_str(),
            from.name(),
            m.target.name(),
            Actor::Role(m.role),
        ),
    );
    if m.is_override {
        events.push(
            DaemonEvent::WorkOverridden {
                work_id: copy(m.id.as_str()),
                from: copy(from.name()),
                to: copy(m.target.name()),
                reason: copy(m.reason.as_str()),
            },
        );
    }
    assert(events_view(events@) =~= move_events(from, m@));
    Step::Persist(Pending { request, record: w, events })
}

/// What a transition request makes of the work items, and its next step.
pub open spec fn work_transition(
    works: Seq<WorkView>,
    bundles: Seq<BundleView>,
    p: Members,
    named: Option<Role>,
    verdict: VerdictView,
    now: i64,
) -> (Seq<WorkView>, StepView<WorkView>) {
    match asked_work_move(p, named) {
        Err(e) => (works, StepView::Reply(Reply::Refused(e), Seq::empty())),
        Ok(m) => moved_work(works, bundles, m, verdict, now),
    }
}

/// Answers a transition request for a work item.
pub fn handle_work_transition(
    works: &mut Table<Work>,
    bundles: &Table<Bundle>,
    req: &DaemonRequest,
    named: Option<Role>,
    verdict: Verdict,
    now: i64,
) -> (r: Step<Work>)
    requires
        asked_work_move(req.params@, named) matches Ok(m) ==> countable(
            old(works)@,
            bundles@,
            m,
            verdict@,
        ),
    ensures
        final(works)@ == work_transition(old(works)@, bundles@, req.params@, named, verdict@, now).0,
        takes(r, req.id, work_transition(old(works)@, bundles@, req.params@, named, verdict@, now).1),
{
    match WorkMove::read(&req.params, named) {
        Err(e) => refuse(req.id, e),
        Ok(m) => move_work(works, bundles, req.id, &m, verdict, now),
    }
}

// ---------------------------------------------------------------- freeing

/// Whether a dependency holds nothing up, now that the work item `done` is done.
pub open spec fn satisfied(works: Seq<WorkView>, done: Seq<char>, dep: Seq<char>) -> bool {
    dep == done || (lookup(works, dep) matches Some(d) && d.status is Done)
}

/// Whether a work item was blocked and nothing holds it up any more.
pub open spec fn freed(works: Seq<WorkView>, done: Seq<char>, w: WorkView) -> bool {
    &&& w.status is Blocked
    &&& forall|k: int|
        0 <= k < w.dependencies.len() ==> satisfied(works, done, #[trigger] w.dependencies[k])
}

/// The work item, ready since the time `now`.
pub open spec fn ready(w: WorkView, now: i64) -> WorkView {
    WorkView { status: WorkStatus::Ready, updated_at: now, ..w }
}

/// The work items once everything is ready that nothing holds up.
pub open spec fn unblocked(works: Seq<WorkView>, done: Seq<char>, now: i64) -> Seq<WorkView> {
    works.map_values(
        |w: WorkView|
            if freed(works, done, w) {
                ready(w, now)
            } else {
                w
            },
    )
}

/// The work items that become ready, in their order.
pub open spec fn newly_ready(works: Seq<WorkView>, done: Seq<char>, now: i64) -> Seq<WorkView> {
    works.filter(|w: WorkView| freed(works, done, w)).map_values(|w: WorkView| ready(w, now))
}

/// What clients are told of a work item that was freed.
pub open spec fn freed_event(id: Seq<char>) -> DaemonEventView {
    DaemonEventView::TransitionCompleted {
        collection: "work"@,
        id,
        from: "Blocked"@,
        to: "Ready"@,
        by: Actor::System,
    }
}

fn is_freed(works: &Table<Work>, done: &str, w: &Work) -> (r: bool)
    ensures
        r == freed(works@, done@, w@),
{
    if w.status != WorkStatus::Blocked {
        return false;
    }
    let mut k: usize = 0;
    while k < w.dependencies.len()
        invariant
            k <= w.dependencies@.len(),
            forall|j: int|
                0 <= j < k ==> satisfied(works@, done@, #[trigger] w@.dependencies[j]),
        decreases w.dependencies@.len() - k,
    {
        let dep: &String = &w.dependencies[k];
        assert(w@.dependencies[k as int] == dep@);
        let free: bool = same(dep.as_str(), done) || match works.get(dep.as_str()) {
            Some(d) => d.status == WorkStatus::Done,
            None => false,
        };
        if !free {
            return false;
        }
        k = k + 1;
    }
    true
}

/// Makes every blocked work item ready that the work item `done` and others
/// that are done no longer hold up, and gives those items. Each of them has
/// then to be written, and is told of once it is.
pub fn unblock_dependents(works: &mut Table<Work>, request: u64, done: &str, now: i64) -> (r: Vec<
    Pending<Work>,
>)
    ensures
        final(works)@ == unblocked(old(works)@, done@, now),
        r@.map_values(|p: Pending<Work>| p.record@) == newly_ready(old(works)@, done@, now),
        forall|i: int|
            0 <= i < r@.len() ==> (#[trigger] r@[i]).request == request && events_view(
                r@[i].events@,
            ) == seq![freed_event(r@[i].record@.id)],
{
    let ghost before = works@;
    let n: usize = works.len();
    let mut flags: Vec<bool> = Vec::new();
    let mut i: usize = 0;
    while i < n
        invariant
            before == works@,
            n == before.len(),
            i <= n,
            flags@.len() == i,
            forall|j: int| 0 <= j < i ==> flags@[j] == freed(before, done@, #[trigger] before[j]),
        decreases n - i,
    {
        let free: bool = is_freed(works, done, works.row(i));
        flags.push(free);
        i = i + 1;
    }
    let ghost keep = |w: WorkView| freed(before, done@, w);
    let ghost wake = |w: WorkView| ready(w, now);
    let mut r: Vec<Pending<Work>> = Vec::new();
    let mut k: usize = 0;
    proof {
        reveal(Seq::filter);
        assert(before.take(0) =~= Seq::empty());
        assert(r@.map_values(|p: Pending<Work>| p.record@) =~= before.take(0).filter(
            keep,
        ).map_values(wake));
    }
    while k < n
        invariant
            n == before.len(),
            works@.len() == n,
            k <= n,
            flags@.len() == n,
            forall|j: int| 0 <= j < n ==> flags@[j] == freed(before, done@, #[trigger] before[j]),
            forall|j: int|
                0 <= j < n ==> (#[trigger] works@[j]) == if j < k && freed(
                    before,
                    done@,
                    before[j],
                ) {
                    ready(before[j], now)
                } else {
                    before[j]
                },
            keep == (|w: WorkView| freed(before, done@, w)),
            wake == (|w: WorkView| ready(w, now)),
            r@.map_values(|p: Pending<Work>| p.record@) == before.take(k as int).filter(
                keep,
            ).map_values(wake),
            forall|i: int|
                0 <= i < r@.len() ==> (#[trigger] r@[i]).request == request && events_view(
                    r@[i].events@,
                ) == seq![freed_event(r@[i].record@.id)],
        decreases n - k,
    {
        proof {
            reveal(Seq::filter);
            assert(before.take(k + 1).drop_last() =~= before.take(k as int));
            assert(before.take(k + 1).last() == before[k as int]);
            assert(keep(before[k as int]) == flags@[k as int]);
        }
        let ghost sofar = before.take(k as int).filter(keep);
        if flags[k] {
            let mut w: Work = works.row(k).copied();
            w.status = WorkStatus::Ready;
            w.updated_at = now;
            assert(w@ =~= ready(before[k as int], now));
            works.replace(k, w.copied());
            let mut events: Vec<DaemonEvent> = Vec::new();
            events.push(
                DaemonEvent::transition_completed(
                    "work",
                    w.id.as_str(),
                    "Blocked",
                    "Ready",
                    Actor::System,
                ),
            );
            assert(events_view(events@) =~= seq![freed_event(w@.id)]);
            let ghost rs = r@.map_values(|p: Pending<Work>| p.record@);
            r.push(Pending { request, record: w, events });
            proof {
                assert(before.take(k + 1).filter(keep) == sofar.push(before[k as int]));
                assert(sofar.push(before[k as int]).map_values(wake) =~= sofar.map_values(
                    wake,
                ).push(ready(before[k as int], now)));
                assert(r@.map_values(|p: Pending<Work>| p.record@) =~= rs.push(w@));
            }
        }
        k = k + 1;
    }
    proof {
        assert(before.take(n as int) =~= before);
        assert(works@ =~= unblocked(before, done@, now));
    }
    r
}

/// What is left to do once a moved work item was written or not.
#[derive(Debug)]
pub struct WorkSettled {
    /// The answer to the request.
    pub outcome: Outcome<Work>,
    /// The work items that the move set free, each still to be written.
    pub freed: Vec<Pending<Work>>,
}

/// Whether a write of the work item sets others free.
pub open spec fn frees(rec: WorkView, written: Result<(), Seq<char>>) -> bool {
    written is Ok && rec.status is Done
}

/// Answers a transition request once the work item was written or not. A work
/// item that is done and written sets others free.
pub fn settle_work(
    works: &mut Table<Work>,
    p: Pending<Work>,
    written: Result<(), String>,
    now: i64,
) -> (r: WorkSettled)
    ensures
        answers(
            r.outcome,
            p.request,
            settled(p.record@, write_view(written)),
            settled_events(events_view(p.events@), write_view(written)),
        ),
        frees(p.record@, write_view(written)) ==> {
            &&& final(works)@ == unblocked(old(works)@, p.record@.id, now)
            &&& r.freed@.map_values(|q: Pending<Work>| q.record@) == newly_ready(
                old(works)@,
                p.record@.id,
                now,
            )
        },
        !frees(p.record@, write_view(written)) ==> final(works)@ == old(works)@ && r.freed@.len()
            == 0,
        forall|i: int|
            0 <= i < r.freed@.len() ==> (#[trigger] r.freed@[i]).request == p.request
                && events_view(r.freed@[i].events@) == seq![freed_event(r.freed@[i].record@.id)],
{
    let freed: Vec<Pending<Work>> = if written.is_ok() && p.record.status == WorkStatus::Done {
        unblock_dependents(works, p.request, p.record.id.as_str(), now)
    } else {
        Vec::new()
    };
    WorkSettled { outcome: settle(p, written), freed }
}

} // verus!
