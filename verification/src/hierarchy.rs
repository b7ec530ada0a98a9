//! The moves of plans, specs and phases from stage to stage, which all follow
//! the same course.

use crate::params::{flag_of, member, text_of, Members, Params};
use crate::protocol::{
    invalid_params, not_found, precondition_failed, transition_rejected, Actor, DaemonEvent,
    DaemonEventView, DaemonRequest, Outcome, Reply, RpcError, RpcErrorView,
};
use crate::records::{Phase, PhaseView, Plan, PlanView, Spec, SpecView};
use crate::status::{HierarchyStatus, Role, Verdict, VerdictView};
use crate::steps::{
    is_refused_with, persist, refuse, takes, Child, ChildView, Step, StepView,
};
use crate::table::{distinct, lookup, place, put, put_then_lookup, Keyed, Record, Table};
use crate::text::{joined, opt_text, same};
use vstd::prelude::*;
use vstd::string::*;

verus! {

/// The view of a record that passes through the stages of the hierarchy.
pub trait StagedView: Keyed {
    /// The stage.
    spec fn stage(self) -> HierarchyStatus;

    /// The record once it has moved to the stage at the time `now`.
    spec fn at_stage(self, stage: HierarchyStatus, now: i64) -> Self;

    /// A record that has moved is in the stage and is still the same record.
    proof fn moving_keeps_identity(self, stage: HierarchyStatus, now: i64)
        ensures
            self.at_stage(stage, now).stage() == stage,
            self.at_stage(stage, now).key() == self.key(),
    ;
}

/// A record that passes through the stages of the hierarchy.
pub trait Staged: Record where <Self as View>::V: Keyed + StagedView {
    /// The stage.
    fn stage(&self) -> (r: HierarchyStatus)
        ensures
            r == self@.stage(),
    ;

    /// Moves to the stage at the time `now`.
    fn set_stage(&mut self, stage: HierarchyStatus, now: i64)
        ensures
            final(self)@ == old(self)@.at_stage(stage, now),
    ;
}

impl StagedView for PlanView {
    open spec fn stage(self) -> HierarchyStatus {
        self.status
    }

    open spec fn at_stage(self, stage: HierarchyStatus, now: i64) -> Self {
        PlanView { status: stage, updated_at: now, ..self }
    }

    proof fn moving_keeps_identity(self, stage: HierarchyStatus, now: i64) {
    }
}

impl Staged for Plan {
    fn stage(&self) -> (r: HierarchyStatus) {
        self.status
    }

    fn set_stage(&mut self, stage: HierarchyStatus, now: i64) {
        self.status = stage;
        self.updated_at = now;
    }
}

impl StagedView for SpecView {
    open spec fn stage(self) -> HierarchyStatus {
        self.status
    }

    open spec fn at_stage(self, stage: HierarchyStatus, now: i64) -> Self {
        SpecView { status: stage, updated_at: now, ..self }
    }

    proof fn moving_keeps_identity(self, stage: HierarchyStatus, now: i64) {
    }
}

impl Staged for Spec {
    fn stage(&self) -> (r: HierarchyStatus) {
        self.status
    }

    fn set_stage(&mut self, stage: HierarchyStatus, now: i64) {
        self.status = stage;
        self.updated_at = now;
    }
}

impl StagedView for PhaseView {
    open spec fn stage(self) -> HierarchyStatus {
        self.status
    }

    open spec fn at_stage(self, stage: HierarchyStatus, now: i64) -> Self {
        PhaseView { status: stage, updated_at: now, ..self }
    }

    proof fn moving_keeps_identity(self, stage: HierarchyStatus, now: i64) {
    }
}

impl Staged for Phase {
    fn stage(&self) -> (r: HierarchyStatus) {
        self.status
    }

    fn set_stage(&mut self, stage: HierarchyStatus, now: i64) {
        self.status = stage;
        self.updated_at = now;
    }
}

/// The role in which a request is made: `default` where the parameters name
/// none, else `named`, which is what the name stands for; `None` where it
/// stands for no role.
pub open spec fn asked_role(p: Members, named: Option<Role>, default: Role) -> Option<Role> {
    match member(p, "role"@) {
        None => Some(default),
        Some(_) => named,
    }
}

/// The role in which a request is made, given what the name stands for.
pub fn read_role(p: &Params, named: Option<Role>, default: Role) -> (r: Option<Role>)
    ensures
        r == asked_role(p@, named, default),
{
    match p.member("role") {
        None => Some(default),
        Some(_) => named,
    }
}

/// A move that a request asks for.
#[derive(Debug)]
pub struct HierarchyMove {
    pub id: String,
    pub target: HierarchyStatus,
    pub role: Role,
    /// Whether the move is to go ahead without a validation report.
    pub skip_validation: bool,
    pub skip_reason: Option<String>,
}

#[verifier::ext_equal]
pub struct HierarchyMoveView {
    pub id: Seq<char>,
    pub target: HierarchyStatus,
    pub role: Role,
    pub skip_validation: bool,
    pub skip_reason: Option<Seq<char>>,
}

impl View for HierarchyMove {
    type V = HierarchyMoveView;

    open spec fn view(&self) -> HierarchyMoveView {
        HierarchyMoveView {
            id: self.id@,
            target: self.target,
            role: self.role,
            skip_validation: self.skip_validation,
            skip_reason: opt_text(self.skip_reason),
        }
    }
}

/// The move that parameters ask for, or why they ask for none.
pub open spec fn asked_move(p: Members, named: Option<Role>) -> Result<HierarchyMoveView, RpcErrorView> {
    match text_of(p, "id"@) {
        None => Err(invalid_params("id is required"@)),
        Some(id) => match text_of(p, "target_status"@) {
            None => Err(invalid_params("target_status is required"@)),
            Some(name) => match HierarchyStatus::of_name(name) {
                None => Err(invalid_params("invalid target_status"@)),
                Some(target) => match asked_role(p, named, Role::Coordinator) {
                    None => Err(invalid_params("invalid role"@)),
                    Some(role) => Ok(
                        HierarchyMoveView {
                            id,
                            target,
                            role,
                            skip_validation: flag_of(p, "skip_validation"@) == Some(true),
                            skip_reason: text_of(p, "skip_reason"@),
                        },
                    ),
                },
            },
        },
    }
}

impl HierarchyMove {
    /// Reads the move that parameters ask for. Without a role it is the
    /// coordinator's.
    pub fn read(p: &Params, named: Option<Role>) -> (r: Result<HierarchyMove, RpcError>)
        ensures
            match r {
                Ok(m) => asked_move(p@, named) == Ok::<HierarchyMoveView, RpcErrorView>(m@),
                Err(e) => asked_move(p@, named) == Err::<HierarchyMoveView, RpcErrorView>(e@),
            },
    {
        let id: String = match p.text("id") {
            Some(id) => id,
            None => {
                return Err(RpcError::invalid_params("id is required"));
            },
        };
        let name: String = match p.text("target_status") {
            Some(name) => name,
            None => {
                return Err(RpcError::invalid_params("target_status is required"));
            },
        };
        let target: HierarchyStatus = match HierarchyStatus::from_name(name.as_str()) {
            Some(target) => target,
            None => {
                return Err(RpcError::invalid_params("invalid target_status"));
            },
        };
        let role: Role = match read_role(p, named, Role::Coordinator) {
            Some(role) => role,
            None => {
                return Err(RpcError::invalid_params("invalid role"));
            },
        };
        let skip_validation: bool = match p.flag("skip_validation") {
            Some(b) => b,
            None => false,
        };
        let skip_reason: Option<String> = p.text("skip_reason");
        Ok(HierarchyMove { id, target, role, skip_validation, skip_reason })
    }
}

/// What a move makes of the records of a kind, and its next step. `kind` and
/// `kinds` name one and many of them. The rules of the stages have the first
/// word, the validation gate the second.
pub open spec fn moved<V: StagedView>(
    rows: Seq<V>,
    kind: Seq<char>,
    kinds: Seq<char>,
    m: HierarchyMoveView,
    verdict: VerdictView,
    gate: Option<RpcErrorView>,
    now: i64,
) -> (Seq<V>, StepView<V>) {
    match lookup(rows, m.id) {
        None => (rows, StepView::Reply(Reply::Refused(not_found(kind, m.id)), Seq::empty())),
        Some(rec) => match verdict {
            VerdictView::Rejected(reason) => (
                rows,
                StepView::Reply(
                    Reply::Refused(transition_rejected(reason)),
                    seq![
                        DaemonEventView::TransitionRejected {
                            collection: kinds,
                            id: m.id,
                            from: rec.stage().variant_shown(),
                            to: m.target.variant_shown(),
                            by: Actor::Role(m.role),
                            reason,
                        },
                    ],
                ),
            ),
            VerdictView::Unchanged => (rows, StepView::Reply(Reply::Null, Seq::empty())),
            VerdictView::Changed => match gate {
                Some(e) => (rows, StepView::Reply(Reply::Refused(e), Seq::empty())),
                None => (
                    put(rows, rec.at_stage(m.target, now)),
                    StepView::Persist(
                        rec.at_stage(m.target, now),
                        seq![
                            DaemonEventView::TransitionCompleted {
                                collection: kind,
                                id: m.id,
                                from: rec.stage().shown(),
                                to: m.target.shown(),
                                by: Actor::Role(m.role),
                            },
                        ],
                    ),
                ),
            },
        },
    }
}

/// The text of an error.
pub open spec fn opt_error(o: Option<RpcError>) -> Option<RpcErrorView> {
    match o {
        Some(e) => Some(e@),
        None => None,
    }
}

/// Carries out a move: the record changes at once and has then to be written.
pub fn move_record<R: Staged>(
    table: &mut Table<R>,
    kind: &str,
    kinds: &str,
    request: u64,
    m: &HierarchyMove,
    verdict: Verdict,
    gate: Option<RpcError>,
    now: i64,
) -> (r: Step<R>) where <R as View>::V: Keyed + StagedView
    ensures
        final(table)@ == moved(old(table)@, kind@, kinds@, m@, verdict@, opt_error(gate), now).0,
        takes(
            r,
            request,
            moved(old(table)@, kind@, kinds@, m@, verdict@, opt_error(gate), now).1,
        ),
{
    let mut rec: R = match table.get(m.id.as_str()) {
        Some(rec) => rec.copied(),
        None => {
            return refuse(request, RpcError::not_found(kind, m.id.as_str()));
        },
    };
    let from: HierarchyStatus = rec.stage();
    match verdict {
        Verdict::Rejected(reason) => {
            let event: DaemonEvent = DaemonEvent::transition_rejected(
                kinds,
                m.id.as_str(),
                from.variant_name(),
                m.target.variant_name(),
                Actor::Role(m.role),
                reason.as_str(),
            );
            return Step::Reply(
                Outcome::refuse_and_tell(
                    request,
                    RpcError::transition_rejected(reason.as_str()),
                    event,
                ),
            );
        },
        Verdict::Unchanged => {
            return Step::Reply(Outcome::null(request));
        },
        Verdict::Changed => {},
    }
    match gate {
        Some(e) => {
            return refuse(request, e);
        },
        None => {},
    }
    rec.set_stage(m.target, now);
    table.put(rec.copied());
    let event: DaemonEvent = DaemonEvent::transition_completed(
        kind,
        m.id.as_str(),
        from.name(),
        m.target.name(),
        Actor::Role(m.role),
    );
    persist(request, rec, event)
}

/// What a transition request makes of the records of a kind, and its next step.
pub open spec fn transition<V: StagedView>(
    rows: Seq<V>,
    kind: Seq<char>,
    kinds: Seq<char>,
    p: Members,
    named: Option<Role>,
    verdict: VerdictView,
    gate: Option<RpcErrorView>,
    now: i64,
) -> (Seq<V>, StepView<V>) {
    match asked_move(p, named) {
        Err(e) => (rows, StepView::Reply(Reply::Refused(e), Seq::empty())),
        Ok(m) => moved(rows, kind, kinds, m, verdict, gate, now),
    }
}

/// Answers a transition request for the records of a kind.
pub fn handle_transition<R: Staged>(
    table: &mut Table<R>,
    kind: &str,
    kinds: &str,
    req: &DaemonRequest,
    named: Option<Role>,
    verdict: Verdict,
    gate: Option<RpcError>,
    now: i64,
) -> (r: Step<R>) where <R as View>::V: Keyed + StagedView
    ensures
        final(table)@ == transition(
            old(table)@,
            kind@,
            kinds@,
            req.params@,
            named,
            verdict@,
            opt_error(gate),
            now,
        ).0,
        takes(
            r,
            req.id,
            transition(
                old(table)@,
                kind@,
                kinds@,
                req.params@,
                named,
                verdict@,
                opt_error(gate),
                now,
            ).1,
        ),
{
    match HierarchyMove::read(&req.params, named) {
        Err(e) => refuse(req.id, e),
        Ok(m) => move_record(table, kind, kinds, req.id, &m, verdict, gate, now),
    }
}

/// Why nothing is made under a record that is closed.
pub open spec fn closed_parent(
    what: Seq<char>,
    stage: HierarchyStatus,
    kind: Seq<char>,
    id: Seq<char>,
) -> RpcErrorView {
    precondition_failed(
        "Cannot create "@ + what + " under "@ + stage.shown() + " "@ + kind + " '"@ + id + "'"@,
    )
}

/// The error for a parent that is closed.
pub fn closed_parent_error(what: &str, stage: HierarchyStatus, kind: &str, id: &str) -> (r: RpcError)
    ensures
        r@ == closed_parent(what@, stage, kind@, id@),
{
    let mut message: String = joined("Cannot create ", what);
    message.append(" under ");
    message.append(stage.name());
    message.append(" ");
    message.append(kind);
    message.append(" '");
    message.append(id);
    message.append("'");
    RpcError::precondition_failed(message.as_str())
}

/// Whether some record is a draft.
pub open spec fn has_draft<V: StagedView>(rows: Seq<V>) -> bool {
    exists|i: int| 0 <= i < rows.len() && (#[trigger] rows[i]).stage() is Draft
}

/// Whether some record is a draft.
pub fn any_draft<R: Staged>(table: &Table<R>) -> (r: bool) where <R as View>::V: Keyed + StagedView
    ensures
        r == has_draft(table@),
{
    let n: usize = table.len();
    let mut i: usize = 0;
    while i < n
        invariant
            n == table@.len(),
            i <= n,
            forall|j: int| 0 <= j < i ==> !((#[trigger] table@[j]).stage() is Draft),
        decreases n - i,
    {
        if table.row(i).stage() == HierarchyStatus::Draft {
            assert(table@[i as int].stage() is Draft);
            return true;
        }
        i = i + 1;
    }
    false
}

/// Whether some record under the parent is a draft.
pub open spec fn has_draft_under<V: StagedView + ChildView>(
    rows: Seq<V>,
    parent: Seq<char>,
) -> bool {
    exists|i: int|
        0 <= i < rows.len() && (#[trigger] rows[i]).parent() == parent && rows[i].stage() is Draft
}

/// Whether some record under the parent is a draft.
pub fn draft_under<R: Staged + Child>(table: &Table<R>, parent: &str) -> (r: bool) where
    <R as View>::V: Keyed + StagedView + ChildView,

    ensures
        r == has_draft_under(table@, parent@),
{
    let n: usize = table.len();
    let mut i: usize = 0;
    while i < n
        invariant
            n == table@.len(),
            i <= n,
            forall|j: int|
                0 <= j < i ==> !((#[trigger] table@[j]).parent() == parent@
                    && table@[j].stage() is Draft),
        decreases n - i,
    {
        let rec: &R = table.row(i);
        if same(rec.parent_id(), parent) && rec.stage() == HierarchyStatus::Draft {
            assert(table@[i as int].parent() == parent@);
            return true;
        }
        i = i + 1;
    }
    false
}

/// A move that is not carried out changes no record. One that is carried out
/// changes the record it is about and no other: that record is in the stage
/// asked for and has to be written.
pub proof fn moves_change_one_record_or_none<V: StagedView>(
    rows: Seq<V>,
    kind: Seq<char>,
    kinds: Seq<char>,
    m: HierarchyMoveView,
    verdict: VerdictView,
    gate: Option<RpcErrorView>,
    now: i64,
    id: Seq<char>,
)
    requires
        distinct(rows),
    ensures
        match moved(rows, kind, kinds, m, verdict, gate, now).1 {
            StepView::Reply(..) => moved(rows, kind, kinds, m, verdict, gate, now).0 == rows,
            StepView::Persist(rec, _) => rec.stage() == m.target && lookup(
                moved(rows, kind, kinds, m, verdict, gate, now).0,
                id,
            ) == (if id == m.id {
                Some(rec)
            } else {
                lookup(rows, id)
            }),
        },
{
    match moved(rows, kind, kinds, m, verdict, gate, now).1 {
        StepView::Persist(rec, _) => {
            assert(rows[place(rows, m.id)].key() == m.id);
            lookup(rows, m.id)->0.moving_keeps_identity(m.target, now);
            put_then_lookup(rows, rec, id);
        },
        _ => {},
    }
}

/// A move is carried out exactly if the record exists, the rules allow the move
/// and the validation gate has nothing against it.
pub proof fn moves_need_rules_and_gate<V: StagedView>(
    rows: Seq<V>,
    kind: Seq<char>,
    kinds: Seq<char>,
    m: HierarchyMoveView,
    verdict: VerdictView,
    gate: Option<RpcErrorView>,
    now: i64,
)
    ensures
        moved(rows, kind, kinds, m, verdict, gate, now).1 is Persist <==> lookup(rows, m.id) is Some
            && verdict is Changed && gate is None,
{
}

/// Moving a plan, a spec or a phase changes its stage and its time, and nothing
/// else of it.
pub proof fn moving_changes_stage_and_time_alone(
    plan: PlanView,
    spec_record: SpecView,
    phase: PhaseView,
    stage: HierarchyStatus,
    now: i64,
)
    ensures
        ({
            let r = plan.at_stage(stage, now);
            &&& r.status == stage && r.updated_at == now && r.stage() == r.status
            &&& r == PlanView { status: r.status, updated_at: r.updated_at, ..plan }
        }),
        ({
            let r = spec_record.at_stage(stage, now);
            &&& r.status == stage && r.updated_at == now && r.stage() == r.status
            &&& r == SpecView { status: r.status, updated_at: r.updated_at, ..spec_record }
        }),
        ({
            let r = phase.at_stage(stage, now);
            &&& r.status == stage && r.updated_at == now && r.stage() == r.status
            &&& r == PhaseView { status: r.status, updated_at: r.updated_at, ..phase }
        }),
{
}

/// A move request that lacks an id or a known stage, or that names a role that
/// is none, is refused for its parameters and changes nothing.
pub proof fn moves_need_id_stage_and_role<V: StagedView>(
    rows: Seq<V>,
    kind: Seq<char>,
    kinds: Seq<char>,
    p: Members,
    named: Option<Role>,
    verdict: VerdictView,
    gate: Option<RpcErrorView>,
    now: i64,
)
    requires
        text_of(p, "id"@) is None || text_of(p, "target_status"@) is None
            || HierarchyStatus::of_name(text_of(p, "target_status"@)->0) is None || (member(
            p,
            "role"@,
        ) is Some && named is None),
    ensures
        transition(rows, kind, kinds, p, named, verdict, gate, now).0 == rows,
        is_refused_with(transition(rows, kind, kinds, p, named, verdict, gate, now).1, -32602),
{
}

/// A move request that is in order is carried out exactly if the record is
/// known, the rules allow the move and the validation gate has nothing against
/// it. Then the record found under the id is the one to be written and is in the
/// stage that the request names, and every other record is as it was; clients
/// are told of the stage it left and the one it reached. Otherwise no record
/// changes, and whoever stands against the move is heard.
pub proof fn records_move_where_they_are_sent<V: StagedView>(
    rows: Seq<V>,
    kind: Seq<char>,
    kinds: Seq<char>,
    p: Members,
    named: Option<Role>,
    verdict: VerdictView,
    gate: Option<RpcErrorView>,
    now: i64,
    id: Seq<char>,
    target: HierarchyStatus,
    role: Role,
    other: Seq<char>,
)
    requires
        distinct(rows),
        text_of(p, "id"@) == Some(id),
        text_of(p, "target_status"@) matches Some(name) && HierarchyStatus::of_name(name) == Some(
            target,
        ),
        if member(p, "role"@) is None {
            role == Role::Coordinator
        } else {
            named == Some(role)
        },
    ensures
        ({
            let (after, step) = transition(rows, kind, kinds, p, named, verdict, gate, now);
            match lookup(rows, id) {
                None => after == rows && is_refused_with(step, -32001),
                Some(before) => match verdict {
                    VerdictView::Rejected(reason) => after == rows && step == StepView::Reply(
                        Reply::<V>::Refused(RpcErrorView { code: -32000, message: reason }),
                        seq![
                            DaemonEventView::TransitionRejected {
                                collection: kinds,
                                id,
                                from: before.stage().variant_shown(),
                                to: target.variant_shown(),
                                by: Actor::Role(role),
                                reason,
                            },
                        ],
                    ),
                    VerdictView::Unchanged => after == rows && step == StepView::Reply(
                        Reply::<V>::Null,
                        Seq::empty(),
                    ),
                    VerdictView::Changed => match gate {
                        Some(e) => after == rows && step == StepView::Reply(
                            Reply::<V>::Refused(e),
                            Seq::empty(),
                        ),
                        None => {
                            &&& step is Persist
                            &&& step->Persist_0 == before.at_stage(target, now)
                            &&& step->Persist_0.stage() == target
                            &&& step->Persist_0.key() == id
                            &&& step->Persist_1 == seq![
                                DaemonEventView::TransitionCompleted {
                                    collection: kind,
                                    id,
                                    from: before.stage().shown(),
                                    to: target.shown(),
                                    by: Actor::Role(role),
                                },
                            ]
                            &&& lookup(after, other) == if other == id {
                                Some(step->Persist_0)
                            } else {
                                lookup(rows, other)
                            }
                        },
                    },
                },
            }
        }),
{
    if let Some(before) = lookup(rows, id) {
        assert(rows[place(rows, id)].key() == id);
        before.moving_keeps_identity(target, now);
        put_then_lookup(rows, before.at_stage(target, now), other);
    }
}

/// A move that is read from a request is about the id, the stage and the role
/// that the request names; it goes ahead without a report only where the request
/// says so, for the reason that the request gives.
pub proof fn moves_are_read_as_asked(p: Members, named: Option<Role>)
    ensures
        asked_move(p, named) matches Ok(m) ==> {
            &&& text_of(p, "id"@) == Some(m.id)
            &&& text_of(p, "target_status"@) matches Some(name) && HierarchyStatus::of_name(name)
                == Some(m.target)
            &&& m.role == Role::Coordinator || named == Some(m.role)
            &&& member(p, "role"@) is Some ==> named == Some(m.role)
            &&& m.skip_validation <==> flag_of(p, "skip_validation"@) == Some(true)
            &&& m.skip_reason == text_of(p, "skip_reason"@)
        },
        asked_move(p, named) is Ok <==> text_of(p, "id"@) is Some && (text_of(
            p,
            "target_status"@,
        ) matches Some(name) && HierarchyStatus::of_name(name) is Some) && (member(
            p,
            "role"@,
        ) is None || named is Some),
{
}

/// Why nothing is made under a closed record: what was asked for, and the stage,
/// the kind and the id of the record.
pub proof fn closed_parents_are_named(
    what: Seq<char>,
    stage: HierarchyStatus,
    kind: Seq<char>,
    id: Seq<char>,
)
    ensures
        closed_parent(what, stage, kind, id).code == -32005,
        closed_parent(what, stage, kind, id).message == "Cannot create "@ + what + " under "@
            + stage.shown() + " "@ + kind + " '"@ + id + "'"@,
{
}

} // verus!
