//! Ticks: rounds of integration, one at a time.

use crate::hierarchy::{asked_role, read_role};
use crate::numbers::low32;
use crate::params::{count_of, member, strings_of, text_of, Members, Params};
use crate::protocol::{
    answers, invalid_params, not_found, precondition_failed, transition_rejected, Actor,
    DaemonEvent, DaemonEventView, DaemonRequest, Outcome, Reply, RpcError, RpcErrorView,
};
use crate::records::{Tick, TickView};
use crate::status::{Role, TickStatus, Verdict, VerdictView};
use crate::steps::{
    fetch, fetched, is_refused_with, listed, persist, refuse, takes, Listing, Step, StepView,
    Stored, StoredList,
};
use crate::table::{
    distinct, filter_holds_those, holds_those, known, lookup, place, put, put_then_lookup, Keyed,
    Record, Table,
};
use crate::text::{replaced, same};
use vstd::prelude::*;

verus! {

/// Whether some tick is not over yet.
pub open spec fn has_open_tick(ticks: Seq<TickView>) -> bool {
    exists|i: int| 0 <= i < ticks.len() && !(#[trigger] ticks[i]).status.is_final()
}

/// Whether some tick is not over yet.
pub fn open_tick(ticks: &Table<Tick>) -> (r: bool)
    ensures
        r == has_open_tick(ticks@),
{
    let n: usize = ticks.len();
    let mut i: usize = 0;
    while i < n
        invariant
            n == ticks@.len(),
            i <= n,
            forall|j: int| 0 <= j < i ==> (#[trigger] ticks@[j]).status.is_final(),
        decreases n - i,
    {
        if !ticks.row(i).status.is_terminal() {
            assert(!ticks@[i as int].status.is_final());
            return true;
        }
        i = i + 1;
    }
    false
}

/// The number that parameters give a tick.
pub open spec fn asked_number(p: Members) -> Option<u32> {
    match count_of(p, "number"@) {
        Some(n) => Some((n % 0x1_0000_0000) as u32),
        None => None,
    }
}

/// Reads the number that parameters give a tick.
pub fn read_number(p: &Params) -> (r: Option<u32>)
    ensures
        r == asked_number(p@),
{
    match p.count("number") {
        Some(n) => Some(low32(n)),
        None => None,
    }
}

/// Why a tick is not made: another one is not over yet, or it has no number.
pub open spec fn tick_refusal(ticks: Seq<TickView>, number: Option<u32>) -> Option<RpcErrorView> {
    if has_open_tick(ticks) {
        Some(precondition_failed("A non-terminal Tick already exists"@))
    } else if number is None {
        Some(invalid_params("number is required (positive integer)"@))
    } else {
        None
    }
}

/// The tick that is made.
pub open spec fn made_tick(id: Seq<char>, number: u32, now: i64) -> TickView {
    TickView {
        id,
        number,
        status: TickStatus::Open,
        integration_sha: None,
        validation_log: Seq::empty(),
        bundle_ids: Seq::empty(),
        attempted_bundle_ids: Seq::empty(),
        created_at: now,
        updated_at: now,
    }
}

/// The next step of a request that asks for a tick.
pub open spec fn tick_creation(
    ticks: Seq<TickView>,
    number: Option<u32>,
    id: Seq<char>,
    now: i64,
) -> StepView<TickView> {
    match tick_refusal(ticks, number) {
        Some(e) => StepView::Reply(Reply::Refused(e), Seq::empty()),
        None => StepView::Persist(
            made_tick(id, number->0, now),
            seq![DaemonEventView::RecordCreated { collection: "tick"@, id }],
        ),
    }
}

/// Makes a tick under a fresh id, unless something stands against it. The tick
/// joins the others once it is written.
pub fn create_tick(
    ticks: &Table<Tick>,
    request: u64,
    number: Option<u32>,
    id: String,
    now: i64,
) -> (r: Step<Tick>)
    ensures
        takes(r, request, tick_creation(ticks@, number, id@, now)),
{
    if open_tick(ticks) {
        return refuse(request, RpcError::precondition_failed("A non-terminal Tick already exists"));
    }
    match number {
        None => refuse(request, RpcError::invalid_params("number is required (positive integer)")),
        Some(number) => {
            let event: DaemonEvent = DaemonEvent::record_created("tick", id.as_str());
            persist(request, Tick::new(id, number, now), event)
        },
    }
}

/// Answers a request that asks for a tick.
pub fn handle_tick_create(ticks: &Table<Tick>, req: &DaemonRequest, id: String, now: i64) -> (r:
    Step<Tick>)
    ensures
        takes(r, req.id, tick_creation(ticks@, asked_number(req.params@), id@, now)),
{
    create_tick(ticks, req.id, read_number(&req.params), id, now)
}

/// Answers a request for one tick.
pub fn handle_tick_get(ticks: &Table<Tick>, req: &DaemonRequest, stored: Stored<Tick>) -> (r:
    Outcome<Tick>)
    ensures
        answers(
            r,
            req.id,
            fetched("tick"@, ticks@, text_of(req.params@, "id"@), stored),
            Seq::empty(),
        ),
{
    fetch("tick", ticks, req, stored)
}

/// The stage that parameters narrow a list down to, if any.
pub open spec fn asked_stage(p: Members) -> Option<TickStatus> {
    match text_of(p, "status"@) {
        Some(name) => TickStatus::of_name(name),
        None => None,
    }
}

/// Reads the stage that parameters narrow a list down to.
pub fn read_stage(p: &Params) -> (r: Option<TickStatus>)
    ensures
        r == asked_stage(p@),
{
    match p.text("status") {
        Some(name) => TickStatus::from_name(name.as_str()),
        None => None,
    }
}

/// The ticks in the given stage, or all of them, in their order.
pub open spec fn ticks_at(ticks: Seq<TickView>, stage: Option<TickStatus>) -> Seq<TickView> {
    ticks.filter(|t: TickView| stage is None || t.status == stage->0)
}

/// The ticks in the given stage, or all of them.
pub fn select_ticks(ticks: &Table<Tick>, stage: Option<TickStatus>) -> (r: Vec<Tick>)
    ensures
        r@.map_values(|t: Tick| t@) == ticks_at(ticks@, stage),
{
    let ghost keep = |t: TickView| stage is None || t.status == stage->0;
    let n: usize = ticks.len();
    let mut r: Vec<Tick> = Vec::new();
    let mut i: usize = 0;
    proof {
        reveal(Seq::filter);
        assert(ticks@.take(0) =~= Seq::empty());
        assert(r@.map_values(|t: Tick| t@) =~= Seq::empty());
    }
    while i < n
        invariant
            n == ticks@.len(),
            i <= n,
            keep == (|t: TickView| stage is None || t.status == stage->0),
            r@.map_values(|t: Tick| t@) == ticks@.take(i as int).filter(keep),
        decreases n - i,
    {
        let ghost before = r@.map_values(|t: Tick| t@);
        let t: &Tick = ticks.row(i);
        let fits: bool = match stage {
            None => true,
            Some(s) => t.status == s,
        };
        proof {
            reveal(Seq::filter);
            assert(ticks@.take(i + 1).drop_last() =~= ticks@.take(i as int));
            assert(ticks@.take(i + 1).last() == t@);
            assert(fits == keep(t@));
        }
        if fits {
            r.push(t.copied());
            assert(r@.map_values(|t: Tick| t@) =~= before.push(t@));
        }
        i = i + 1;
    }
    assert(ticks@.take(n as int) =~= ticks@);
    r
}

/// Answers a request for the ticks in a stage, or all.
pub fn handle_tick_list(ticks: &Table<Tick>, req: &DaemonRequest, stored: StoredList<Tick>) -> (r:
    Outcome<Listing<Tick>>)
    ensures
        answers(
            r,
            req.id,
            listed(ticks_at(ticks@, asked_stage(req.params@)), stored),
            Seq::empty(),
        ),
{
    match stored {
        StoredList::Listed(rows) => Outcome::ok(req.id, Listing { rows }),
        StoredList::Failed(e) => Outcome::refuse(req.id, RpcError::internal(e.as_str())),
        StoredList::NoStore => {
            let stage: Option<TickStatus> = read_stage(&req.params);
            Outcome::ok(req.id, Listing { rows: select_ticks(ticks, stage) })
        },
    }
}

/// A move that a request asks for.
#[derive(Debug)]
pub struct TickMove {
    pub id: String,
    pub target: TickStatus,
    pub role: Role,
}

#[verifier::ext_equal]
pub struct TickMoveView {
    pub id: Seq<char>,
    pub target: TickStatus,
    pub role: Role,
}

impl View for TickMove {
    type V = TickMoveView;

    open spec fn view(&self) -> TickMoveView {
        TickMoveView { id: self.id@, target: self.target, role: self.role }
    }
}

/// The move that parameters ask for, or why they ask for none.
pub open spec fn asked_tick_move(p: Members, named: Option<Role>) -> Result<TickMoveView, RpcErrorView> {
    match text_of(p, "id"@) {
        None => Err(invalid_params("id is required"@)),
        Some(id) => match text_of(p, "target_status"@) {
            None => Err(invalid_params("target_status is required"@)),
            Some(name) => match TickStatus::of_name(name) {
                None => Err(invalid_params("invalid target_status"@)),
                Some(target) => match asked_role(p, named, Role::Integrator) {
                    None => Err(invalid_params("invalid role"@)),
                    Some(role) => Ok(TickMoveView { id, target, role }),
                },
            },
        },
    }
}

impl TickMove {
    /// Reads the move that parameters ask for. Without a role it is the
    /// integrator's.
    pub fn read(p: &Params, named: Option<Role>) -> (r: Result<TickMove, RpcError>)
        ensures
            match r {
                Ok(m) => asked_tick_move(p@, named) == Ok::<TickMoveView, RpcErrorView>(m@),
                Err(e) => asked_tick_move(p@, named) == Err::<TickMoveView, RpcErrorView>(e@),
            },
    {
        let id: String = match p.text("id") {
            Some(id) => id,
            None => {
                return Err(RpcError::invalid_params("id is required"));
            },
        };
        let name: String = match p.text("target_status") {
            Some(name) => name,
            None => {
                return Err(RpcError::invalid_params("target_status is required"));
            },
        };
        let target: TickStatus = match TickStatus::from_name(name.as_str()) {
            Some(target) => target,
            None => {
                return Err(RpcError::invalid_params("invalid target_status"));
            },
        };
        match read_role(p, named, Role::Integrator) {
            Some(role) => Ok(TickMove { id, target, role }),
            None => Err(RpcError::invalid_params("invalid role")),
        }
    }
}

/// Whether a tick other than `id` is being integrated.
pub open spec fn other_integrating(ticks: Seq<TickView>, id: Seq<char>) -> bool {
    exists|i: int|
        0 <= i < ticks.len() && (#[trigger] ticks[i]).id != id && ticks[i].status.is_integrating()
}

/// Whether a tick other than `id` is being integrated.
pub fn integrating_besides(ticks: &Table<Tick>, id: &str) -> (r: bool)
    ensures
        r == other_integrating(ticks@, id@),
{
    let n: usize = ticks.len();
    let mut i: usize = 0;
    while i < n
        invariant
            n == ticks@.len(),
            i <= n,
            forall|j: int|
                0 <= j < i ==> !((#[trigger] ticks@[j]).id != id@
                    && ticks@[j].status.is_integrating()),
        decreases n - i,
    {
        let t: &Tick = ticks.row(i);
        if !same(t.id.as_str(), id) && t.status.integrating() {
            assert(ticks@[i as int].id != id@);
            return true;
        }
        i = i + 1;
    }
    false
}

/// The tick once it has moved.
pub open spec fn tick_at(t: TickView, target: TickStatus) -> TickView {
    TickView { status: target, ..t }
}

/// What a move makes of the ticks, and its next step. The rules have the first
/// word; then one tick at a time is integrated.
pub open spec fn moved_tick(
    ticks: Seq<TickView>,
    m: TickMoveView,
    verdict: VerdictView,
) -> (Seq<TickView>, StepView<TickView>) {
    match lookup(ticks, m.id) {
        None => (ticks, StepView::Reply(Reply::Refused(not_found("tick"@, m.id)), Seq::empty())),
        Some(t) => match verdict {
            VerdictView::Rejected(reason) => (
                ticks,
                StepView::Reply(
                    Reply::Refused(transition_rejected(reason)),
                    seq![
                        DaemonEventView::TransitionRejected {
                            collection: "ticks"@,
                            id: m.id,
                            from: t.status.shown(),
                            to: m.target.shown(),
                            by: Actor::Role(m.role),
                            reason,
                        },
                    ],
                ),
            ),
            VerdictView::Unchanged => (ticks, StepView::Reply(Reply::Null, Seq::empty())),
            VerdictView::Changed => if m.target.is_integrating() && other_integrating(
                ticks,
                m.id,
            ) {
                (
                    ticks,
                    StepView::Reply(
                        Reply::Refused(
                            precondition_failed("Another Tick is already in Sealing/Validating"@),
                        ),
                        Seq::empty(),
                    ),
                )
            } else {
                (
                    put(ticks, tick_at(t, m.target)),
                    StepView::Persist(
                        tick_at(t, m.target),
                        seq![
                            DaemonEventView::TransitionCompleted {
                                collection: "tick"@,
                                id: m.id,
                                from: t.status.shown(),
                                to: m.target.shown(),
                                by: Actor::Role(m.role),
                            },
                        ],
                    ),
                )
            },
        },
    }
}

/// Carries out a move: the tick changes at once and has then to be written.
pub fn move_tick(ticks: &mut Table<Tick>, request: u64, m: &TickMove, verdict: Verdict) -> (r: Step<
    Tick,
>)
    ensures
        final(ticks)@ == moved_tick(old(ticks)@, m@, verdict@).0,
        takes(r, request, moved_tick(old(ticks)@, m@, verdict@).1),
{
    let mut t: Tick = match ticks.get(m.id.as_str()) {
        Some(t) => t.copied(),
        None => {
            return refuse(request, RpcError::not_found("tick", m.id.as_str()));
        },
    };
    let from: TickStatus = t.status;
    match verdict {
        Verdict::Rejected(reason) => {
            let event: DaemonEvent = DaemonEvent::transition_rejected(
                "ticks",
                m.id.as_str(),
                from.name(),
                m.target.name(),
                Actor::Role(m.role),
                reason.as_str(),
            );
            return Step::Reply(
                Outcome::refuse_and_tell(
                    request,
                    RpcError::transition_rejected(reason.as_str()),
                    event,
                ),
            );
        },
        Verdict::Unchanged => {
            return Step::Reply(Outcome::null(request));
        },
        Verdict::Changed => {},
    }
    if m.target.integrating() && integrating_besides(ticks, m.id.as_str()) {
        return refuse(
            request,
            RpcError::precondition_failed("Another Tick is already in Sealing/Validating"),
        );
    }
    t.status = m.target;
    ticks.put(t.copied());
    let event: DaemonEvent = DaemonEvent::transition_completed(
        "tick",
        m.id.as_str(),
        from.name(),
        m.target.name(),
        Actor::Role(m.role),
    );
    persist(request, t, event)
}

/// What a transition request makes of the ticks, and its next step.
pub open spec fn tick_transition(
    ticks: Seq<TickView>,
    p: Members,
    named: Option<Role>,
    verdict: VerdictView,
) -> (Seq<TickView>, StepView<TickView>) {
    match asked_tick_move(p, named) {
        Err(e) => (ticks, StepView::Reply(Reply::Refused(e), Seq::empty())),
        Ok(m) => moved_tick(ticks, m, verdict),
    }
}

/// Answers a transition request for a tick.
pub fn handle_tick_transition(
    ticks: &mut Table<Tick>,
    req: &DaemonRequest,
    named: Option<Role>,
    verdict: Verdict,
) -> (r: Step<Tick>)
    ensures
        final(ticks)@ == tick_transition(old(ticks)@, req.params@, named, verdict@).0,
        takes(r, req.id, tick_transition(old(ticks)@, req.params@, named, verdict@).1),
{
    match TickMove::read(&req.params, named) {
        Err(e) => refuse(req.id, e),
        Ok(m) => move_tick(ticks, req.id, &m, verdict),
    }
}

/// The tick with the changes that parameters ask for.
pub open spec fn changed_tick(t: TickView, p: Members, now: i64) -> TickView {
    TickView {
        validation_log: replaced(text_of(p, "validation_log"@), t.validation_log),
        bundle_ids: replaced(strings_of(p, "bundle_ids"@), t.bundle_ids),
        attempted_bundle_ids: replaced(
            strings_of(p, "attempted_bundle_ids"@),
            t.attempted_bundle_ids,
        ),
        updated_at: now,
        ..t
    }
}

/// What an update request makes of the ticks, and its next step.
pub open spec fn tick_update_request(
    ticks: Seq<TickView>,
    p: Members,
    now: i64,
) -> (Seq<TickView>, StepView<TickView>) {
    match text_of(p, "id"@) {
        None => (
            ticks,
            StepView::Reply(Reply::Refused(invalid_params("id is required"@)), Seq::empty()),
        ),
        Some(id) => match lookup(ticks, id) {
            None => (
                ticks,
                StepView::Reply(Reply::Refused(not_found("ticks"@, id)), Seq::empty()),
            ),
            Some(t) => (
                put(ticks, changed_tick(t, p, now)),
                StepView::Persist(
                    changed_tick(t, p, now),
                    seq![DaemonEventView::RecordUpdated { collection: "ticks"@, id }],
                ),
            ),
        },
    }
}

/// Answers a request that changes a tick: it changes at once and has then to
/// be written.
pub fn handle_tick_update(ticks: &mut Table<Tick>, req: &DaemonRequest, now: i64) -> (r: Step<Tick>)
    ensures
        final(ticks)@ == tick_update_request(old(ticks)@, req.params@, now).0,
        takes(r, req.id, tick_update_request(old(ticks)@, req.params@, now).1),
{
    let id: String = match req.params.text("id") {
        Some(id) => id,
        None => {
            return refuse(req.id, RpcError::invalid_params("id is required"));
        },
    };
    let mut t: Tick = match ticks.get(id.as_str()) {
        Some(t) => t.copied(),
        None => {
            return refuse(req.id, RpcError::not_found("ticks", id.as_str()));
        },
    };
    let ghost before = t@;
    match req.params.text("validation_log") {
        Some(log) => {
            t.validation_log = log;
        },
        None => {},
    }
    match req.params.strings("bundle_ids") {
        Some(ids) => {
            t.bundle_ids = ids;
        },
        None => {},
    }
    match req.params.strings("attempted_bundle_ids") {
        Some(ids) => {
            t.attempted_bundle_ids = ids;
        },
        None => {},
    }
    t.updated_at = now;
    assert(t@ =~= changed_tick(before, req.params@, now));
    ticks.put(t.copied());
    persist(req.id, t, DaemonEvent::record_updated("ticks", id.as_str()))
}

/// A tick that is made under a fresh id is the only one that is not over.
pub proof fn made_tick_is_the_only_open_one(
    ticks: Seq<TickView>,
    number: Option<u32>,
    id: Seq<char>,
    now: i64,
    i: int,
)
    requires
        !known(ticks, id),
    ensures
        tick_creation(ticks, number, id, now) matches StepView::Persist(t, _) ==> {
            &&& t.id == id
            &&& t.status is Open
            &&& 0 <= i < put(ticks, t).len() && !put(ticks, t)[i].status.is_final() ==> put(
                ticks,
                t,
            )[i] == t
        },
{
    match tick_creation(ticks, number, id, now) {
        StepView::Persist(t, _) => {
            if 0 <= i < ticks.len() {
                assert(put(ticks, t)[i] == ticks[i]);
                assert(ticks[i].status.is_final());
            }
        },
        _ => {},
    }
}

/// At most one tick is being integrated.
pub open spec fn one_integrating(ticks: Seq<TickView>) -> bool {
    forall|i: int, j: int|
        0 <= i < ticks.len() && 0 <= j < ticks.len() && (
        #[trigger] ticks[i]).status.is_integrating() && (
        #[trigger] ticks[j]).status.is_integrating() ==> i == j
}

/// Whatever is moved, at most one tick is being integrated.
pub proof fn moves_keep_one_integrating(
    ticks: Seq<TickView>,
    m: TickMoveView,
    verdict: VerdictView,
)
    requires
        distinct(ticks),
        one_integrating(ticks),
    ensures
        one_integrating(moved_tick(ticks, m, verdict).0),
{
    let after = moved_tick(ticks, m, verdict).0;
    if known(ticks, m.id) {
        let p = place(ticks, m.id);
        assert(ticks[p].key() == m.id);
        assert forall|i: int, j: int|
            0 <= i < after.len() && 0 <= j < after.len() && (
            #[trigger] after[i]).status.is_integrating() && (
            #[trigger] after[j]).status.is_integrating() implies i == j by {
            if moved_tick(ticks, m, verdict).1 is Persist {
                assert(after == ticks.update(p, tick_at(ticks[p], m.target)));
                if i != p {
                    assert(after[i] == ticks[i]);
                    assert(ticks[i].key() != ticks[p].key());
                }
                if j != p {
                    assert(after[j] == ticks[j]);
                    assert(ticks[j].key() != ticks[p].key());
                }
                if i != j && (i == p || j == p) {
                    let k = if i == p {
                        j
                    } else {
                        i
                    };
                    assert(ticks[k].id != m.id && ticks[k].status.is_integrating());
                    assert(other_integrating(ticks, m.id));
                }
            }
        }
    }
}

/// A move that is not carried out changes no tick.
pub proof fn refused_tick_move_changes_nothing(
    ticks: Seq<TickView>,
    m: TickMoveView,
    verdict: VerdictView,
)
    ensures
        moved_tick(ticks, m, verdict).1 is Reply ==> moved_tick(ticks, m, verdict).0 == ticks,
{
}

/// Whether every tick is published or has failed.
pub open spec fn all_over(ticks: Seq<TickView>) -> bool {
    forall|i: int|
        0 <= i < ticks.len() ==> (#[trigger] ticks[i]).status == TickStatus::Published
            || ticks[i].status == TickStatus::Failed
}

/// A tick is made exactly if every other one is published or has failed and the
/// request gives a number. It is open, has that number, and nothing is in it.
pub proof fn made_tick_is_what_was_asked_for(
    ticks: Seq<TickView>,
    p: Members,
    id: Seq<char>,
    now: i64,
)
    ensures
        ({
            let step = tick_creation(ticks, asked_number(p), id, now);
            if !all_over(ticks) {
                is_refused_with(step, -32005)
            } else {
                match count_of(p, "number"@) {
                    None => is_refused_with(step, -32602),
                    Some(n) => {
                        let t = step->Persist_0;
                        &&& step is Persist
                        &&& step->Persist_1 == seq![
                            DaemonEventView::RecordCreated { collection: "tick"@, id },
                        ]
                        &&& t.id == id
                        &&& t.number == n as int % 0x1_0000_0000
                        &&& t.status == TickStatus::Open
                        &&& t.integration_sha is None
                        &&& t.validation_log.len() == 0
                        &&& t.bundle_ids.len() == 0
                        &&& t.attempted_bundle_ids.len() == 0
                        &&& t.created_at == now
                        &&& t.updated_at == now
                    },
                }
            }
        }),
{
    if has_open_tick(ticks) {
        let i = choose|i: int| 0 <= i < ticks.len() && !(#[trigger] ticks[i]).status.is_final();
        assert(!(ticks[i].status == TickStatus::Published || ticks[i].status
            == TickStatus::Failed));
    }
    if !all_over(ticks) {
        let i = choose|i: int|
            0 <= i < ticks.len() && !((#[trigger] ticks[i]).status == TickStatus::Published
                || ticks[i].status == TickStatus::Failed);
        assert(!ticks[i].status.is_final());
    }
}

/// Whether a tick other than `id` is closed to bundles and not over yet.
pub open spec fn other_under_way(ticks: Seq<TickView>, id: Seq<char>) -> bool {
    exists|i: int|
        0 <= i < ticks.len() && (#[trigger] ticks[i]).id != id && (ticks[i].status
            == TickStatus::Sealing || ticks[i].status == TickStatus::Validating)
}

/// A tick that the rules let move is moved, unless it would be sealed or
/// validated while another one is. Then the tick found under the id is the one
/// to be written; it has exactly the stage that the request asked for, whichever
/// that is, and is otherwise as it was, and so is every other tick. A move that
/// is not carried out changes no tick.
pub proof fn moved_tick_is_where_it_was_sent(
    ticks: Seq<TickView>,
    p: Members,
    named: Option<Role>,
    verdict: VerdictView,
    id: Seq<char>,
    target: TickStatus,
    role: Role,
    other: Seq<char>,
)
    requires
        distinct(ticks),
        text_of(p, "id"@) == Some(id),
        text_of(p, "target_status"@) matches Some(name) && TickStatus::of_name(name) == Some(
            target,
        ),
        if member(p, "role"@) is None {
            role == Role::Integrator
        } else {
            named == Some(role)
        },
    ensures
        ({
            let (after, step) = tick_transition(ticks, p, named, verdict);
            match lookup(ticks, id) {
                None => after == ticks && is_refused_with(step, -32001),
                Some(before) => match verdict {
                    VerdictView::Rejected(reason) => after == ticks && step == StepView::Reply(
                        Reply::<TickView>::Refused(RpcErrorView { code: -32000, message: reason }),
                        seq![
                            DaemonEventView::TransitionRejected {
                                collection: "ticks"@,
                                id,
                                from: before.status.shown(),
                                to: target.shown(),
                                by: Actor::Role(role),
                                reason,
                            },
                        ],
                    ),
                    VerdictView::Unchanged => after == ticks && step == StepView::Reply(
                        Reply::<TickView>::Null,
                        Seq::empty(),
                    ),
                    VerdictView::Changed => if (target == TickStatus::Sealing || target
                        == TickStatus::Validating) && other_under_way(ticks, id) {
                        after == ticks && is_refused_with(step, -32005)
                    } else {
                        let t = step->Persist_0;
                        &&& step is Persist
                        &&& step->Persist_1 == seq![
                            DaemonEventView::TransitionCompleted {
                                collection: "tick"@,
                                id,
                                from: before.status.shown(),
                                to: target.shown(),
                                by: Actor::Role(role),
                            },
                        ]
                        &&& t.id == id
                        &&& t.status == target
                        &&& t == TickView { status: t.status, ..before }
                        &&& lookup(after, other) == if other == id {
                            Some(t)
                        } else {
                            lookup(ticks, other)
                        }
                    },
                },
            }
        }),
{
    if let Some(before) = lookup(ticks, id) {
        assert(ticks[place(ticks, id)].key() == id);
        put_then_lookup(ticks, tick_at(before, target), other);
        if other_under_way(ticks, id) {
            let i = choose|i: int|
                0 <= i < ticks.len() && (#[trigger] ticks[i]).id != id && (ticks[i].status
                    == TickStatus::Sealing || ticks[i].status == TickStatus::Validating);
            assert(ticks[i].id != id && ticks[i].status.is_integrating());
        }
        if other_integrating(ticks, id) {
            let i = choose|i: int|
                0 <= i < ticks.len() && (#[trigger] ticks[i]).id != id
                    && ticks[i].status.is_integrating();
            assert(ticks[i].id != id);
        }
    }
}

/// A move request that lacks an id or a known stage, or that names a role that
/// is none, is refused for its parameters and changes nothing.
pub proof fn tick_moves_need_id_stage_and_role(
    ticks: Seq<TickView>,
    p: Members,
    named: Option<Role>,
    verdict: VerdictView,
)
    requires
        text_of(p, "id"@) is None || text_of(p, "target_status"@) is None || TickStatus::of_name(
            text_of(p, "target_status"@)->0,
        ) is None || (member(p, "role"@) is Some && named is None),
    ensures
        tick_transition(ticks, p, named, verdict).0 == ticks,
        is_refused_with(tick_transition(ticks, p, named, verdict).1, -32602),
{
}

/// A tick that is known under the id of the request is changed: it has what the
/// request gives and keeps the rest, its stage and its number among it. It is
/// found under its id as it has to be written, and every other tick is as it
/// was.
pub proof fn changed_tick_has_what_was_given(
    ticks: Seq<TickView>,
    p: Members,
    now: i64,
    other: Seq<char>,
)
    requires
        distinct(ticks),
    ensures
        ({
            let (after, step) = tick_update_request(ticks, p, now);
            match text_of(p, "id"@) {
                None => after == ticks && is_refused_with(step, -32602),
                Some(id) => match lookup(ticks, id) {
                    None => after == ticks && is_refused_with(step, -32001),
                    Some(before) => {
                        let t = step->Persist_0;
                        &&& step is Persist
                        &&& step->Persist_1 == seq![
                            DaemonEventView::RecordUpdated { collection: "ticks"@, id },
                        ]
                        &&& t.id == id
                        &&& t.validation_log == match text_of(p, "validation_log"@) {
                            Some(log) => log,
                            None => before.validation_log,
                        }
                        &&& t.bundle_ids == match strings_of(p, "bundle_ids"@) {
                            Some(ids) => ids,
                            None => before.bundle_ids,
                        }
                        &&& t.attempted_bundle_ids == match strings_of(p, "attempted_bundle_ids"@) {
                            Some(ids) => ids,
                            None => before.attempted_bundle_ids,
                        }
                        &&& t.number == before.number
                        &&& t.status == before.status
                        &&& t.integration_sha == before.integration_sha
                        &&& t.created_at == before.created_at
                        &&& t.updated_at == now
                        &&& lookup(after, other) == if other == id {
                            Some(t)
                        } else {
                            lookup(ticks, other)
                        }
                    },
                },
            }
        }),
{
    if let Some(id) = text_of(p, "id"@) {
        if known(ticks, id) {
            assert(ticks[place(ticks, id)].key() == id);
            put_then_lookup(ticks, tick_update_request(ticks, p, now).1->Persist_0, other);
        }
    }
}

/// A list of ticks that names a known stage holds exactly the ticks in that
/// stage; one that names none, or one that is not known, holds them all.
pub proof fn tick_lists_hold_a_stage_or_all(ticks: Seq<TickView>, p: Members)
    ensures
        ({
            let rows = ticks_at(ticks, asked_stage(p));
            match text_of(p, "status"@) {
                None => rows == ticks,
                Some(name) => match TickStatus::of_name(name) {
                    None => rows == ticks,
                    Some(stage) => holds_those(ticks, |t: TickView| t.status == stage, rows),
                },
            }
        }),
{
    let stage = asked_stage(p);
    let keep = |t: TickView| stage is None || t.status == stage->0;
    match stage {
        None => {
            crate::table::full_filter(ticks, keep);
        },
        Some(s) => {
            filter_holds_those(ticks, keep, |t: TickView| t.status == s);
        },
    }
}

} // verus!
