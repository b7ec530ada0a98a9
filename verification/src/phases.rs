//! Phases, each under a spec.

use crate::hierarchy::{
    closed_parent, closed_parent_error, draft_under, handle_transition, has_draft_under, opt_error,
    transition, StagedView,
};
use crate::numbers::low32;
use crate::params::{count_of, text_of, Members, Params};
use crate::protocol::{
    answers, invalid_params, not_found, precondition_failed, DaemonEvent, DaemonEventView,
    DaemonRequest, Outcome, Reply, RpcError, RpcErrorView,
};
use crate::records::{Phase, PhaseView, Spec, SpecView};
use crate::specs::{asked_order, read_order};
use crate::status::{HierarchyStatus, Role, Verdict};
use crate::steps::{
    children, fetch, fetched, is_refused_with, list_children, listed, persist, refuse, takes,
    ChildView, Listing, Step, StepView, Stored, StoredList,
};
use crate::table::{distinct, known, lookup, place, put, put_then_lookup, Keyed, Record, Table};
use crate::text::{opt_text, replaced, text_or};
use vstd::prelude::*;

verus! {

/// A phase that a request asks for.
#[derive(Debug)]
pub struct PhaseDraft {
    pub parent_id: Option<String>,
    pub title: String,
    pub description: String,
    pub order: u32,
}

#[verifier::ext_equal]
pub struct PhaseDraftView {
    pub parent_id: Option<Seq<char>>,
    pub title: Seq<char>,
    pub description: Seq<char>,
    pub order: u32,
}

impl View for PhaseDraft {
    type V = PhaseDraftView;

    open spec fn view(&self) -> PhaseDraftView {
        PhaseDraftView {
            parent_id: opt_text(self.parent_id),
            title: self.title@,
            description: self.description@,
            order: self.order,
        }
    }
}

/// The phase that parameters ask for.
pub open spec fn asked_phase(p: Members) -> PhaseDraftView {
    PhaseDraftView {
        parent_id: text_of(p, "parent_id"@),
        title: text_or(text_of(p, "title"@), Seq::empty()),
        description: text_or(text_of(p, "description"@), Seq::empty()),
        order: asked_order(p),
    }
}

impl PhaseDraft {
    /// Reads the phase that parameters ask for.
    pub fn read(p: &Params) -> (r: PhaseDraft)
        ensures
            r@ == asked_phase(p@),
    {
        PhaseDraft {
            parent_id: p.text("parent_id"),
            title: p.text_or_empty("title"),
            description: p.text_or_empty("description"),
            order: read_order(p),
        }
    }
}

/// Why a phase is not made: no spec to stand under, a closed one, no title, or
/// a draft under the spec already.
pub open spec fn phase_refusal(
    specs: Seq<SpecView>,
    phases: Seq<PhaseView>,
    d: PhaseDraftView,
) -> Option<RpcErrorView> {
    match d.parent_id {
        None => Some(invalid_params("parent_id is required"@)),
        Some(parent) => match lookup(specs, parent) {
            None => Some(not_found("spec"@, parent)),
            Some(above) => if above.status.is_closed() {
                Some(closed_parent("phase"@, above.status, "spec"@, parent))
            } else if d.title.len() == 0 {
                Some(invalid_params("title is required"@))
            } else if has_draft_under(phases, parent) {
                Some(
                    precondition_failed(
                        "A Draft Phase already exists under this Spec; abandon it before creating a new one"@,
                    ),
                )
            } else {
                None
            },
        },
    }
}

/// The phase that is made.
pub open spec fn made_phase(d: PhaseDraftView, id: Seq<char>, now: i64) -> PhaseView {
    PhaseView {
        id,
        parent_id: d.parent_id->0,
        title: d.title,
        description: d.description,
        order: d.order,
        status: HierarchyStatus::Draft,
        created_at: now,
        updated_at: now,
    }
}

/// The next step of a request that asks for a phase.
pub open spec fn phase_creation(
    specs: Seq<SpecView>,
    phases: Seq<PhaseView>,
    d: PhaseDraftView,
    id: Seq<char>,
    now: i64,
) -> StepView<PhaseView> {
    match phase_refusal(specs, phases, d) {
        Some(e) => StepView::Reply(Reply::Refused(e), Seq::empty()),
        None => StepView::Persist(
            made_phase(d, id, now),
            seq![DaemonEventView::RecordCreated { collection: "phase"@, id }],
        ),
    }
}

/// Makes a phase under a fresh id, unless something stands against it. The
/// phase joins the others once it is written.
pub fn create_phase(
    specs: &Table<Spec>,
    phases: &Table<Phase>,
    request: u64,
    d: PhaseDraft,
    id: String,
    now: i64,
) -> (r: Step<Phase>)
    ensures
        takes(r, request, phase_creation(specs@, phases@, d@, id@, now)),
{
    let parent: String = match d.parent_id {
        Some(parent) => parent,
        None => {
            return refuse(request, RpcError::invalid_params("parent_id is required"));
        },
    };
    match specs.get(parent.as_str()) {
        None => {
            return refuse(request, RpcError::not_found("spec", parent.as_str()));
        },
        Some(above) => {
            if above.status.closed() {
                return refuse(
                    request,
                    closed_parent_error("phase", above.status, "spec", parent.as_str()),
                );
            }
        },
    }
    if d.title.as_str().is_empty() {
        return refuse(request, RpcError::invalid_params("title is required"));
    }
    if draft_under(phases, parent.as_str()) {
        return refuse(
            request,
            RpcError::precondition_failed(
                "A Draft Phase already exists under this Spec; abandon it before creating a new one",
            ),
        );
    }
    let event: DaemonEvent = DaemonEvent::record_created("phase", id.as_str());
    persist(request, Phase::new(id, parent, d.title, d.description, d.order, now), event)
}

/// Answers a request that asks for a phase.
pub fn handle_phase_create(
    specs: &Table<Spec>,
    phases: &Table<Phase>,
    req: &DaemonRequest,
    id: String,
    now: i64,
) -> (r: Step<Phase>)
    ensures
        takes(r, req.id, phase_creation(specs@, phases@, asked_phase(req.params@), id@, now)),
{
    create_phase(specs, phases, req.id, PhaseDraft::read(&req.params), id, now)
}

/// Answers a request for one phase.
pub fn handle_phase_get(phases: &Table<Phase>, req: &DaemonRequest, stored: Stored<Phase>) -> (r:
    Outcome<Phase>)
    ensures
        answers(
            r,
            req.id,
            fetched("phase"@, phases@, text_of(req.params@, "id"@), stored),
            Seq::empty(),
        ),
{
    fetch("phase", phases, req, stored)
}

/// Answers a request for the phases under a spec, or all.
pub fn handle_phase_list(
    phases: &Table<Phase>,
    req: &DaemonRequest,
    stored: StoredList<Phase>,
) -> (r: Outcome<Listing<Phase>>)
    ensures
        answers(
            r,
            req.id,
            listed(children(phases@, text_of(req.params@, "parent_id"@)), stored),
            Seq::empty(),
        ),
{
    list_children(phases, req, stored)
}

/// Answers a transition request for a phase. `verdict` is what the rules of
/// the hierarchy say of the move, `gate` what the validation gate has against
/// it.
pub fn handle_phase_transition(
    phases: &mut Table<Phase>,
    req: &DaemonRequest,
    named: Option<Role>,
    verdict: Verdict,
    gate: Option<RpcError>,
    now: i64,
) -> (r: Step<Phase>)
    ensures
        final(phases)@ == transition(
            old(phases)@,
            "phase"@,
            "phases"@,
            req.params@,
            named,
            verdict@,
            opt_error(gate),
            now,
        ).0,
        takes(
            r,
            req.id,
            transition(
                old(phases)@,
                "phase"@,
                "phases"@,
                req.params@,
                named,
                verdict@,
                opt_error(gate),
                now,
            ).1,
        ),
{
    handle_transition(phases, "phase", "phases", req, named, verdict, gate, now)
}

/// The phase with the changes that parameters ask for.
pub open spec fn changed_phase(ph: PhaseView, p: Members, now: i64) -> PhaseView {
    PhaseView {
        title: replaced(text_of(p, "title"@), ph.title),
        description: replaced(text_of(p, "description"@), ph.description),
        order: if count_of(p, "order"@) is Some {
            asked_order(p)
        } else {
            ph.order
        },
        updated_at: now,
        ..ph
    }
}

/// What an update request makes of the phases, and its next step.
pub open spec fn phase_update_request(
    phases: Seq<PhaseView>,
    p: Members,
    now: i64,
) -> (Seq<PhaseView>, StepView<PhaseView>) {
    match text_of(p, "id"@) {
        None => (
            phases,
            StepView::Reply(Reply::Refused(invalid_params("id is required"@)), Seq::empty()),
        ),
        Some(id) => match lookup(phases, id) {
            None => (
                phases,
                StepView::Reply(Reply::Refused(not_found("phases"@, id)), Seq::empty()),
            ),
            Some(ph) => (
                put(phases, changed_phase(ph, p, now)),
                StepView::Persist(
                    changed_phase(ph, p, now),
                    seq![DaemonEventView::RecordUpdated { collection: "phases"@, id }],
                ),
            ),
        },
    }
}

/// Answers a request that changes a phase: it changes at once and has then to
/// be written.
pub fn handle_phase_update(phases: &mut Table<Phase>, req: &DaemonRequest, now: i64) -> (r: Step<
    Phase,
>)
    ensures
        final(phases)@ == phase_update_request(old(phases)@, req.params@, now).0,
        takes(r, req.id, phase_update_request(old(phases)@, req.params@, now).1),
{
    let id: String = match req.params.text("id") {
        Some(id) => id,
        None => {
            return refuse(req.id, RpcError::invalid_params("id is required"));
        },
    };
    let mut ph: Phase = match phases.get(id.as_str()) {
        Some(ph) => ph.copied(),
        None => {
            return refuse(req.id, RpcError::not_found("phases", id.as_str()));
        },
    };
    let ghost before = ph@;
    match req.params.text("title") {
        Some(title) => {
            ph.title = title;
        },
        None => {},
    }
    match req.params.text("description") {
        Some(description) => {
            ph.description = description;
        },
        None => {},
    }
    match req.params.count("order") {
        Some(n) => {
            ph.order = low32(n);
        },
        None => {},
    }
    ph.updated_at = now;
    assert(ph@ =~= changed_phase(before, req.params@, now));
    phases.put(ph.copied());
    persist(req.id, ph, DaemonEvent::record_updated("phases", id.as_str()))
}

/// A phase is made only under a spec that exists and is open, and is the only
/// draft under it.
pub proof fn made_phase_is_the_only_draft(
    specs: Seq<SpecView>,
    phases: Seq<PhaseView>,
    d: PhaseDraftView,
    id: Seq<char>,
    now: i64,
    i: int,
)
    requires
        !known(phases, id),
    ensures
        phase_creation(specs, phases, d, id, now) matches StepView::Persist(made, _) ==> {
            &&& made.id == id
            &&& made.status is Draft
            &&& lookup(specs, made.parent_id) matches Some(above) && !above.status.is_closed()
            &&& 0 <= i < put(phases, made).len() && put(phases, made)[i].status is Draft && put(
                phases,
                made,
            )[i].parent_id == made.parent_id ==> put(phases, made)[i] == made
        },
{
    match phase_creation(specs, phases, d, id, now) {
        StepView::Persist(made, _) => {
            if 0 <= i < phases.len() {
                assert(put(phases, made)[i] == phases[i]);
                assert(!(phases[i].parent() == made.parent_id && phases[i].stage() is Draft));
            }
        },
        _ => {},
    }
}

/// Whether a phase under the spec is a draft.
pub open spec fn drafted_under(phases: Seq<PhaseView>, above: Seq<char>) -> bool {
    exists|i: int|
        0 <= i < phases.len() && (#[trigger] phases[i]).parent_id == above && phases[i].status
            == HierarchyStatus::Draft
}

/// A phase is made exactly if the request names a spec that is a draft or at
/// work, gives a title, and no phase under that spec is a draft. It is then a
/// draft itself, with what the request gives.
pub proof fn made_phase_is_what_was_asked_for(
    specs: Seq<SpecView>,
    phases: Seq<PhaseView>,
    p: Members,
    id: Seq<char>,
    now: i64,
)
    ensures
        ({
            let step = phase_creation(specs, phases, asked_phase(p), id, now);
            let title = text_of(p, "title"@);
            match text_of(p, "parent_id"@) {
                None => is_refused_with(step, -32602),
                Some(parent) => match lookup(specs, parent) {
                    None => is_refused_with(step, -32001),
                    Some(above) => if above.status != HierarchyStatus::Draft && above.status
                        != HierarchyStatus::Active {
                        is_refused_with(step, -32005)
                    } else if title is None || title->0.len() == 0 {
                        is_refused_with(step, -32602)
                    } else if drafted_under(phases, parent) {
                        is_refused_with(step, -32005)
                    } else {
                        let made = step->Persist_0;
                        &&& step is Persist
                        &&& step->Persist_1 == seq![
                            DaemonEventView::RecordCreated { collection: "phase"@, id },
                        ]
                        &&& made.id == id
                        &&& made.parent_id == parent
                        &&& Some(made.title) == title
                        &&& match text_of(p, "description"@) {
                            Some(description) => made.description == description,
                            None => made.description.len() == 0,
                        }
                        &&& made.order == match count_of(p, "order"@) {
                            Some(n) => n as int % 0x1_0000_0000,
                            None => 0,
                        }
                        &&& made.status == HierarchyStatus::Draft
                        &&& made.created_at == now
                        &&& made.updated_at == now
                    },
                },
            }
        }),
{
    if let Some(parent) = text_of(p, "parent_id"@) {
        if drafted_under(phases, parent) {
            let i = choose|i: int|
                0 <= i < phases.len() && (#[trigger] phases[i]).parent_id == parent
                    && phases[i].status == HierarchyStatus::Draft;
            assert(phases[i].parent() == parent);
        }
        if has_draft_under(phases, parent) {
            let i = choose|i: int|
                0 <= i < phases.len() && (#[trigger] phases[i]).parent() == parent
                    && phases[i].stage() is Draft;
            assert(phases[i].parent_id == parent);
        }
    }
}

/// A phase that is known under the id of the request is changed: it has what the
/// request gives and keeps the rest. It is found under its id as it has to be
/// written, and every other phase is as it was.
pub proof fn changed_phase_has_what_was_given(
    phases: Seq<PhaseView>,
    p: Members,
    now: i64,
    other: Seq<char>,
)
    requires
        distinct(phases),
    ensures
        ({
            let (after, step) = phase_update_request(phases, p, now);
            match text_of(p, "id"@) {
                None => after == phases && is_refused_with(step, -32602),
                Some(id) => match lookup(phases, id) {
                    None => after == phases && is_refused_with(step, -32001),
                    Some(before) => {
                        let ph = step->Persist_0;
                        &&& step is Persist
                        &&& step->Persist_1 == seq![
                            DaemonEventView::RecordUpdated { collection: "phases"@, id },
                        ]
                        &&& ph.id == id
                        &&& ph.title == match text_of(p, "title"@) {
                            Some(title) => title,
                            None => before.title,
                        }
                        &&& ph.description == match text_of(p, "description"@) {
                            Some(description) => description,
                            None => before.description,
                        }
                        &&& ph.order == match count_of(p, "order"@) {
                            Some(n) => n as int % 0x1_0000_0000,
                            None => before.order as int,
                        }
                        &&& ph.parent_id == before.parent_id
                        &&& ph.status == before.status
                        &&& ph.created_at == before.created_at
                        &&& ph.updated_at == now
                        &&& lookup(after, other) == if other == id {
                            Some(ph)
                        } else {
                            lookup(phases, other)
                        }
                    },
                },
            }
        }),
{
    if let Some(id) = text_of(p, "id"@) {
        if known(phases, id) {
            assert(phases[place(phases, id)].key() == id);
            put_then_lookup(phases, phase_update_request(phases, p, now).1->Persist_0, other);
        }
    }
}

} // verus!
