//! Specs, each under a plan.

use crate::hierarchy::{
    closed_parent, closed_parent_error, draft_under, handle_transition, has_draft_under, opt_error,
    transition, StagedView,
};
use crate::numbers::low32;
use crate::params::{count_of, text_of, Members, Params};
use crate::protocol::{
    answers, invalid_params, not_found, precondition_failed, DaemonEvent, DaemonEventView,
    DaemonRequest, Outcome, Reply, RpcError, RpcErrorView,
};
use crate::records::{Plan, PlanView, Spec, SpecView};
use crate::status::{HierarchyStatus, Role, Verdict};
use crate::steps::{
    children, fetch, fetched, is_refused_with, list_children, listed, persist, refuse, takes,
    ChildView, Listing, Step, StepView, Stored, StoredList,
};
use crate::table::{distinct, known, lookup, place, put, put_then_lookup, Keyed, Record, Table};
use crate::text::{opt_text, replaced, text_or};
use vstd::prelude::*;

verus! {

/// A spec that a request asks for.
#[derive(Debug)]
pub struct SpecDraft {
    pub parent_id: Option<String>,
    pub title: String,
    pub order: u32,
}

#[verifier::ext_equal]
pub struct SpecDraftView {
    pub parent_id: Option<Seq<char>>,
    pub title: Seq<char>,
    pub order: u32,
}

impl View for SpecDraft {
    type V = SpecDraftView;

    open spec fn view(&self) -> SpecDraftView {
        SpecDraftView {
            parent_id: opt_text(self.parent_id),
            title: self.title@,
            order: self.order,
        }
    }
}

/// The place in the order that parameters give, zero where they give none.
pub open spec fn asked_order(p: Members) -> u32 {
    match count_of(p, "order"@) {
        Some(n) => (n % 0x1_0000_0000) as u32,
        None => 0,
    }
}

/// Reads the place in the order that parameters give.
pub fn read_order(p: &Params) -> (r: u32)
    ensures
        r == asked_order(p@),
{
    match p.count("order") {
        Some(n) => low32(n),
        None => 0,
    }
}

/// The spec that parameters ask for.
pub open spec fn asked_spec(p: Members) -> SpecDraftView {
    SpecDraftView {
        parent_id: text_of(p, "parent_id"@),
        title: text_or(text_of(p, "title"@), Seq::empty()),
        order: asked_order(p),
    }
}

impl SpecDraft {
    /// Reads the spec that parameters ask for.
    pub fn read(p: &Params) -> (r: SpecDraft)
        ensures
            r@ == asked_spec(p@),
    {
        SpecDraft {
            parent_id: p.text("parent_id"),
            title: p.text_or_empty("title"),
            order: read_order(p),
        }
    }
}

/// Why a spec is not made: no plan to stand under, a closed one, no title, or
/// a draft under the plan already.
pub open spec fn spec_refusal(
    plans: Seq<PlanView>,
    specs: Seq<SpecView>,
    d: SpecDraftView,
) -> Option<RpcErrorView> {
    match d.parent_id {
        None => Some(invalid_params("parent_id is required"@)),
        Some(parent) => match lookup(plans, parent) {
            None => Some(not_found("plan"@, parent)),
            Some(plan) => if plan.status.is_closed() {
                Some(closed_parent("spec"@, plan.status, "plan"@, parent))
            } else if d.title.len() == 0 {
                Some(invalid_params("title is required"@))
            } else if has_draft_under(specs, parent) {
                Some(
                    precondition_failed(
                        "A Draft Spec already exists under this Plan; abandon it before creating a new one"@,
                    ),
                )
            } else {
                None
            },
        },
    }
}

/// The spec that is made.
pub open spec fn made_spec(d: SpecDraftView, id: Seq<char>, now: i64) -> SpecView {
    SpecView {
        id,
        parent_id: d.parent_id->0,
        title: d.title,
        order: d.order,
        status: HierarchyStatus::Draft,
        created_at: now,
        updated_at: now,
    }
}

/// The next step of a request that asks for a spec.
pub open spec fn spec_creation(
    plans: Seq<PlanView>,
    specs: Seq<SpecView>,
    d: SpecDraftView,
    id: Seq<char>,
    now: i64,
) -> StepView<SpecView> {
    match spec_refusal(plans, specs, d) {
        Some(e) => StepView::Reply(Reply::Refused(e), Seq::empty()),
        None => StepView::Persist(
            made_spec(d, id, now),
            seq![DaemonEventView::RecordCreated { collection: "spec"@, id }],
        ),
    }
}

/// Makes a spec under a fresh id, unless something stands against it. The spec
/// joins the others once it is written.
pub fn create_spec(
    plans: &Table<Plan>,
    specs: &Table<Spec>,
    request: u64,
    d: SpecDraft,
    id: String,
    now: i64,
) -> (r: Step<Spec>)
    ensures
        takes(r, request, spec_creation(plans@, specs@, d@, id@, now)),
{
    let parent: String = match d.parent_id {
        Some(parent) => parent,
        None => {
            return refuse(request, RpcError::invalid_params("parent_id is required"));
        },
    };
    match plans.get(parent.as_str()) {
        None => {
            return refuse(request, RpcError::not_found("plan", parent.as_str()));
        },
        Some(plan) => {
            if plan.status.closed() {
                return refuse(
                    request,
                    closed_parent_error("spec", plan.status, "plan", parent.as_str()),
                );
            }
        },
    }
    if d.title.as_str().is_empty() {
        return refuse(request, RpcError::invalid_params("title is required"));
    }
    if draft_under(specs, parent.as_str()) {
        return refuse(
            request,
            RpcError::precondition_failed(
                "A Draft Spec already exists under this Plan; abandon it before creating a new one",
            ),
        );
    }
    let event: DaemonEvent = DaemonEvent::record_created("spec", id.as_str());
    persist(request, Spec::new(id, parent, d.title, d.order, now), event)
}

/// Answers a request that asks for a spec.
pub fn handle_spec_create(
    plans: &Table<Plan>,
    specs: &Table<Spec>,
    req: &DaemonRequest,
    id: String,
    now: i64,
) -> (r: Step<Spec>)
    ensures
        takes(r, req.id, spec_creation(plans@, specs@, asked_spec(req.params@), id@, now)),
{
    create_spec(plans, specs, req.id, SpecDraft::read(&req.params), id, now)
}

/// Answers a request for one spec.
pub fn handle_spec_get(specs: &Table<Spec>, req: &DaemonRequest, stored: Stored<Spec>) -> (r:
    Outcome<Spec>)
    ensures
        answers(
            r,
            req.id,
            fetched("spec"@, specs@, text_of(req.params@, "id"@), stored),
            Seq::empty(),
        ),
{
    fetch("spec", specs, req, stored)
}

/// Answers a request for the specs under a plan, or all.
pub fn handle_spec_list(specs: &Table<Spec>, req: &DaemonRequest, stored: StoredList<Spec>) -> (r:
    Outcome<Listing<Spec>>)
    ensures
        answers(
            r,
            req.id,
            listed(children(specs@, text_of(req.params@, "parent_id"@)), stored),
            Seq::empty(),
        ),
{
    list_children(specs, req, stored)
}

/// Answers a transition request for a spec. `verdict` is what the rules of the
/// hierarchy say of the move, `gate` what the validation gate has against it.
pub fn handle_spec_transition(
    specs: &mut Table<Spec>,
    req: &DaemonRequest,
    named: Option<Role>,
    verdict: Verdict,
    gate: Option<RpcError>,
    now: i64,
) -> (r: Step<Spec>)
    ensures
        final(specs)@ == transition(
            old(specs)@,
            "spec"@,
            "specs"@,
            req.params@,
            named,
            verdict@,
            opt_error(gate),
            now,
        ).0,
        takes(
            r,
            req.id,
            transition(
                old(specs)@,
                "spec"@,
                "specs"@,
                req.params@,
                named,
                verdict@,
                opt_error(gate),
                now,
            ).1,
        ),
{
    handle_transition(specs, "spec", "specs", req, named, verdict, gate, now)
}

/// The spec with the title that a request gives it, if any.
pub open spec fn changed_spec(s: SpecView, title: Option<Seq<char>>, now: i64) -> SpecView {
    SpecView { title: replaced(title, s.title), updated_at: now, ..s }
}

/// What an update request makes of the specs, and its next step.
pub open spec fn spec_update_request(
    specs: Seq<SpecView>,
    p: Members,
    now: i64,
) -> (Seq<SpecView>, StepView<SpecView>) {
    match text_of(p, "id"@) {
        None => (
            specs,
            StepView::Reply(Reply::Refused(invalid_params("id is required"@)), Seq::empty()),
        ),
        Some(id) => match lookup(specs, id) {
            None => (
                specs,
                StepView::Reply(Reply::Refused(not_found("specs"@, id)), Seq::empty()),
            ),
            Some(s) => (
                put(specs, changed_spec(s, text_of(p, "title"@), now)),
                StepView::Persist(
                    changed_spec(s, text_of(p, "title"@), now),
                    seq![DaemonEventView::RecordUpdated { collection: "specs"@, id }],
                ),
            ),
        },
    }
}

/// Answers a request that changes a spec: it changes at once and has then to
/// be written.
pub fn handle_spec_update(specs: &mut Table<Spec>, req: &DaemonRequest, now: i64) -> (r: Step<Spec>)
    ensures
        final(specs)@ == spec_update_request(old(specs)@, req.params@, now).0,
        takes(r, req.id, spec_update_request(old(specs)@, req.params@, now).1),
{
    let id: String = match req.params.text("id") {
        Some(id) => id,
        None => {
            return refuse(req.id, RpcError::invalid_params("id is required"));
        },
    };
    let mut s: Spec = match specs.get(id.as_str()) {
        Some(s) => s.copied(),
        None => {
            return refuse(req.id, RpcError::not_found("specs", id.as_str()));
        },
    };
    let ghost before = s@;
    match req.params.text("title") {
        Some(title) => {
            s.title = title;
        },
        None => {},
    }
    s.updated_at = now;
    assert(s@ =~= changed_spec(before, text_of(req.params@, "title"@), now));
    specs.put(s.copied());
    persist(req.id, s, DaemonEvent::record_updated("specs", id.as_str()))
}

/// A spec is made only under a plan that exists and is open, and is the only
/// draft under it.
pub proof fn made_spec_is_the_only_draft(
    plans: Seq<PlanView>,
    specs: Seq<SpecView>,
    d: SpecDraftView,
    id: Seq<char>,
    now: i64,
    i: int,
)
    requires
        !known(specs, id),
    ensures
        spec_creation(plans, specs, d, id, now) matches StepView::Persist(made, _) ==> {
            &&& made.id == id
            &&& made.status is Draft
            &&& lookup(plans, made.parent_id) matches Some(above) && !above.status.is_closed()
            &&& 0 <= i < put(specs, made).len() && put(specs, made)[i].status is Draft && put(
                specs,
                made,
            )[i].parent_id == made.parent_id ==> put(specs, made)[i] == made
        },
{
    match spec_creation(plans, specs, d, id, now) {
        StepView::Persist(made, _) => {
            if 0 <= i < specs.len() {
                assert(put(specs, made)[i] == specs[i]);
                assert(!(specs[i].parent() == made.parent_id && specs[i].stage() is Draft));
            }
        },
        _ => {},
    }
}

/// Whether a spec under the plan is a draft.
pub open spec fn drafted_under(specs: Seq<SpecView>, plan: Seq<char>) -> bool {
    exists|i: int|
        0 <= i < specs.len() && (#[trigger] specs[i]).parent_id == plan && specs[i].status
            == HierarchyStatus::Draft
}

/// A spec is made exactly if the request names a plan that is a draft or at
/// work, gives a title, and no spec under that plan is a draft. It is then a
/// draft itself, with what the request gives.
pub proof fn made_spec_is_what_was_asked_for(
    plans: Seq<PlanView>,
    specs: Seq<SpecView>,
    p: Members,
    id: Seq<char>,
    now: i64,
)
    ensures
        ({
            let step = spec_creation(plans, specs, asked_spec(p), id, now);
            let title = text_of(p, "title"@);
            match text_of(p, "parent_id"@) {
                None => is_refused_with(step, -32602),
                Some(parent) => match lookup(plans, parent) {
                    None => is_refused_with(step, -32001),
                    Some(plan) => if plan.status != HierarchyStatus::Draft && plan.status
                        != HierarchyStatus::Active {
                        is_refused_with(step, -32005)
                    } else if title is None || title->0.len() == 0 {
                        is_refused_with(step, -32602)
                    } else if drafted_under(specs, parent) {
                        is_refused_with(step, -32005)
                    } else {
                        let made = step->Persist_0;
                        &&& step is Persist
                        &&& step->Persist_1 == seq![
                            DaemonEventView::RecordCreated { collection: "spec"@, id },
                        ]
                        &&& made.id == id
                        &&& made.parent_id == parent
                        &&& Some(made.title) == title
                        &&& made.order == match count_of(p, "order"@) {
                            Some(n) => n as int % 0x1_0000_0000,
                            None => 0,
                        }
                        &&& made.status == HierarchyStatus::Draft
                        &&& made.created_at == now
                        &&& made.updated_at == now
                    },
                },
            }
        }),
{
    if let Some(parent) = text_of(p, "parent_id"@) {
        if drafted_under(specs, parent) {
            let i = choose|i: int|
                0 <= i < specs.len() && (#[trigger] specs[i]).parent_id == parent
                    && specs[i].status == HierarchyStatus::Draft;
            assert(specs[i].parent() == parent);
        }
        if has_draft_under(specs, parent) {
            let i = choose|i: int|
                0 <= i < specs.len() && (#[trigger] specs[i]).parent() == parent
                    && specs[i].stage() is Draft;
            assert(specs[i].parent_id == parent);
        }
    }
}

/// A spec that is known under the id of the request is changed: it has the title
/// that the request gives and keeps the rest. It is found under its id as it has
/// to be written, and every other spec is as it was.
pub proof fn changed_spec_has_what_was_given(
    specs: Seq<SpecView>,
    p: Members,
    now: i64,
    other: Seq<char>,
)
    requires
        distinct(specs),
    ensures
        ({
            let (after, step) = spec_update_request(specs, p, now);
            match text_of(p, "id"@) {
                None => after == specs && is_refused_with(step, -32602),
                Some(id) => match lookup(specs, id) {
                    None => after == specs && is_refused_with(step, -32001),
                    Some(before) => {
                        let s = step->Persist_0;
                        &&& step is Persist
                        &&& step->Persist_1 == seq![
                            DaemonEventView::RecordUpdated { collection: "specs"@, id },
                        ]
                        &&& s.id == id
                        &&& s.title == match text_of(p, "title"@) {
                            Some(title) => title,
                            None => before.title,
                        }
                        &&& s.parent_id == before.parent_id
                        &&& s.order == before.order
                        &&& s.status == before.status
                        &&& s.created_at == before.created_at
                        &&& s.updated_at == now
                        &&& lookup(after, other) == if other == id {
                            Some(s)
                        } else {
                            lookup(specs, other)
                        }
                    },
                },
            }
        }),
{
    if let Some(id) = text_of(p, "id"@) {
        if known(specs, id) {
            assert(specs[place(specs, id)].key() == id);
            put_then_lookup(specs, spec_update_request(specs, p, now).1->Persist_0, other);
        }
    }
}

} // verus!
