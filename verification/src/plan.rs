//! Plans.

use crate::hierarchy::{any_draft, handle_transition, has_draft, opt_error, transition, StagedView};
use crate::params::{text_of, Members, Params};
use crate::protocol::{
    answers, invalid_params, not_found, precondition_failed, DaemonEvent, DaemonEventView,
    DaemonRequest, Outcome, Reply, RpcError, RpcErrorView,
};
use crate::records::{Plan, PlanView};
use crate::status::{HierarchyStatus, Role, Verdict};
use crate::steps::{
    all_rows, fetch, fetched, is_refused_with, listed, persist, refuse, takes, Listing, Step,
    StepView, Stored, StoredList,
};
use crate::table::{distinct, known, lookup, place, put, put_then_lookup, Keyed, Record, Table};
use crate::text::{copy, opt_text, replaced, text_or};
use vstd::prelude::*;

verus! {

/// A plan that a request asks for.
#[derive(Debug)]
pub struct PlanDraft {
    pub title: String,
    pub description: String,
    pub acceptance_criteria: String,
}

#[verifier::ext_equal]
pub struct PlanDraftView {
    pub title: Seq<char>,
    pub description: Seq<char>,
    pub acceptance_criteria: Seq<char>,
}

impl View for PlanDraft {
    type V = PlanDraftView;

    open spec fn view(&self) -> PlanDraftView {
        PlanDraftView {
            title: self.title@,
            description: self.description@,
            acceptance_criteria: self.acceptance_criteria@,
        }
    }
}

/// The plan that parameters ask for.
pub open spec fn asked_plan(p: Members) -> PlanDraftView {
    PlanDraftView {
        title: text_or(text_of(p, "title"@), Seq::empty()),
        description: text_or(text_of(p, "description"@), Seq::empty()),
        acceptance_criteria: text_or(text_of(p, "acceptance_criteria"@), Seq::empty()),
    }
}

impl PlanDraft {
    /// Reads the plan that parameters ask for.
    pub fn read(p: &Params) -> (r: PlanDraft)
        ensures
            r@ == asked_plan(p@),
    {
        PlanDraft {
            title: p.text_or_empty("title"),
            description: p.text_or_empty("description"),
            acceptance_criteria: p.text_or_empty("acceptance_criteria"),
        }
    }
}

/// Why a plan is not made: it has no title, or there is a draft already.
pub open spec fn plan_refusal(plans: Seq<PlanView>, d: PlanDraftView) -> Option<RpcErrorView> {
    if d.title.len() == 0 {
        Some(invalid_params("title is required"@))
    } else if has_draft(plans) {
        Some(
            precondition_failed(
                "A Draft Plan already exists; abandon it before creating a new one"@,
            ),
        )
    } else {
        None
    }
}

/// The plan that is made.
pub open spec fn made_plan(d: PlanDraftView, id: Seq<char>, now: i64) -> PlanView {
    PlanView {
        id,
        title: d.title,
        description: d.description,
        acceptance_criteria: d.acceptance_criteria,
        status: HierarchyStatus::Draft,
        created_at: now,
        updated_at: now,
    }
}

/// The next step of a request that asks for a plan.
pub open spec fn plan_creation(
    plans: Seq<PlanView>,
    d: PlanDraftView,
    id: Seq<char>,
    now: i64,
) -> StepView<PlanView> {
    match plan_refusal(plans, d) {
        Some(e) => StepView::Reply(Reply::Refused(e), Seq::empty()),
        None => StepView::Persist(
            made_plan(d, id, now),
            seq![DaemonEventView::RecordCreated { collection: "plan"@, id }],
        ),
    }
}

/// Makes a plan under a fresh id, unless something stands against it. The plan
/// joins the others once it is written.
pub fn create_plan(plans: &Table<Plan>, request: u64, d: PlanDraft, id: String, now: i64) -> (r:
    Step<Plan>)
    ensures
        takes(r, request, plan_creation(plans@, d@, id@, now)),
{
    if d.title.as_str().is_empty() {
        return refuse(request, RpcError::invalid_params("title is required"));
    }
    if any_draft(plans) {
        return refuse(
            request,
            RpcError::precondition_failed(
                "A Draft Plan already exists; abandon it before creating a new one",
            ),
        );
    }
    let event: DaemonEvent = DaemonEvent::record_created("plan", id.as_str());
    let plan: Plan = Plan::new(id, d.title, d.description, d.acceptance_criteria, now);
    persist(request, plan, event)
}

/// Answers a request that asks for a plan.
pub fn handle_plan_create(plans: &Table<Plan>, req: &DaemonRequest, id: String, now: i64) -> (r:
    Step<Plan>)
    ensures
        takes(r, req.id, plan_creation(plans@, asked_plan(req.params@), id@, now)),
{
    create_plan(plans, req.id, PlanDraft::read(&req.params), id, now)
}

/// Answers a request for one plan.
pub fn handle_plan_get(plans: &Table<Plan>, req: &DaemonRequest, stored: Stored<Plan>) -> (r:
    Outcome<Plan>)
    ensures
        answers(
            r,
            req.id,
            fetched("plan"@, plans@, text_of(req.params@, "id"@), stored),
            Seq::empty(),
        ),
{
    fetch("plan", plans, req, stored)
}

/// Answers a request for all plans.
pub fn handle_plan_list(plans: &Table<Plan>, req: &DaemonRequest, stored: StoredList<Plan>) -> (r:
    Outcome<Listing<Plan>>)
    ensures
        answers(r, req.id, listed(plans@, stored), Seq::empty()),
{
    match stored {
        StoredList::Listed(rows) => Outcome::ok(req.id, Listing { rows }),
        StoredList::Failed(e) => Outcome::refuse(req.id, RpcError::internal(e.as_str())),
        StoredList::NoStore => Outcome::ok(req.id, Listing { rows: all_rows(plans) }),
    }
}

/// Answers a transition request for a plan. `verdict` is what the rules of the
/// hierarchy say of the move, `gate` what the validation gate has against it.
pub fn handle_plan_transition(
    plans: &mut Table<Plan>,
    req: &DaemonRequest,
    named: Option<Role>,
    verdict: Verdict,
    gate: Option<RpcError>,
    now: i64,
) -> (r: Step<Plan>)
    ensures
        final(plans)@ == transition(
            old(plans)@,
            "plan"@,
            "plans"@,
            req.params@,
            named,
            verdict@,
            opt_error(gate),
            now,
        ).0,
        takes(
            r,
            req.id,
            transition(
                old(plans)@,
                "plan"@,
                "plans"@,
                req.params@,
                named,
                verdict@,
                opt_error(gate),
                now,
            ).1,
        ),
{
    handle_transition(plans, "plan", "plans", req, named, verdict, gate, now)
}

/// The changes to a plan that a request asks for.
#[derive(Debug)]
pub struct PlanChanges {
    pub id: String,
    pub title: Option<String>,
    pub description: Option<String>,
    pub acceptance_criteria: Option<String>,
}

#[verifier::ext_equal]
pub struct PlanChangesView {
    pub id: Seq<char>,
    pub title: Option<Seq<char>>,
    pub description: Option<Seq<char>>,
    pub acceptance_criteria: Option<Seq<char>>,
}

impl View for PlanChanges {
    type V = PlanChangesView;

    open spec fn view(&self) -> PlanChangesView {
        PlanChangesView {
            id: self.id@,
            title: opt_text(self.title),
            description: opt_text(self.description),
            acceptance_criteria: opt_text(self.acceptance_criteria),
        }
    }
}

/// The changes that parameters ask for, or why they ask for none.
pub open spec fn asked_plan_changes(p: Members) -> Result<PlanChangesView, RpcErrorView> {
    match text_of(p, "id"@) {
        None => Err(invalid_params("id is required"@)),
        Some(id) => Ok(
            PlanChangesView {
                id,
                title: text_of(p, "title"@),
                description: text_of(p, "description"@),
                acceptance_criteria: text_of(p, "acceptance_criteria"@),
            },
        ),
    }
}

impl PlanChanges {
    /// Reads the changes that parameters ask for.
    pub fn read(p: &Params) -> (r: Result<PlanChanges, RpcError>)
        ensures
            match r {
                Ok(c) => asked_plan_changes(p@) == Ok::<PlanChangesView, RpcErrorView>(c@),
                Err(e) => asked_plan_changes(p@) == Err::<PlanChangesView, RpcErrorView>(e@),
            },
    {
        let id: String = match p.text("id") {
            Some(id) => id,
            None => {
                return Err(RpcError::invalid_params("id is required"));
            },
        };
        Ok(
            PlanChanges {
                id,
                title: p.text("title"),
                description: p.text("description"),
                acceptance_criteria: p.text("acceptance_criteria"),
            },
        )
    }
}

/// The plan with the changes, made at the time `now`.
pub open spec fn changed_plan(plan: PlanView, c: PlanChangesView, now: i64) -> PlanView {
    PlanView {
        title: replaced(c.title, plan.title),
        description: replaced(c.description, plan.description),
        acceptance_criteria: replaced(c.acceptance_criteria, plan.acceptance_criteria),
        updated_at: now,
        ..plan
    }
}

/// What changes make of the plans, and the next step.
pub open spec fn plan_update(
    plans: Seq<PlanView>,
    c: PlanChangesView,
    now: i64,
) -> (Seq<PlanView>, StepView<PlanView>) {
    match lookup(plans, c.id) {
        None => (
            plans,
            StepView::Reply(Reply::Refused(not_found("plans"@, c.id)), Seq::empty()),
        ),
        Some(plan) => (
            put(plans, changed_plan(plan, c, now)),
            StepView::Persist(
                changed_plan(plan, c, now),
                seq![DaemonEventView::RecordUpdated { collection: "plans"@, id: c.id }],
            ),
        ),
    }
}

/// What an update request makes of the plans, and its next step.
pub open spec fn plan_update_request(
    plans: Seq<PlanView>,
    p: Members,
    now: i64,
) -> (Seq<PlanView>, StepView<PlanView>) {
    match asked_plan_changes(p) {
        Err(e) => (plans, StepView::Reply(Reply::Refused(e), Seq::empty())),
        Ok(c) => plan_update(plans, c, now),
    }
}

/// Changes a plan: it changes at once and has then to be written.
pub fn change_plan(plans: &mut Table<Plan>, request: u64, c: PlanChanges, now: i64) -> (r: Step<
    Plan,
>)
    ensures
        final(plans)@ == plan_update(old(plans)@, c@, now).0,
        takes(r, request, plan_update(old(plans)@, c@, now).1),
{
    let mut plan: Plan = match plans.get(c.id.as_str()) {
        Some(plan) => plan.copied(),
        None => {
            return refuse(request, RpcError::not_found("plans", c.id.as_str()));
        },
    };
    let ghost before = plan@;
    match &c.title {
        Some(title) => {
            plan.title = copy(title.as_str());
        },
        None => {},
    }
    match &c.description {
        Some(description) => {
            plan.description = copy(description.as_str());
        },
        None => {},
    }
    match &c.acceptance_criteria {
        Some(criteria) => {
            plan.acceptance_criteria = copy(criteria.as_str());
        },
        None => {},
    }
    plan.updated_at = now;
    assert(plan@ =~= changed_plan(before, c@, now));
    plans.put(plan.copied());
    persist(request, plan, DaemonEvent::record_updated("plans", c.id.as_str()))
}

/// Answers a request that changes a plan.
pub fn handle_plan_update(plans: &mut Table<Plan>, req: &DaemonRequest, now: i64) -> (r: Step<Plan>)
    ensures
        final(plans)@ == plan_update_request(old(plans)@, req.params@, now).0,
        takes(r, req.id, plan_update_request(old(plans)@, req.params@, now).1),
{
    match PlanChanges::read(&req.params) {
        Err(e) => refuse(req.id, e),
        Ok(c) => change_plan(plans, req.id, c, now),
    }
}

/// A plan that is made under a fresh id is the only draft.
pub proof fn made_plan_is_the_only_draft(
    plans: Seq<PlanView>,
    d: PlanDraftView,
    id: Seq<char>,
    now: i64,
    i: int,
)
    requires
        !known(plans, id),
    ensures
        plan_creation(plans, d, id, now) matches StepView::Persist(p, _) ==> {
            &&& p.id == id
            &&& p.status is Draft
            &&& 0 <= i < put(plans, p).len() && put(plans, p)[i].status is Draft ==> put(
                plans,
                p,
            )[i] == p
        },
{
    match plan_creation(plans, d, id, now) {
        StepView::Persist(p, _) => {
            if 0 <= i < plans.len() {
                assert(put(plans, p)[i] == plans[i]);
                assert(!(plans[i].stage() is Draft));
            }
        },
        _ => {},
    }
}

/// A plan is made exactly if the request gives it a title and no plan is a
/// draft. It is then a draft itself, with what the request gives, and without
/// what the request leaves out.
pub proof fn made_plan_is_what_was_asked_for(
    plans: Seq<PlanView>,
    p: Members,
    id: Seq<char>,
    now: i64,
)
    ensures
        ({
            let step = plan_creation(plans, asked_plan(p), id, now);
            let title = text_of(p, "title"@);
            if title is None || title->0.len() == 0 {
                is_refused_with(step, -32602)
            } else if exists|i: int|
                0 <= i < plans.len() && (#[trigger] plans[i]).status == HierarchyStatus::Draft {
                is_refused_with(step, -32005)
            } else {
                let made = step->Persist_0;
                &&& step is Persist
                &&& step->Persist_1 == seq![
                    DaemonEventView::RecordCreated { collection: "plan"@, id },
                ]
                &&& made.id == id
                &&& Some(made.title) == title
                &&& match text_of(p, "description"@) {
                    Some(description) => made.description == description,
                    None => made.description.len() == 0,
                }
                &&& match text_of(p, "acceptance_criteria"@) {
                    Some(criteria) => made.acceptance_criteria == criteria,
                    None => made.acceptance_criteria.len() == 0,
                }
                &&& made.status == HierarchyStatus::Draft
                &&& made.created_at == now
                &&& made.updated_at == now
            }
        }),
{
    if exists|i: int|
        0 <= i < plans.len() && (#[trigger] plans[i]).status == HierarchyStatus::Draft {
        let i = choose|i: int|
            0 <= i < plans.len() && (#[trigger] plans[i]).status == HierarchyStatus::Draft;
        assert(plans[i].stage() is Draft);
    }
    if has_draft(plans) {
        let i = choose|i: int| 0 <= i < plans.len() && (#[trigger] plans[i]).stage() is Draft;
        assert(plans[i].status == HierarchyStatus::Draft);
    }
}

/// A plan that is known under the id of the request is changed: it has what the
/// request gives and keeps the rest, its stage among it. It is found under its
/// id as it has to be written, and every other plan is as it was.
pub proof fn changed_plan_has_what_was_given(
    plans: Seq<PlanView>,
    p: Members,
    now: i64,
    other: Seq<char>,
)
    requires
        distinct(plans),
    ensures
        ({
            let (after, step) = plan_update_request(plans, p, now);
            match text_of(p, "id"@) {
                None => after == plans && is_refused_with(step, -32602),
                Some(id) => match lookup(plans, id) {
                    None => after == plans && is_refused_with(step, -32001),
                    Some(before) => {
                        let plan = step->Persist_0;
                        &&& step is Persist
                        &&& step->Persist_1 == seq![
                            DaemonEventView::RecordUpdated { collection: "plans"@, id },
                        ]
                        &&& plan.id == id
                        &&& plan.title == match text_of(p, "title"@) {
                            Some(title) => title,
                            None => before.title,
                        }
                        &&& plan.description == match text_of(p, "description"@) {
                            Some(description) => description,
                            None => before.description,
                        }
                        &&& plan.acceptance_criteria == match text_of(p, "acceptance_criteria"@) {
                            Some(criteria) => criteria,
                            None => before.acceptance_criteria,
                        }
                        &&& plan.status == before.status
                        &&& plan.created_at == before.created_at
                        &&& plan.updated_at == now
                        &&& lookup(after, other) == if other == id {
                            Some(plan)
                        } else {
                            lookup(plans, other)
                        }
                    },
                },
            }
        }),
{
    if let Some(id) = text_of(p, "id"@) {
        if known(plans, id) {
            assert(plans[place(plans, id)].key() == id);
            put_then_lookup(plans, plan_update_request(plans, p, now).1->Persist_0, other);
        }
    }
}

} // verus!
