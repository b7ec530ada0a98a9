//! Requests to a daemon that keeps its records in memory, with or without a
//! record store behind it.

use std::collections::VecDeque;

use loopr::hierarchy::HierarchyMove;
use loopr::phases::{
    handle_phase_create, handle_phase_get, handle_phase_list, handle_phase_transition,
    handle_phase_update,
};
use loopr::plan::{
    handle_plan_create, handle_plan_get, handle_plan_list, handle_plan_transition,
    handle_plan_update,
};
use loopr::protocol::{Actor, DaemonEvent, DaemonRequest, RpcError};
use loopr::records::{Bundle, Phase, Plan, Spec, Tick, Work};
use loopr::routes::{route, Method};
use loopr::specs::{
    handle_spec_create, handle_spec_get, handle_spec_list, handle_spec_transition,
    handle_spec_update,
};
use loopr::status::{BundleStatus, HierarchyStatus, Role, TickStatus, Verdict, WorkStatus};
use loopr::steps::{settle, settle_created, Step, Stored, StoredList};
use loopr::stores::Stores;
use loopr::system::{
    handle_handshake, handle_recover, handle_shutdown, handle_status, handle_system_init,
    Reconciliation, StoreListing, Vitals,
};
use loopr::table::{Record, Table};
use loopr::tick::{
    handle_tick_create, handle_tick_get, handle_tick_list, handle_tick_transition,
    handle_tick_update, TickMove,
};
use loopr::work::{
    handle_work_create, handle_work_get, handle_work_list, handle_work_update, MAX_WORK_ATTEMPTS,
};
use loopr::work_moves::{
    can_count, handle_work_transition, settle_work, unblock_dependents, WorkMove,
};
use loopr::worktree::{
    handle_worktree_cleanup, handle_worktree_create, handle_worktree_list,
    handle_worktree_refresh, settle_worktree_cleanup, settle_worktree_create,
    settle_worktree_refresh, Errand, WorktreeReport,
};
use serde_json::Value;

// ------------------------------------------------------------ the daemon

/// How strict the validator is.
#[derive(Clone, Copy, PartialEq)]
enum Strictness {
    HardFailOnAnyAmbiguity,
    AllowAmbiguityWithFlags,
    SuggestOnly,
}

/// What the validator found.
#[derive(Clone, Copy, PartialEq)]
enum Finding {
    Pass,
    Warn,
    Fail,
}

struct Event {
    event: String,
    data: Value,
}

struct Resp {
    result: Option<Value>,
    error: Option<RpcError>,
}

impl Resp {
    fn is_error(&self) -> bool {
        self.error.is_some()
    }
}

struct Daemon {
    stores: Stores,
    store: Option<Stores>,
    validator: Option<Strictness>,
    reports: Vec<(String, String, Finding)>,
    events: VecDeque<Event>,
    next: u32,
    now: i64,
}

fn object(members: Vec<(&str, Value)>) -> Value {
    let mut m = serde_json::Map::new();
    for (k, v) in members {
        m.insert(k.to_string(), v);
    }
    Value::Object(m)
}

fn text(s: &str) -> Value {
    Value::from(s)
}

fn texts(v: &Vec<String>) -> Value {
    Value::from(v.clone())
}

fn maybe(o: &Option<String>) -> Value {
    match o {
        Some(s) => text(s),
        None => Value::Null,
    }
}

fn plan_value(r: &Plan) -> Value {
    object(vec![
        ("id", text(&r.id)),
        ("title", text(&r.title)),
        ("description", text(&r.description)),
        ("acceptance_criteria", text(&r.acceptance_criteria)),
        ("status", text(r.status.name())),
    ])
}

fn spec_value(r: &Spec) -> Value {
    object(vec![
        ("id", text(&r.id)),
        ("parent_id", text(&r.parent_id)),
        ("title", text(&r.title)),
        ("order", Value::from(r.order)),
        ("status", text(r.status.name())),
    ])
}

fn phase_value(r: &Phase) -> Value {
    object(vec![
        ("id", text(&r.id)),
        ("parent_id", text(&r.parent_id)),
        ("title", text(&r.title)),
        ("description", text(&r.description)),
        ("order", Value::from(r.order)),
        ("status", text(r.status.name())),
    ])
}

fn work_value(r: &Work) -> Value {
    object(vec![
        ("id", text(&r.id)),
        ("parent_id", text(&r.parent_id)),
        ("title", text(&r.title)),
        ("assignee", maybe(&r.assignee)),
        ("files", texts(&r.files)),
        ("acceptance_criteria", texts(&r.acceptance_criteria)),
        ("dependencies", texts(&r.dependencies)),
        ("status", text(r.status.name())),
        ("attempt_count", Value::from(r.attempt_count)),
    ])
}

fn tick_value(r: &Tick) -> Value {
    object(vec![
        ("id", text(&r.id)),
        ("number", Value::from(r.number)),
        ("status", text(r.status.name())),
        ("integration_sha", maybe(&r.integration_sha)),
        ("validation_log", text(&r.validation_log)),
        ("bundle_ids", texts(&r.bundle_ids)),
        ("attempted_bundle_ids", texts(&r.attempted_bundle_ids)),
    ])
}

fn worktree_value(r: &WorktreeReport) -> Value {
    object(vec![
        ("work_id", text(&r.work_id)),
        ("path", maybe(&r.path)),
        ("status", maybe(&r.status)),
    ])
}

fn told(e: &DaemonEvent) -> Event {
    let data = match e {
        DaemonEvent::RecordCreated { collection, id }
        | DaemonEvent::RecordUpdated { collection, id } => {
            object(vec![("collection", text(collection)), ("id", text(id))])
        }
        DaemonEvent::TransitionCompleted { collection, id, from, to, by } => object(vec![
            ("collection", text(collection)),
            ("id", text(id)),
            ("from", text(from)),
            ("to", text(to)),
            ("system", Value::from(*by == Actor::System)),
        ]),
        DaemonEvent::TransitionRejected { collection, id, from, to, by: _, reason } => {
            object(vec![
                ("collection", text(collection)),
                ("id", text(id)),
                ("from", text(from)),
                ("to", text(to)),
                ("reason", text(reason)),
            ])
        }
        DaemonEvent::WorkOverridden { work_id, from, to, reason } => object(vec![
            ("work_id", text(work_id)),
            ("from", text(from)),
            ("to", text(to)),
            ("reason", text(reason)),
        ]),
        DaemonEvent::WorktreeCreated { work_id, path }
        | DaemonEvent::WorktreeCleaned { work_id, path } => {
            object(vec![("work_id", text(work_id)), ("path", text(path))])
        }
        DaemonEvent::ShutdownRequested | DaemonEvent::ShuttingDown => object(vec![]),
    };
    Event { event: e.name().to_string(), data }
}

/// What the role that a request names stands for.
fn named_role(req: &DaemonRequest) -> Option<Role> {
    match req.params.text("role")?.as_str() {
        "coordinator" => Some(Role::Coordinator),
        "implementer" => Some(Role::Implementer),
        "researcher" => Some(Role::Researcher),
        "integrator" => Some(Role::Integrator),
        _ => None,
    }
}

// The library takes the verdict on a move, and what the validation gate has
// against it, with each request. The three functions that follow and
// `Daemon::gate` stand in here for those who give them. So a test of a wrong
// role, of a forbidden move or of a report runs these stand-ins too; of the
// library it shows what is made of each verdict.

/// The stages of plans, specs and phases follow one another, and the
/// coordinator moves them.
fn hierarchy_rules(from: HierarchyStatus, to: HierarchyStatus, role: Role) -> Verdict {
    if from == to {
        return Verdict::Unchanged;
    }
    let allowed = matches!(
        (from, to),
        (HierarchyStatus::Draft, HierarchyStatus::Active)
            | (HierarchyStatus::Active, HierarchyStatus::Complete)
            | (HierarchyStatus::Draft, HierarchyStatus::Abandoned)
            | (HierarchyStatus::Active, HierarchyStatus::Abandoned)
    );
    if allowed && role == Role::Coordinator {
        Verdict::Changed
    } else {
        Verdict::Rejected(format!("{:?} -> {:?} not allowed for {:?}", from, to, role))
    }
}

/// The coordinator moves work items; implementers only what they work on.
fn work_rules(from: WorkStatus, to: WorkStatus, role: Role, is_override: bool) -> Verdict {
    if from == to {
        return Verdict::Unchanged;
    }
    let allowed = is_override
        || match role {
            Role::Coordinator => {
                from != WorkStatus::Done
                    && from != WorkStatus::Abandoned
                    && (from, to) != (WorkStatus::Draft, WorkStatus::Done)
            }
            Role::Implementer => matches!(
                (from, to),
                (WorkStatus::InProgress, WorkStatus::InReview)
                    | (WorkStatus::InProgress, WorkStatus::Blocked)
            ),
            _ => false,
        };
    if allowed {
        Verdict::Changed
    } else {
        Verdict::Rejected(format!("{:?} -> {:?} not allowed for {:?}", from, to, role))
    }
}

/// The stages of ticks follow one another, and the integrator moves them.
fn tick_rules(from: TickStatus, to: TickStatus, role: Role) -> Verdict {
    if from == to {
        return Verdict::Unchanged;
    }
    let allowed = matches!(
        (from, to),
        (TickStatus::Open, TickStatus::Sealing)
            | (TickStatus::Sealing, TickStatus::Validating)
            | (TickStatus::Validating, TickStatus::Published)
            | (TickStatus::Validating, TickStatus::Failed)
    );
    if allowed && role == Role::Integrator {
        Verdict::Changed
    } else {
        Verdict::Rejected(format!("{:?} -> {:?} not allowed for {:?}", from, to, role))
    }
}

impl Daemon {
    fn new() -> Daemon {
        Daemon {
            stores: Stores::new(),
            store: None,
            validator: None,
            reports: Vec::new(),
            events: VecDeque::new(),
            next: 0,
            now: 1000,
        }
    }

    fn with_store() -> Daemon {
        Daemon { store: Some(Stores::new()), ..Daemon::new() }
    }

    fn with_validator(strictness: Strictness) -> Daemon {
        Daemon { validator: Some(strictness), ..Daemon::with_store() }
    }

    /// Leaves out of account what was told so far.
    fn subscribe(&mut self) {
        self.events.clear();
    }

    fn next_event(&mut self) -> Option<Event> {
        self.events.pop_front()
    }

    fn tell(&mut self, events: &Vec<DaemonEvent>) {
        for e in events {
            self.events.push_back(told(e));
        }
    }

    fn fresh(&mut self, prefix: &str) -> String {
        self.next += 1;
        format!("{}-{}", prefix, self.next)
    }

    fn report(&mut self, collection: &str, id: &str, finding: Finding) {
        self.reports.push((collection.to_string(), id.to_string(), finding));
    }

    /// What the validation gate has against a move, in these tests: only the
    /// move from draft to active is watched, and the latest report counts.
    fn gate(
        &self,
        collection: &str,
        m: &HierarchyMove,
        from: Option<HierarchyStatus>,
    ) -> Option<RpcError> {
        let strictness = self.validator?;
        if from != Some(HierarchyStatus::Draft)
            || m.target != HierarchyStatus::Active
            || m.skip_validation
        {
            return None;
        }
        let latest = self
            .reports
            .iter()
            .rev()
            .find(|(c, id, _)| c == collection && id == &m.id)
            .map(|(_, _, finding)| *finding);
        let refused = match latest {
            None => Some("no validation report; run validator.validate first"),
            Some(Finding::Pass) => None,
            Some(Finding::Warn) if strictness == Strictness::HardFailOnAnyAmbiguity => {
                Some("validation has warnings")
            }
            Some(Finding::Warn) => None,
            Some(Finding::Fail) if strictness == Strictness::SuggestOnly => None,
            Some(Finding::Fail) => Some("validation failed"),
        };
        refused.map(|message| RpcError { code: -32003, message: message.to_string() })
    }

    fn stored_plan(&self, id: &str) -> Option<Plan> {
        self.store.as_ref().and_then(|s| s.plans.get(id).map(|r| r.copied()))
    }

    fn forget_plans(&mut self, id: Option<&String>) {
        let mut kept: Table<Plan> = Table::new();
        for i in 0..self.stores.plans.len() {
            let row = self.stores.plans.row(i);
            if id.is_some_and(|id| row.id != *id) {
                kept.put(row.copied());
            }
        }
        self.stores.plans = kept;
    }

    fn found_plan(&self, req: &DaemonRequest) -> Stored<Plan> {
        match (&self.store, req.params.text("id")) {
            (None, _) => Stored::NoStore,
            (Some(s), Some(id)) => match s.plans.get(&id) {
                Some(r) => Stored::Found(r.copied()),
                None => Stored::Missing,
            },
            (Some(_), None) => Stored::Missing,
        }
    }

    fn listed_plans(&self, _req: &DaemonRequest) -> StoredList<Plan> {
        match &self.store {
            None => StoredList::NoStore,
            Some(s) => {
                let mut rows = Vec::new();
                for i in 0..s.plans.len() {
                    let row = s.plans.row(i);
                    rows.push(row.copied());
                }
                StoredList::Listed(rows)
            }
        }
    }

    fn made_plan(&mut self, step: Step<Plan>) -> Resp {
        let outcome = match step {
            Step::Reply(outcome) => outcome,
            Step::Persist(p) => {
                if let Some(s) = &mut self.store {
                    s.plans.put(p.record.copied());
                }
                settle_created(&mut self.stores.plans, p, Ok(()))
            }
        };
        self.tell(&outcome.events);
        Resp {
            result: outcome.response.result.as_ref().map(plan_value),
            error: outcome.response.error,
        }
    }

    fn changed_plan(&mut self, step: Step<Plan>) -> Resp {
        let outcome = match step {
            Step::Reply(outcome) => outcome,
            Step::Persist(p) => {
                if let Some(s) = &mut self.store {
                    s.plans.put(p.record.copied());
                }
                settle(p, Ok(()))
            }
        };
        self.tell(&outcome.events);
        Resp {
            result: outcome.response.result.as_ref().map(plan_value),
            error: outcome.response.error,
        }
    }

    fn stored_spec(&self, id: &str) -> Option<Spec> {
        self.store.as_ref().and_then(|s| s.specs.get(id).map(|r| r.copied()))
    }

    fn forget_specs(&mut self, id: Option<&String>) {
        let mut kept: Table<Spec> = Table::new();
        for i in 0..self.stores.specs.len() {
            let row = self.stores.specs.row(i);
            if id.is_some_and(|id| row.id != *id) {
                kept.put(row.copied());
            }
        }
        self.stores.specs = kept;
    }

    fn found_spec(&self, req: &DaemonRequest) -> Stored<Spec> {
        match (&self.store, req.params.text("id")) {
            (None, _) => Stored::NoStore,
            (Some(s), Some(id)) => match s.specs.get(&id) {
                Some(r) => Stored::Found(r.copied()),
                None => Stored::Missing,
            },
            (Some(_), None) => Stored::Missing,
        }
    }

    fn listed_specs(&self, req: &DaemonRequest) -> StoredList<Spec> {
        let wanted = req.params.text("parent_id");
        match &self.store {
            None => StoredList::NoStore,
            Some(s) => {
                let mut rows = Vec::new();
                for i in 0..s.specs.len() {
                    let row = s.specs.row(i);
                    if wanted.as_ref().is_none_or(|w| row.parent_id == *w) {
                        rows.push(row.copied());
                    }
                }
                StoredList::Listed(rows)
            }
        }
    }

    fn made_spec(&mut self, step: Step<Spec>) -> Resp {
        let outcome = match step {
            Step::Reply(outcome) => outcome,
            Step::Persist(p) => {
                if let Some(s) = &mut self.store {
                    s.specs.put(p.record.copied());
                }
                settle_created(&mut self.stores.specs, p, Ok(()))
            }
        };
        self.tell(&outcome.events);
        Resp {
            result: outcome.response.result.as_ref().map(spec_value),
            error: outcome.response.error,
        }
    }

    fn changed_spec(&mut self, step: Step<Spec>) -> Resp {
        let outcome = match step {
            Step::Reply(outcome) => outcome,
            Step::Persist(p) => {
                if let Some(s) = &mut self.store {
                    s.specs.put(p.record.copied());
                }
                settle(p, Ok(()))
            }
        };
        self.tell(&outcome.events);
        Resp {
            result: outcome.response.result.as_ref().map(spec_value),
            error: outcome.response.error,
        }
    }

    fn stored_phase(&self, id: &str) -> Option<Phase> {
        self.store.as_ref().and_then(|s| s.phases.get(id).map(|r| r.copied()))
    }

    fn forget_phases(&mut self, id: Option<&String>) {
        let mut kept: Table<Phase> = Table::new();
        for i in 0..self.stores.phases.len() {
            let row = self.stores.phases.row(i);
            if id.is_some_and(|id| row.id != *id) {
                kept.put(row.copied());
            }
        }
        self.stores.phases = kept;
    }

    fn found_phase(&self, req: &DaemonRequest) -> Stored<Phase> {
        match (&self.store, req.params.text("id")) {
            (None, _) => Stored::NoStore,
            (Some(s), Some(id)) => match s.phases.get(&id) {
                Some(r) => Stored::Found(r.copied()),
                None => Stored::Missing,
            },
            (Some(_), None) => Stored::Missing,
        }
    }

    fn listed_phases(&self, req: &DaemonRequest) -> StoredList<Phase> {
        let wanted = req.params.text("parent_id");
        match &self.store {
            None => StoredList::NoStore,
            Some(s) => {
                let mut rows = Vec::new();
                for i in 0..s.phases.len() {
                    let row = s.phases.row(i);
                    if wanted.as_ref().is_none_or(|w| row.parent_id == *w) {
                        rows.push(row.copied());
                    }
                }
                StoredList::Listed(rows)
            }
        }
    }

    fn made_phase(&mut self, step: Step<Phase>) -> Resp {
        let outcome = match step {
            Step::Reply(outcome) => outcome,
            Step::Persist(p) => {
                if let Some(s) = &mut self.store {
                    s.phases.put(p.record.copied());
                }
                settle_created(&mut self.stores.phases, p, Ok(()))
            }
        };
        self.tell(&outcome.events);
        Resp {
            result: outcome.response.result.as_ref().map(phase_value),
            error: outcome.response.error,
        }
    }

    fn changed_phase(&mut self, step: Step<Phase>) -> Resp {
        let outcome = match step {
            Step::Reply(outcome) => outcome,
            Step::Persist(p) => {
                if let Some(s) = &mut self.store {
                    s.phases.put(p.record.copied());
                }
                settle(p, Ok(()))
            }
        };
        self.tell(&outcome.events);
        Resp {
            result: outcome.response.result.as_ref().map(phase_value),
            error: outcome.response.error,
        }
    }

    fn stored_work(&self, id: &str) -> Option<Work> {
        self.store.as_ref().and_then(|s| s.works.get(id).map(|r| r.copied()))
    }

    fn forget_works(&mut self, id: Option<&String>) {
        let mut kept: Table<Work> = Table::new();
        for i in 0..self.stores.works.len() {
            let row = self.stores.works.row(i);
            if id.is_some_and(|id| row.id != *id) {
                kept.put(row.copied());
            }
        }
        self.stores.works = kept;
    }

    fn found_work(&self, req: &DaemonRequest) -> Stored<Work> {
        match (&self.store, req.params.text("id")) {
            (None, _) => Stored::NoStore,
            (Some(s), Some(id)) => match s.works.get(&id) {
                Some(r) => Stored::Found(r.copied()),
                None => Stored::Missing,
            },
            (Some(_), None) => Stored::Missing,
        }
    }

    fn listed_works(&self, req: &DaemonRequest) -> StoredList<Work> {
        let wanted = req.params.text("parent_id");
        match &self.store {
            None => StoredList::NoStore,
            Some(s) => {
                let mut rows = Vec::new();
                for i in 0..s.works.len() {
                    let row = s.works.row(i);
                    if wanted.as_ref().is_none_or(|w| row.parent_id == *w) {
                        rows.push(row.copied());
                    }
                }
                StoredList::Listed(rows)
            }
        }
    }

    fn made_work(&mut self, step: Step<Work>) -> Resp {
        let outcome = match step {
            Step::Reply(outcome) => outcome,
            Step::Persist(p) => {
                if let Some(s) = &mut self.store {
                    s.works.put(p.record.copied());
                }
                settle_created(&mut self.stores.works, p, Ok(()))
            }
        };
        self.tell(&outcome.events);
        Resp {
            result: outcome.response.result.as_ref().map(work_value),
            error: outcome.response.error,
        }
    }

    fn stored_tick(&self, id: &str) -> Option<Tick> {
        self.store.as_ref().and_then(|s| s.ticks.get(id).map(|r| r.copied()))
    }

    fn forget_ticks(&mut self, id: Option<&String>) {
        let mut kept: Table<Tick> = Table::new();
        for i in 0..self.stores.ticks.len() {
            let row = self.stores.ticks.row(i);
            if id.is_some_and(|id| row.id != *id) {
                kept.put(row.copied());
            }
        }
        self.stores.ticks = kept;
    }

    fn found_tick(&self, req: &DaemonRequest) -> Stored<Tick> {
        match (&self.store, req.params.text("id")) {
            (None, _) => Stored::NoStore,
            (Some(s), Some(id)) => match s.ticks.get(&id) {
                Some(r) => Stored::Found(r.copied()),
                None => Stored::Missing,
            },
            (Some(_), None) => Stored::Missing,
        }
    }

    fn listed_ticks(&self, req: &DaemonRequest) -> StoredList<Tick> {
        let wanted = req.params.text("status");
        match &self.store {
            None => StoredList::NoStore,
            Some(s) => {
                let mut rows = Vec::new();
                for i in 0..s.ticks.len() {
                    let row = s.ticks.row(i);
                    if wanted.as_ref().is_none_or(|w| row.status.name() == w) {
                        rows.push(row.copied());
                    }
                }
                StoredList::Listed(rows)
            }
        }
    }

    fn made_tick(&mut self, step: Step<Tick>) -> Resp {
        let outcome = match step {
            Step::Reply(outcome) => outcome,
            Step::Persist(p) => {
                if let Some(s) = &mut self.store {
                    s.ticks.put(p.record.copied());
                }
                settle_created(&mut self.stores.ticks, p, Ok(()))
            }
        };
        self.tell(&outcome.events);
        Resp {
            result: outcome.response.result.as_ref().map(tick_value),
            error: outcome.response.error,
        }
    }

    fn changed_tick(&mut self, step: Step<Tick>) -> Resp {
        let outcome = match step {
            Step::Reply(outcome) => outcome,
            Step::Persist(p) => {
                if let Some(s) = &mut self.store {
                    s.ticks.put(p.record.copied());
                }
                settle(p, Ok(()))
            }
        };
        self.tell(&outcome.events);
        Resp {
            result: outcome.response.result.as_ref().map(tick_value),
            error: outcome.response.error,
        }
    }

    fn changed_work(&mut self, step: Step<Work>, moved: bool) -> Resp {
        let outcome = match step {
            Step::Reply(outcome) => outcome,
            Step::Persist(p) => {
                if let Some(s) = &mut self.store {
                    s.works.put(p.record.copied());
                }
                if moved {
                    let settled = settle_work(&mut self.stores.works, p, Ok(()), self.now);
                    self.tell(&settled.outcome.events);
                    for q in settled.freed {
                        if let Some(s) = &mut self.store {
                            s.works.put(q.record.copied());
                        }
                        let told = settle(q, Ok(()));
                        self.tell(&told.events);
                    }
                    return Resp {
                        result: settled.outcome.response.result.as_ref().map(work_value),
                        error: settled.outcome.response.error,
                    };
                }
                settle(p, Ok(()))
            }
        };
        self.tell(&outcome.events);
        Resp {
            result: outcome.response.result.as_ref().map(work_value),
            error: outcome.response.error,
        }
    }

    fn found_for_worktree(&self, req: &DaemonRequest) -> Stored<Work> {
        match (&self.store, req.params.text("work_id")) {
            (Some(s), Some(id)) => match s.works.get(&id) {
                Some(w) => Stored::Found(w.copied()),
                None => Stored::Missing,
            },
            _ => Stored::NoStore,
        }
    }

    fn told_worktree(&mut self, o: loopr::protocol::Outcome<WorktreeReport>) -> Resp {
        self.tell(&o.events);
        Resp {
            result: o.response.result.as_ref().map(worktree_value),
            error: o.response.error,
        }
    }

    fn dispatch(&mut self, req: DaemonRequest) -> Resp {
        let method = match route(&req) {
            Ok(method) => method,
            Err(e) => return Resp { result: None, error: Some(e) },
        };
        match method {
            Method::SystemHandshake => {
                let o = handle_handshake("0.1.0", "20260220T145132", &req);
                Resp {
                    result: o.response.result.map(|h| {
                        object(vec![
                            ("server_version", text(&h.server_version)),
                            ("client_version", text(&h.client_version)),
                            ("version_match", Value::from(h.version_match)),
                            ("protocol", text(&h.protocol)),
                            ("session_id", text(&h.session_id)),
                        ])
                    }),
                    error: o.response.error,
                }
            }
            Method::SystemInit => {
                let o = handle_system_init(&req, self.store.as_ref().map(|_| false));
                Resp {
                    result: o.response.result.map(|r| {
                        object(vec![
                            ("collections", texts(&r.collections)),
                            ("git_hooks_installed", Value::from(r.git_hooks_installed)),
                        ])
                    }),
                    error: o.response.error,
                }
            }
            Method::SystemStatus => self.status(&req),
            Method::SystemShutdown => {
                let o = handle_shutdown(&req);
                self.tell(&o.events);
                Resp {
                    result: o.response.result.map(|r| object(vec![("status", text(&r.status))])),
                    error: o.response.error,
                }
            }
            Method::PlanCreate => {
                let id = self.fresh("pl");
                let step = handle_plan_create(&self.stores.plans, &req, id, self.now);
                self.made_plan(step)
            }
            Method::PlanGet => {
                let o = handle_plan_get(&self.stores.plans, &req, self.found_plan(&req));
                Resp { result: o.response.result.as_ref().map(plan_value), error: o.response.error }
            }
            Method::PlanList => {
                let o = handle_plan_list(&self.stores.plans, &req, self.listed_plans(&req));
                Resp {
                    result: o.response.result.map(|l| l.rows.iter().map(plan_value).collect()),
                    error: o.response.error,
                }
            }
            Method::PlanTransition => {
                let (verdict, gate) = match HierarchyMove::read(&req.params, named_role(&req)) {
                    Ok(m) => {
                        let from = self.stores.plans.get(&m.id).map(|r| r.status);
                        let verdict = match from {
                            Some(from) => hierarchy_rules(from, m.target, m.role),
                            None => Verdict::Unchanged,
                        };
                        (verdict, self.gate("plans", &m, from))
                    }
                    Err(_) => (Verdict::Unchanged, None),
                };
                let step = handle_plan_transition(
                    &mut self.stores.plans,
                    &req,
                    named_role(&req),
                    verdict,
                    gate,
                    self.now,
                );
                self.changed_plan(step)
            }
            Method::PlanUpdate => {
                let step = handle_plan_update(&mut self.stores.plans, &req, self.now);
                self.changed_plan(step)
            }
            Method::SpecCreate => {
                let id = self.fresh("sp");
                let step = handle_spec_create(&self.stores.plans, &self.stores.specs, &req, id, self.now);
                self.made_spec(step)
            }
            Method::SpecGet => {
                let o = handle_spec_get(&self.stores.specs, &req, self.found_spec(&req));
                Resp { result: o.response.result.as_ref().map(spec_value), error: o.response.error }
            }
            Method::SpecList => {
                let o = handle_spec_list(&self.stores.specs, &req, self.listed_specs(&req));
                Resp {
                    result: o.response.result.map(|l| l.rows.iter().map(spec_value).collect()),
                    error: o.response.error,
                }
            }
            Method::SpecTransition => {
                let (verdict, gate) = match HierarchyMove::read(&req.params, named_role(&req)) {
                    Ok(m) => {
                        let from = self.stores.specs.get(&m.id).map(|r| r.status);
                        let verdict = match from {
                            Some(from) => hierarchy_rules(from, m.target, m.role),
                            None => Verdict::Unchanged,
                        };
                        (verdict, self.gate("specs", &m, from))
                    }
                    Err(_) => (Verdict::Unchanged, None),
                };
                let step = handle_spec_transition(
                    &mut self.stores.specs,
                    &req,
                    named_role(&req),
                    verdict,
                    gate,
                    self.now,
                );
                self.changed_spec(step)
            }
            Method::SpecUpdate => {
                let step = handle_spec_update(&mut self.stores.specs, &req, self.now);
                self.changed_spec(step)
            }
            Method::PhaseCreate => {
                let id = self.fresh("ph");
                let step = handle_phase_create(&self.stores.specs, &self.stores.phases, &req, id, self.now);
                self.made_phase(step)
            }
            Method::PhaseGet => {
                let o = handle_phase_get(&self.stores.phases, &req, self.found_phase(&req));
                Resp { result: o.response.result.as_ref().map(phase_value), error: o.response.error }
            }
            Method::PhaseList => {
                let o = handle_phase_list(&self.stores.phases, &req, self.listed_phases(&req));
                Resp {
                    result: o.response.result.map(|l| l.rows.iter().map(phase_value).collect()),
                    error: o.response.error,
                }
            }
            Method::PhaseTransition => {
                let (verdict, gate) = match HierarchyMove::read(&req.params, named_role(&req)) {
                    Ok(m) => {
                        let from = self.stores.phases.get(&m.id).map(|r| r.status);
                        let verdict = match from {
                            Some(from) => hierarchy_rules(from, m.target, m.role),
                            None => Verdict::Unchanged,
                        };
                        (verdict, self.gate("phases", &m, from))
                    }
                    Err(_) => (Verdict::Unchanged, None),
                };
                let step = handle_phase_transition(
                    &mut self.stores.phases,
                    &req,
                    named_role(&req),
                    verdict,
                    gate,
                    self.now,
                );
                self.changed_phase(step)
            }
            Method::PhaseUpdate => {
                let step = handle_phase_update(&mut self.stores.phases, &req, self.now);
                self.changed_phase(step)
            }
            Method::WorkCreate => {
                let id = self.fresh("wk");
                let step = handle_work_create(&self.stores.phases, &self.stores.plans, &self.stores.works, &req, id, self.now);
                self.made_work(step)
            }
            Method::WorkGet => {
                let o = handle_work_get(&self.stores.works, &req, self.found_work(&req));
                Resp { result: o.response.result.as_ref().map(work_value), error: o.response.error }
            }
            Method::WorkList => {
                let o = handle_work_list(&self.stores.works, &req, self.listed_works(&req));
                Resp {
                    result: o.response.result.map(|l| l.rows.iter().map(work_value).collect()),
                    error: o.response.error,
                }
            }
            Method::TickCreate => {
                let id = self.fresh("tk");
                let step = handle_tick_create(&self.stores.ticks, &req, id, self.now);
                self.made_tick(step)
            }
            Method::TickGet => {
                let o = handle_tick_get(&self.stores.ticks, &req, self.found_tick(&req));
                Resp { result: o.response.result.as_ref().map(tick_value), error: o.response.error }
            }
            Method::TickList => {
                let o = handle_tick_list(&self.stores.ticks, &req, self.listed_ticks(&req));
                Resp {
                    result: o.response.result.map(|l| l.rows.iter().map(tick_value).collect()),
                    error: o.response.error,
                }
            }
            Method::WorkTransition => {
                let verdict = match WorkMove::read(&req.params, named_role(&req)) {
                    Ok(m) => match self.stores.works.get(&m.id) {
                        Some(w) => work_rules(w.status, m.target, m.role, m.is_override),
                        None => Verdict::Unchanged,
                    },
                    Err(_) => Verdict::Unchanged,
                };
                let step = handle_work_transition(
                    &mut self.stores.works,
                    &self.stores.bundles,
                    &req,
                    named_role(&req),
                    verdict,
                    self.now,
                );
                self.changed_work(step, true)
            }
            Method::WorkUpdate => {
                let step = handle_work_update(&mut self.stores.works, &req, self.now);
                self.changed_work(step, false)
            }
            Method::TickTransition => {
                let verdict = match TickMove::read(&req.params, named_role(&req)) {
                    Ok(m) => match self.stores.ticks.get(&m.id) {
                        Some(t) => tick_rules(t.status, m.target, m.role),
                        None => Verdict::Unchanged,
                    },
                    Err(_) => Verdict::Unchanged,
                };
                let step = handle_tick_transition(
                    &mut self.stores.ticks,
                    &req,
                    named_role(&req),
                    verdict,
                );
                self.changed_tick(step)
            }
            Method::TickUpdate => {
                let step = handle_tick_update(&mut self.stores.ticks, &req, self.now);
                self.changed_tick(step)
            }
            Method::WorktreeCreate => {
                match handle_worktree_create(&self.stores.works, &req, &self.found_for_worktree(&req), false) {
                    Errand::Done(o) => self.told_worktree(o),
                    Errand::Run(job) => {
                        let made = Err("no repository".to_string());
                        let o = settle_worktree_create(req.id, job, made);
                        self.told_worktree(o)
                    }
                }
            }
            Method::WorktreeList => {
                let listed: Result<WorktreeReport, String> = Err("no repository".to_string());
                let o = handle_worktree_list(&req, listed);
                self.told_worktree(o)
            }
            Method::WorktreeCleanup => {
                match handle_worktree_cleanup(&self.stores.works, &req, &self.found_for_worktree(&req)) {
                    Errand::Done(o) => self.told_worktree(o),
                    Errand::Run(id) => {
                        let path = format!("/nonexistent/worktrees/{}", id);
                        let failure = Some("no repository".to_string());
                        let o = settle_worktree_cleanup(req.id, id, path, failure);
                        self.told_worktree(o)
                    }
                }
            }
            Method::WorktreeRefresh => match handle_worktree_refresh(&req) {
                Errand::Done(o) => self.told_worktree(o),
                Errand::Run(job) => {
                    let failure = Some("no repository".to_string());
                    let o = settle_worktree_refresh(req.id, job, failure);
                    self.told_worktree(o)
                }
            },
            other => panic!("{} is not served here", other.name()),
        }
    }

    fn vitals(&self) -> Vitals {
        Vitals {
            version: "0.1.0".to_string(),
            pid: 42,
            session_dir: None,
            learnings: 0,
            locks: 0,
            taskstore: self.store.as_ref().map(|s| StoreListing {
                plans: Some(s.plans.len()),
                specs: Some(s.specs.len()),
                phases: Some(s.phases.len()),
                works: Some(s.works.len()),
                bundles: Some(s.bundles.len()),
                ticks: None,
                learnings: None,
                locks: None,
            }),
            reconciliation: Reconciliation {
                last_sweep_at: 0,
                checked: 0,
                fixed: 0,
                catastrophic: 0,
                degraded: false,
            },
        }
    }

    fn status(&self, req: &DaemonRequest) -> Resp {
        let vitals = self.vitals();
        let o = handle_status(&self.stores, req, &vitals);
        Resp {
            result: o.response.result.map(|s| {
                let c = s.counts;
                object(vec![
                    ("version", text(&s.version)),
                    ("pid", Value::from(s.pid)),
                    (
                        "counts",
                        object(vec![
                            ("plans", Value::from(c.plans)),
                            ("specs", Value::from(c.specs)),
                            ("phases", Value::from(c.phases)),
                            ("works", Value::from(c.works)),
                        ]),
                    ),
                    (
                        "taskstore",
                        match s.taskstore {
                            None => object(vec![("enabled", Value::from(false))]),
                            Some(t) => object(vec![
                                ("enabled", Value::from(true)),
                                (
                                    "counts",
                                    object(vec![
                                        ("plans", Value::from(t.plans)),
                                        ("specs", Value::from(t.specs)),
                                        ("phases", Value::from(t.phases)),
                                        ("works", Value::from(t.works)),
                                        ("ticks", Value::from(t.ticks)),
                                    ]),
                                ),
                            ]),
                        },
                    ),
                    ("current_tick_sha", maybe(&s.current_tick_sha)),
                    ("stale_works", Value::from(s.stale_works)),
                ])
            }),
            error: o.response.error,
        }
    }
}

fn id_of(resp: Resp) -> String {
    resp.result.unwrap()["id"].as_str().unwrap().to_string()
}

fn create_test_plan(d: &mut Daemon) -> String {
    id_of(d.dispatch(DaemonRequest::new(1, "plan.create", r#"{"title": "Parent Plan"}"#)))
}

fn create_test_spec(d: &mut Daemon) -> (String, String) {
    let plan_id = create_test_plan(d);
    let params = format!(r#"{{"parent_id": "{}", "title": "Parent Spec"}}"#, plan_id);
    let spec_id = id_of(d.dispatch(DaemonRequest::new(10, "spec.create", &params)));
    (plan_id, spec_id)
}

fn create_test_phase(d: &mut Daemon) -> (String, String, String) {
    let (plan_id, spec_id) = create_test_spec(d);
    let params =
        format!(r#"{{"parent_id": "{}", "title": "Parent Phase", "order": 1}}"#, spec_id);
    let phase_id = id_of(d.dispatch(DaemonRequest::new(20, "phase.create", &params)));
    (plan_id, spec_id, phase_id)
}

fn create_test_work(d: &mut Daemon) -> (String, String) {
    let (_, _, phase_id) = create_test_phase(d);
    let params = format!(
        r#"{{"parent_id": "{}", "title": "Parent WI", "files": ["src/"], "acceptance_criteria": ["tests pass"]}}"#,
        phase_id
    );
    let work_id = id_of(d.dispatch(DaemonRequest::new(30, "work.create", &params)));
    (phase_id, work_id)
}

fn create_work(d: &mut Daemon, phase_id: &str, title: &str, deps: &[&str]) -> String {
    let deps: Vec<String> = deps.iter().map(|dep| format!("{:?}", dep)).collect();
    let params = format!(
        r#"{{"parent_id": "{}", "title": "{}", "files": ["src/"], "acceptance_criteria": ["pass"], "dependencies": [{}]}}"#,
        phase_id,
        title,
        deps.join(", ")
    );
    id_of(d.dispatch(DaemonRequest::new(1, "work.create", &params)))
}

impl Daemon {
    fn work(&self, id: &str) -> Work {
        self.stores.works.get(id).unwrap().copied()
    }

    fn force_work(&mut self, id: &str, status: WorkStatus) {
        let mut w = self.work(id);
        w.status = status;
        self.stores.works.put(w);
    }

    fn insert_plan(&mut self, title: &str, description: &str, criteria: &str) -> String {
        let id = self.fresh("pl");
        let plan = Plan::new(
            id.clone(),
            title.to_string(),
            description.to_string(),
            criteria.to_string(),
            self.now,
        );
        self.stores.plans.put(plan);
        id
    }
}

fn create_test_tick(d: &mut Daemon) -> String {
    id_of(d.dispatch(DaemonRequest::new(50, "tick.create", r#"{"number": 1}"#)))
}

fn activate(d: &mut Daemon, plan_id: &str) -> Resp {
    let params = format!(
        r#"{{"id": "{}", "target_status": "active", "role": "coordinator"}}"#,
        plan_id
    );
    d.dispatch(DaemonRequest::new(1, "plan.transition", &params))
}

#[test]
fn test_dispatch_status_with_records() {
    let mut d = Daemon::new();
    d.insert_plan("Test", "", "");
    let wi = Work::new("wk-1".to_string(), "p-1".to_string(), "WI".to_string(), 0);
    d.stores.works.put(wi);
    let resp = d.dispatch(DaemonRequest::new(1, "system.status", "null"));
    assert!(!resp.is_error());
    let result = resp.result.unwrap();
    assert_eq!(result["counts"]["plans"], 1);
    assert_eq!(result["counts"]["works"], 1);
    assert_eq!(result["counts"]["specs"], 0);
}

#[test]
fn test_dispatch_status_with_taskstore() {
    let mut d = Daemon::with_store();
    let plan =
        Plan::new("pl-1".to_string(), "TS Plan".to_string(), "".to_string(), "".to_string(), 0);
    let spec = Spec::new("sp-1".to_string(), plan.id.clone(), "TS Spec".to_string(), 0, 0);
    let store = d.store.as_mut().unwrap();
    store.plans.put(plan);
    store.specs.put(spec);
    let resp = d.dispatch(DaemonRequest::new(1, "system.status", "null"));
    assert!(!resp.is_error());
    let result = resp.result.unwrap();
    assert_eq!(result["taskstore"]["enabled"], true);
    assert_eq!(result["taskstore"]["counts"]["plans"], 1);
    assert_eq!(result["taskstore"]["counts"]["specs"], 1);
    assert_eq!(result["taskstore"]["counts"]["phases"], 0);
    assert_eq!(result["taskstore"]["counts"]["works"], 0);
    assert_eq!(result["counts"]["plans"], 0);
    // A kind that the store could not list counts as none.
    assert_eq!(result["taskstore"]["counts"]["ticks"], 0);
}

#[test]
fn test_dispatch_system_init() {
    let mut d = Daemon::with_store();
    let resp = d.dispatch(DaemonRequest::new(1, "system.init", "{}"));
    assert!(!resp.is_error(), "system.init failed: {:?}", resp.error);
    let result = resp.result.unwrap();
    let collections = result["collections"].as_array().unwrap();
    assert_eq!(collections.len(), 10);
    for name in [
        "plans",
        "specs",
        "phases",
        "works",
        "bundles",
        "ticks",
        "learnings",
        "locks",
        "coordinator_goals",
        "agent_sessions",
    ] {
        assert!(collections.contains(&text(name)));
    }
    assert!(result.get("git_hooks_installed").is_some());
}

fn worktree_methods_are_routed() {
    let mut d = Daemon::new();
    for method in ["worktree.create", "worktree.list", "worktree.cleanup", "worktree.refresh"] {
        let resp = d.dispatch(DaemonRequest::new(1, method, "{}"));
        if resp.is_error() {
            assert_ne!(resp.error.unwrap().code, -32601, "method {} should be routed", method);
        }
    }
}

#[test]
fn mod_test_worktree_dispatch_routes_all_methods() {
    worktree_methods_are_routed();
}

#[test]
fn worktree_test_worktree_dispatch_routes_all_methods() {
    worktree_methods_are_routed();
}

#[test]
fn test_latest_report_wins_for_validation_gate() {
    let mut d = Daemon::with_validator(Strictness::AllowAmbiguityWithFlags);
    let plan_id =
        id_of(d.dispatch(DaemonRequest::new(1, "plan.create", r#"{"title": "Gate Test Plan"}"#)));
    d.report("plans", &plan_id, Finding::Fail);
    d.report("plans", &plan_id, Finding::Pass);
    let resp = activate(&mut d, &plan_id);
    assert!(!resp.is_error());
    assert_eq!(resp.result.unwrap()["status"], "active");
}

#[test]
fn test_validation_gate_hard_fail_on_warn() {
    let mut d = Daemon::with_validator(Strictness::HardFailOnAnyAmbiguity);
    let plan_id = d.insert_plan("Gate Test", "desc", "criteria");
    d.report("plans", &plan_id, Finding::Warn);
    let resp = activate(&mut d, &plan_id);
    assert!(resp.is_error());
}

#[test]
fn test_validation_gate_suggest_only_on_fail() {
    let mut d = Daemon::with_validator(Strictness::SuggestOnly);
    let plan_id = d.insert_plan("Gate Test", "desc", "criteria");
    d.report("plans", &plan_id, Finding::Fail);
    let resp = activate(&mut d, &plan_id);
    assert!(!resp.is_error(), "{:?}", resp.error);
}

#[test]
fn test_validation_gate_no_report_enabled() {
    let mut d = Daemon::with_validator(Strictness::HardFailOnAnyAmbiguity);
    let plan_id = d.insert_plan("No Reports", "desc", "criteria");
    let resp = activate(&mut d, &plan_id);
    assert!(resp.is_error());
}

#[test]
fn test_attempt_count_increments_on_reset_to_ready() {
    let mut d = Daemon::new();
    let (_, wi_id) = create_test_work(&mut d);
    d.force_work(&wi_id, WorkStatus::InProgress);
    let params = format!(
        r#"{{"id": "{}", "target_status": "ready", "role": "coordinator", "override": true}}"#,
        wi_id
    );
    let resp = d.dispatch(DaemonRequest::new(99, "work.transition", &params));
    assert!(!resp.is_error(), "transition failed: {:?}", resp.error);
    let wi = d.work(&wi_id);
    assert_eq!(wi.attempt_count, 1);
    assert_eq!(wi.status, WorkStatus::Ready);
}

#[test]
fn test_attempt_count_at_max_transitions_to_abandoned() {
    let mut d = Daemon::new();
    let (_, wi_id) = create_test_work(&mut d);
    let mut wi = d.work(&wi_id);
    wi.attempt_count = MAX_WORK_ATTEMPTS - 1;
    wi.status = WorkStatus::InProgress;
    d.stores.works.put(wi);
    let params = format!(
        r#"{{"id": "{}", "target_status": "ready", "role": "coordinator", "override": true}}"#,
        wi_id
    );
    let resp = d.dispatch(DaemonRequest::new(99, "work.transition", &params));
    assert!(!resp.is_error(), "transition failed: {:?}", resp.error);
    let wi = d.work(&wi_id);
    assert_eq!(wi.attempt_count, MAX_WORK_ATTEMPTS);
    assert_eq!(wi.status, WorkStatus::Abandoned);
}

fn finish(d: &mut Daemon, work_id: &str) -> Resp {
    let params = format!(
        r#"{{"id": "{}", "target_status": "done", "role": "coordinator"}}"#,
        work_id
    );
    d.dispatch(DaemonRequest::new(1, "work.transition", &params))
}

#[test]
fn test_unblock_dependents_on_done() {
    let mut d = Daemon::new();
    let (phase_id, _) = create_test_work(&mut d);
    let wk_a = create_work(&mut d, &phase_id, "Work A", &[]);
    let wk_b = create_work(&mut d, &phase_id, "Work B", &[&wk_a]);
    d.force_work(&wk_b, WorkStatus::Blocked);
    let resp = finish(&mut d, &wk_a);
    assert!(!resp.is_error(), "wk-A -> Done failed: {:?}", resp.error);
    assert_eq!(d.work(&wk_b).status, WorkStatus::Ready);
}

#[test]
fn test_unblock_requires_all_deps_done() {
    let mut d = Daemon::new();
    let (phase_id, _) = create_test_work(&mut d);
    let wk_a = create_work(&mut d, &phase_id, "Work A", &[]);
    let wk_b = create_work(&mut d, &phase_id, "Work B", &[]);
    let wk_c = create_work(&mut d, &phase_id, "Work C", &[&wk_a, &wk_b]);
    d.force_work(&wk_c, WorkStatus::Blocked);
    let resp = finish(&mut d, &wk_a);
    assert!(!resp.is_error(), "wk-A -> Done failed: {:?}", resp.error);
    assert_eq!(d.work(&wk_c).status, WorkStatus::Blocked);
}

#[test]
fn test_unblock_fires_when_last_dep_done() {
    let mut d = Daemon::new();
    let (phase_id, _) = create_test_work(&mut d);
    let wk_a = create_work(&mut d, &phase_id, "Work A", &[]);
    let wk_b = create_work(&mut d, &phase_id, "Work B", &[]);
    let wk_c = create_work(&mut d, &phase_id, "Work C", &[&wk_a, &wk_b]);
    d.force_work(&wk_a, WorkStatus::Done);
    d.force_work(&wk_c, WorkStatus::Blocked);
    let resp = finish(&mut d, &wk_b);
    assert!(!resp.is_error(), "wk-B -> Done failed: {:?}", resp.error);
    assert_eq!(d.work(&wk_c).status, WorkStatus::Ready);
}

// ------------------------------------------------------------ more cases

impl Daemon {
    fn ask(&mut self, method: &str, params: &str) -> Resp {
        self.dispatch(DaemonRequest::new(7, method, params))
    }

    fn refused(&mut self, method: &str, params: &str) -> (i32, String) {
        let e = self.ask(method, params).error.unwrap();
        (e.code, e.message)
    }
}

#[test]
fn titles_are_compared_without_regard_to_case() {
    let mut d = Daemon::new();
    let (_, _, phase_id) = create_test_phase(&mut d);
    let first = create_work(&mut d, &phase_id, "ÄPFEL ZÄHLEN", &[]);
    let params = format!(
        r#"{{"parent_id": "{}", "title": "äpfel zählen", "files": ["src/"]}}"#,
        phase_id
    );
    let (code, message) = d.refused("work.create", &params);
    assert_eq!(code, -32005);
    assert_eq!(
        message,
        format!(
            "Duplicate work 'äpfel zählen' already exists in phase {} with status Ready (ID: {})",
            phase_id, first
        )
    );
    d.force_work(&first, WorkStatus::Abandoned);
    assert!(!d.ask("work.create", &params).is_error());
}

#[test]
fn refusals_of_work_items_come_in_order() {
    let mut d = Daemon::new();
    let (_, _, phase_id) = create_test_phase(&mut d);
    assert_eq!(
        d.refused("work.create", "{}"),
        (-32602, "parent_id is required".to_string())
    );
    assert_eq!(
        d.refused("work.create", r#"{"parent_id": "x"}"#),
        (-32001, "parent not found: x".to_string())
    );
    let params = format!(r#"{{"parent_id": "{}", "title": ""}}"#, phase_id);
    assert_eq!(d.refused("work.create", &params), (-32602, "title is required".to_string()));
    let params = format!(r#"{{"parent_id": "{}", "title": "T", "files": []}}"#, phase_id);
    assert_eq!(
        d.refused("work.create", &params),
        (-32005, "Work must have at least one file".to_string())
    );
}

#[test]
fn a_work_item_can_stand_under_a_plan() {
    let mut d = Daemon::new();
    let plan_id = create_test_plan(&mut d);
    let params = format!(r#"{{"parent_id": "{}", "title": "T", "files": ["a"]}}"#, plan_id);
    let resp = d.ask("work.create", &params);
    assert_eq!(resp.result.unwrap()["status"], "Draft");
}

#[test]
fn dependencies_that_cannot_be_met_are_left_out() {
    let mut d = Daemon::new();
    let (_, _, phase_id) = create_test_phase(&mut d);
    let a = create_work(&mut d, &phase_id, "A", &[]);
    let b = create_work(&mut d, &phase_id, "B", &["batch:0", "unknown", &a]);
    assert_eq!(d.work(&b).dependencies, vec![a]);
}

#[test]
fn a_list_with_anything_but_strings_counts_for_nothing_in_a_creation() {
    let mut d = Daemon::new();
    let (_, _, phase_id) = create_test_phase(&mut d);
    let params =
        format!(r#"{{"parent_id": "{}", "title": "T", "files": ["a", 1]}}"#, phase_id);
    assert_eq!(d.refused("work.create", &params).0, -32005);
}

#[test]
fn a_list_loses_what_is_no_string_in_an_update() {
    let mut d = Daemon::new();
    let (_, wi_id) = create_test_work(&mut d);
    let params = format!(r#"{{"id": "{}", "files": ["a", 1, null, "b"]}}"#, wi_id);
    assert!(!d.ask("work.update", &params).is_error());
    assert_eq!(d.work(&wi_id).files, vec!["a".to_string(), "b".to_string()]);
}

#[test]
fn a_move_that_is_held_up_still_takes_the_assignee() {
    let mut d = Daemon::new();
    let (_, wi_id) = create_test_work(&mut d);
    let params = format!(
        r#"{{"id": "{}", "target_status": "InReview", "assignee": "ada"}}"#,
        wi_id
    );
    assert_eq!(
        d.refused("work.transition", &params),
        (-32005, "Work cannot move to InReview without an active Bundle".to_string())
    );
    assert_eq!(d.work(&wi_id).assignee, Some("ada".to_string()));
    assert_eq!(d.work(&wi_id).status, WorkStatus::Ready);
}

#[test]
fn a_work_item_needs_an_assignee_to_be_begun() {
    let mut d = Daemon::new();
    let (_, wi_id) = create_test_work(&mut d);
    let params = format!(r#"{{"id": "{}", "target_status": "InProgress"}}"#, wi_id);
    assert_eq!(
        d.refused("work.transition", &params),
        (
            -32005,
            "Work must have an assignee before transitioning to InProgress/InReview".to_string()
        )
    );
}

#[test]
fn a_work_item_needs_criteria_to_be_ready() {
    let mut d = Daemon::new();
    let plan_id = create_test_plan(&mut d);
    let params = format!(r#"{{"parent_id": "{}", "title": "T", "files": ["a"]}}"#, plan_id);
    let id = id_of(d.ask("work.create", &params));
    let params = format!(r#"{{"id": "{}", "target_status": "ready"}}"#, id);
    assert_eq!(
        d.refused("work.transition", &params),
        (
            -32005,
            "Work must have acceptance_criteria before transitioning to Ready".to_string()
        )
    );
}

#[test]
fn a_live_bundle_lets_a_work_item_be_judged() {
    let mut d = Daemon::new();
    let (_, wi_id) = create_test_work(&mut d);
    let params = format!(
        r#"{{"id": "{}", "target_status": "InReview", "assignee": "ada"}}"#,
        wi_id
    );
    d.stores.bundles.put(Bundle {
        id: "bd-1".to_string(),
        work_id: wi_id.clone(),
        base_tick_id: None,
        status: BundleStatus::Merged,
    });
    assert!(d.ask("work.transition", &params).is_error());
    d.stores.bundles.put(Bundle {
        id: "bd-2".to_string(),
        work_id: wi_id.clone(),
        base_tick_id: None,
        status: BundleStatus::Proposed,
    });
    assert!(!d.ask("work.transition", &params).is_error());
}

#[test]
fn an_override_is_told_of_after_the_move() {
    let mut d = Daemon::new();
    let (_, wi_id) = create_test_work(&mut d);
    d.force_work(&wi_id, WorkStatus::Done);
    d.subscribe();
    let params = format!(
        r#"{{"id": "{}", "target_status": "Ready", "override": true}}"#,
        wi_id
    );
    assert!(!d.ask("work.transition", &params).is_error());
    let completed = d.next_event().unwrap();
    assert_eq!(completed.event, "transition.completed");
    let overridden = d.next_event().unwrap();
    assert_eq!(overridden.event, "work.override_transition");
    assert_eq!(overridden.data["reason"], "no reason provided");
    assert_eq!(overridden.data["from"], "Done");
    assert_eq!(overridden.data["to"], "Ready");
    assert!(d.next_event().is_none());
}

#[test]
fn a_rejected_move_is_told_of() {
    let mut d = Daemon::new();
    let plan_id = create_test_plan(&mut d);
    d.subscribe();
    let params = format!(r#"{{"id": "{}", "target_status": "complete"}}"#, plan_id);
    assert_eq!(d.refused("plan.transition", &params).0, -32000);
    let event = d.next_event().unwrap();
    assert_eq!(event.event, "transition.rejected");
    assert_eq!(event.data["collection"], "plans");
    assert_eq!(event.data["from"], "Draft");
    assert_eq!(event.data["to"], "Complete");
}

#[test]
fn a_move_to_the_same_stage_tells_nothing() {
    let mut d = Daemon::new();
    let plan_id = create_test_plan(&mut d);
    d.subscribe();
    let params = format!(r#"{{"id": "{}", "target_status": "draft"}}"#, plan_id);
    let resp = d.ask("plan.transition", &params);
    assert!(!resp.is_error());
    assert!(resp.result.is_none());
    assert!(d.next_event().is_none());
}

#[test]
fn what_cannot_be_read_in_a_move_is_refused() {
    let mut d = Daemon::new();
    for (params, message) in [
        (r#"{"target_status": "active"}"#, "id is required"),
        (r#"{"id": "x"}"#, "target_status is required"),
        (r#"{"id": "x", "target_status": "Active"}"#, "invalid target_status"),
        (r#"{"id": "x", "target_status": "active", "role": "king"}"#, "invalid role"),
        (r#"{"id": "x", "target_status": "active", "role": 5}"#, "invalid role"),
    ] {
        assert_eq!(d.refused("plan.transition", params), (-32602, message.to_string()));
    }
    for (params, message) in [
        (r#"{"target_status": "Sealing"}"#, "id is required"),
        (r#"{"id": "x", "target_status": "sealing"}"#, "invalid target_status"),
    ] {
        assert_eq!(d.refused("tick.transition", params), (-32602, message.to_string()));
    }
}

#[test]
fn one_tick_at_a_time_is_integrated() {
    let mut d = Daemon::new();
    for (id, status) in [("tk-a", TickStatus::Sealing), ("tk-b", TickStatus::Open)] {
        let mut t = Tick::new(id.to_string(), 1, 0);
        t.status = status;
        d.stores.ticks.put(t);
    }
    assert_eq!(
        d.refused("tick.transition", r#"{"id": "tk-b", "target_status": "Sealing"}"#),
        (-32005, "Another Tick is already in Sealing/Validating".to_string())
    );
    let resp = d.ask("tick.transition", r#"{"id": "tk-a", "target_status": "Validating"}"#);
    assert!(!resp.is_error());
}

#[test]
fn a_large_number_keeps_its_low_bits() {
    let mut d = Daemon::new();
    let resp = d.ask("tick.create", r#"{"number": 4294967297}"#);
    assert_eq!(resp.result.unwrap()["number"], 1);
    let mut d = Daemon::new();
    for number in ["-1", "1.5", "\"1\"", "true"] {
        let params = format!(r#"{{"number": {}}}"#, number);
        assert_eq!(
            d.refused("tick.create", &params),
            (-32602, "number is required (positive integer)".to_string())
        );
    }
}

#[test]
fn ticks_of_an_unknown_stage_are_all_ticks() {
    let mut d = Daemon::new();
    create_test_tick(&mut d);
    let all = d.ask("tick.list", r#"{"status": "nonsense"}"#).result.unwrap();
    assert_eq!(all.as_array().unwrap().len(), 1);
    let none = d.ask("tick.list", r#"{"status": "Failed"}"#).result.unwrap();
    assert_eq!(none.as_array().unwrap().len(), 0);
}

#[test]
fn the_status_names_the_latest_tick_and_what_is_stale() {
    let mut d = Daemon::new();
    for (id, number, status, sha) in [
        ("tk-1", 1, TickStatus::Published, "aaa"),
        ("tk-3", 3, TickStatus::Published, "ccc"),
        ("tk-2", 2, TickStatus::Published, "bbb"),
        ("tk-4", 4, TickStatus::Failed, "ddd"),
    ] {
        let mut t = Tick::new(id.to_string(), number, 0);
        t.status = status;
        t.integration_sha = Some(sha.to_string());
        d.stores.ticks.put(t);
    }
    for (id, status) in [
        ("wk-old", WorkStatus::InProgress),
        ("wk-new", WorkStatus::InProgress),
        ("wk-idle", WorkStatus::Ready),
        ("wk-none", WorkStatus::InProgress),
    ] {
        let mut w = Work::new(id.to_string(), "ph-1".to_string(), id.to_string(), 0);
        w.status = status;
        d.stores.works.put(w);
    }
    for (id, work_id, base, status) in [
        ("bd-1", "wk-old", Some("tk-1"), BundleStatus::Proposed),
        ("bd-2", "wk-new", Some("tk-3"), BundleStatus::Proposed),
        ("bd-3", "wk-new", Some("tk-1"), BundleStatus::Superseded),
        ("bd-4", "wk-idle", Some("tk-1"), BundleStatus::Proposed),
        ("bd-5", "wk-none", None, BundleStatus::Proposed),
    ] {
        d.stores.bundles.put(Bundle {
            id: id.to_string(),
            work_id: work_id.to_string(),
            base_tick_id: base.map(|b| b.to_string()),
            status,
        });
    }
    let status = d.ask("system.status", "{}").result.unwrap();
    assert_eq!(status["current_tick_sha"], "ccc");
    assert_eq!(status["stale_works"], 1);
}

#[test]
fn a_handshake_tells_whether_versions_match() {
    let mut d = Daemon::new();
    let same = d.ask("system.handshake", r#"{"client_version": "0.1.0"}"#).result.unwrap();
    assert_eq!(same["version_match"], true);
    assert_eq!(same["session_id"], "20260220T145132");
    let other = d.ask("system.handshake", "{}").result.unwrap();
    assert_eq!(other["client_version"], "unknown");
    assert_eq!(other["version_match"], false);
}

#[test]
fn recovering_ends_a_degraded_state() {
    let req = DaemonRequest::new(1, "system.recover", "{}");
    let mut degraded = true;
    let report = handle_recover(&mut degraded, &req).response.result.unwrap();
    assert!(report.was_degraded && !report.degraded && !degraded);
    let report = handle_recover(&mut degraded, &req).response.result.unwrap();
    assert!(!report.was_degraded);
}

#[test]
fn a_record_that_could_not_be_written_does_not_exist() {
    let mut plans: Table<Plan> = Table::new();
    let req = DaemonRequest::new(1, "plan.create", r#"{"title": "Plan"}"#);
    match handle_plan_create(&plans, &req, "pl-1".to_string(), 5) {
        Step::Persist(p) => {
            let o = settle_created(&mut plans, p, Err("disk full".to_string()));
            let e = o.response.error.unwrap();
            assert_eq!((e.code, e.message.as_str()), (-32603, "disk full"));
            assert!(o.events.is_empty());
        }
        Step::Reply(_) => panic!("nothing stands against the plan"),
    }
    assert_eq!(plans.len(), 0);
}

#[test]
fn a_change_that_could_not_be_written_is_not_told_of() {
    let mut plans: Table<Plan> = Table::new();
    plans.put(Plan::new(
        "pl-1".to_string(),
        "Plan".to_string(),
        "".to_string(),
        "".to_string(),
        5,
    ));
    let req = DaemonRequest::new(1, "plan.update", r#"{"id": "pl-1", "title": "New"}"#);
    match handle_plan_update(&mut plans, &req, 9) {
        Step::Persist(p) => {
            let o = settle(p, Err("disk full".to_string()));
            assert_eq!(o.response.error.unwrap().code, -32603);
            assert!(o.events.is_empty());
        }
        Step::Reply(_) => panic!("nothing stands against the change"),
    }
    assert_eq!(plans.get("pl-1").unwrap().title, "New");
    assert_eq!(plans.get("pl-1").unwrap().updated_at, 9);
    assert_eq!(plans.get("pl-1").unwrap().created_at, 5);
}

#[test]
fn a_store_that_fails_answers_for_itself() {
    let plans: Table<Plan> = Table::new();
    let req = DaemonRequest::new(1, "plan.get", r#"{"id": "pl-1"}"#);
    let o = handle_plan_get(&plans, &req, Stored::Failed("broken".to_string()));
    let e = o.response.error.unwrap();
    assert_eq!((e.code, e.message.as_str()), (-32603, "broken"));
    let o = handle_plan_list(&plans, &req, StoredList::Failed("broken".to_string()));
    assert_eq!(o.response.error.unwrap().code, -32603);
}

#[test]
fn a_worktree_is_made_told_of_and_removed() {
    let mut works: Table<Work> = Table::new();
    works.put(Work::new("wk-1".to_string(), "ph-1".to_string(), "T".to_string(), 0));
    let req = DaemonRequest::new(3, "worktree.create", r#"{"work_id": "wk-1"}"#);
    match handle_worktree_create(&works, &req, &Stored::NoStore, false) {
        Errand::Run(job) => {
            assert_eq!(job.base_ref, "HEAD");
            let o = settle_worktree_create(req.id, job, Ok("/wt/wk-1".to_string()));
            assert_eq!(o.events[0].name(), "worktree.created");
            let report = o.response.result.unwrap();
            assert_eq!(report.work_id, "wk-1");
            assert_eq!(report.path, Some("/wt/wk-1".to_string()));
        }
        Errand::Done(o) => panic!("{:?}", o.response.error),
    }
    match handle_worktree_create(&works, &req, &Stored::NoStore, true) {
        Errand::Done(o) => {
            let e = o.response.error.unwrap();
            assert_eq!(e.code, -32602);
            assert_eq!(e.message, "worktree already exists for work wk-1");
        }
        Errand::Run(_) => panic!("it exists"),
    }
    let req = DaemonRequest::new(4, "worktree.cleanup", r#"{"work_id": "wk-1"}"#);
    match handle_worktree_cleanup(&works, &req, &Stored::NoStore) {
        Errand::Run(id) => {
            let o = settle_worktree_cleanup(req.id, id, "/wt/wk-1".to_string(), None);
            assert_eq!(o.events[0].name(), "worktree.cleaned");
            assert_eq!(o.response.result.unwrap().status, Some("cleaned".to_string()));
        }
        Errand::Done(o) => panic!("{:?}", o.response.error),
    }
    let req = DaemonRequest::new(
        5,
        "worktree.refresh",
        r#"{"work_id": "wk-1", "new_base_ref": "main"}"#,
    );
    match handle_worktree_refresh(&req) {
        Errand::Run(job) => {
            assert_eq!(job.base_ref, "main");
            let o = settle_worktree_refresh(req.id, job, None);
            assert!(o.events.is_empty());
            assert_eq!(o.response.result.unwrap().status, Some("refreshed".to_string()));
        }
        Errand::Done(o) => panic!("{:?}", o.response.error),
    }
}

#[test]
fn the_record_store_vouches_for_a_work_item() {
    let works: Table<Work> = Table::new();
    let req = DaemonRequest::new(3, "worktree.cleanup", r#"{"work_id": "wk-1"}"#);
    let kept = Work::new("wk-1".to_string(), "ph-1".to_string(), "T".to_string(), 0);
    let stored = Stored::Found(kept);
    assert!(matches!(handle_worktree_cleanup(&works, &req, &stored), Errand::Run(_)));
    assert!(matches!(handle_worktree_create(&works, &req, &stored, false), Errand::Run(_)));
}

#[test]
fn a_work_item_that_nobody_has_gets_no_worktree() {
    let works: Table<Work> = Table::new();
    let req = DaemonRequest::new(3, "worktree.create", r#"{"work_id": "wk-1"}"#);
    for stored in [Stored::Missing, Stored::NoStore, Stored::Failed("broken".to_string())] {
        match handle_worktree_create(&works, &req, &stored, false) {
            Errand::Done(o) => {
                assert!(o.events.is_empty());
                let e = o.response.error.unwrap();
                assert_eq!((e.code, e.message.as_str()), (-32001, "work not found: wk-1"));
            }
            Errand::Run(_) => panic!("nobody has it"),
        }
        assert!(matches!(handle_worktree_cleanup(&works, &req, &stored), Errand::Done(_)));
    }
}

#[test]
fn the_table_stands_in_for_a_store_without_the_work_item() {
    let mut works: Table<Work> = Table::new();
    works.put(Work::new("wk-1".to_string(), "ph-1".to_string(), "T".to_string(), 0));
    let req = DaemonRequest::new(3, "worktree.create", r#"{"work_id": "wk-1"}"#);
    for stored in [Stored::Missing, Stored::Failed("broken".to_string())] {
        assert!(matches!(handle_worktree_create(&works, &req, &stored, false), Errand::Run(_)));
    }
}

#[test]
fn the_status_names_the_session_by_its_directory() {
    let d = Daemon::new();
    let req = DaemonRequest::new(1, "system.status", "{}");
    let named = |dir: &str| {
        let mut vitals = d.vitals();
        vitals.session_dir = Some(dir.to_string());
        handle_status(&d.stores, &req, &vitals).response.result.unwrap().session_id
    };
    assert_eq!(named("/var/log/20260220T145132"), Some("20260220T145132".to_string()));
    assert_eq!(named("logs/20260220T145132/"), Some("20260220T145132".to_string()));
    assert_eq!(named("/"), None);
    assert_eq!(named(""), None);
    assert_eq!(named("logs/.."), None);
    assert_eq!(named("logs/../."), None);
    assert_eq!(named("."), None);
    assert_eq!(named("./."), None);
    assert_eq!(named("./s"), Some("s".to_string()));
    assert_eq!(named("logs/s/./"), Some("s".to_string()));
    assert_eq!(named("logs//s//"), Some("s".to_string()));
    assert_eq!(named("../s"), Some("s".to_string()));
    assert_eq!(named("..."), Some("...".to_string()));
    assert_eq!(named("logs/.s"), Some(".s".to_string()));
    let o = handle_status(&d.stores, &req, &d.vitals());
    assert_eq!(o.response.result.unwrap().session_id, None);
}

#[test]
fn freeing_again_later_changes_nothing() {
    let mut works: Table<Work> = Table::new();
    let mut done = Work::new("wk-1".to_string(), "ph-1".to_string(), "A".to_string(), 0);
    done.status = WorkStatus::Done;
    works.put(done);
    let mut held = Work::new("wk-2".to_string(), "ph-1".to_string(), "B".to_string(), 0);
    held.status = WorkStatus::Blocked;
    held.dependencies = vec!["wk-1".to_string()];
    works.put(held);
    assert_eq!(unblock_dependents(&mut works, 1, "wk-1", 500).len(), 1);
    assert_eq!(works.get("wk-2").unwrap().status, WorkStatus::Ready);
    assert_eq!(works.get("wk-2").unwrap().updated_at, 500);
    assert_eq!(unblock_dependents(&mut works, 1, "wk-1", 900).len(), 0);
    assert_eq!(works.get("wk-2").unwrap().updated_at, 500);
}

#[test]
fn a_full_counter_stands_only_against_what_is_counted() {
    let mut d = Daemon::new();
    let (_, wi_id) = create_test_work(&mut d);
    let mut w = d.work(&wi_id);
    w.status = WorkStatus::InProgress;
    w.attempt_count = u32::MAX;
    d.stores.works.put(w);
    let params = format!(r#"{{"id": "{}", "target_status": "Ready"}}"#, wi_id);
    let req = DaemonRequest::new(1, "work.transition", &params);
    let m = WorkMove::read(&req.params, None).unwrap();
    let (works, bundles) = (&mut d.stores.works, &d.stores.bundles);
    assert!(!can_count(works, bundles, &m, &Verdict::Changed));
    assert!(can_count(works, bundles, &m, &Verdict::Unchanged));
    let no = Verdict::Rejected("no".to_string());
    assert!(can_count(works, bundles, &m, &no));
    match handle_work_transition(works, bundles, &req, None, no, 5) {
        Step::Reply(o) => assert_eq!(o.response.error.unwrap().code, -32000),
        Step::Persist(_) => panic!("the rules are against it"),
    }
    let mut bare = works.get(&wi_id).unwrap().copied();
    bare.acceptance_criteria = Vec::new();
    works.put(bare);
    assert!(can_count(works, bundles, &m, &Verdict::Changed));
    match handle_work_transition(works, bundles, &req, None, Verdict::Changed, 5) {
        Step::Reply(o) => assert_eq!(o.response.error.unwrap().code, -32005),
        Step::Persist(_) => panic!("it has no criteria"),
    }
}

#[test]
fn freeing_is_told_of_as_the_systems_doing() {
    let mut d = Daemon::new();
    let (phase_id, _) = create_test_work(&mut d);
    let wk_a = create_work(&mut d, &phase_id, "Work A", &[]);
    let wk_b = create_work(&mut d, &phase_id, "Work B", &[&wk_a]);
    d.force_work(&wk_b, WorkStatus::Blocked);
    d.subscribe();
    finish(&mut d, &wk_a);
    let done = d.next_event().unwrap();
    assert_eq!(done.data["system"], false);
    let freed = d.next_event().unwrap();
    assert_eq!(freed.event, "transition.completed");
    assert_eq!(freed.data["id"], text(&wk_b));
    assert_eq!(freed.data["from"], "Blocked");
    assert_eq!(freed.data["to"], "Ready");
    assert_eq!(freed.data["system"], true);
}

#[test]
fn parameters_that_are_no_object_hold_nothing() {
    let mut d = Daemon::new();
    for params in ["null", "[1, 2]", "\"title\"", "{\"title\": ", ""] {
        assert_eq!(
            d.refused("plan.create", params),
            (-32602, "title is required".to_string())
        );
    }
}

#[test]
fn the_last_of_two_members_of_a_name_counts() {
    let mut d = Daemon::new();
    let resp = d.ask("plan.create", r#"{"title": "A", "title": "B\u00e9"}"#);
    assert_eq!(resp.result.unwrap()["title"], "Bé");
}

#[test]
fn test_dispatch_unknown_method() {
    let mut d = Daemon::new();
    let req = DaemonRequest::new(1, "unknown.method", r#"null"#);
    let resp = d.dispatch(req);
    assert!(resp.is_error());
    assert!(resp.error.unwrap().message.contains("unknown.method"));
}

#[test]
fn test_dispatch_handshake() {
    let mut d = Daemon::new();
    let req = DaemonRequest::new(1, "system.handshake", r#"{"client_version": "0.1.0"}"#);
    let resp = d.dispatch(req);
    assert!(!resp.is_error());
    assert_eq!(resp.result.unwrap()["protocol"], "ndjson/1");
}

#[test]
fn test_dispatch_status_empty() {
    let mut d = Daemon::new();
    let req = DaemonRequest::new(1, "system.status", r#"null"#);
    let resp = d.dispatch(req);
    assert!(!resp.is_error());
    let result = resp.result.unwrap();
    assert!(result["version"].is_string());
    assert!(result["pid"].is_number());
    assert_eq!(result["counts"]["plans"], 0);
    assert_eq!(result["counts"]["works"], 0);
    assert_eq!(result["taskstore"]["enabled"], false);
}

#[test]
fn test_dispatch_shutdown() {
    let mut d = Daemon::new();
    d.subscribe();
    let req = DaemonRequest::new(1, "system.shutdown", r#"null"#);
    let resp = d.dispatch(req);
    assert!(!resp.is_error());
    assert_eq!(resp.result.unwrap()["status"], "shutting_down");
    let event = d.next_event().unwrap();
    assert_eq!(event.event, "system.shutdown");
}

#[test]
fn mod_test_plan_create_success() {
    let mut d = Daemon::new();
    let req = DaemonRequest::new(1, "plan.create", r#"{"title": "Test Plan", "description": "A test", "acceptance_criteria": "It works"}"#);
    let resp = d.dispatch(req);
    assert!(!resp.is_error());
    let result = resp.result.unwrap();
    assert_eq!(result["title"], "Test Plan");
    assert_eq!(result["status"], "draft");
    assert_eq!(d.stores.plans.len(), 1);
}

#[test]
fn mod_test_plan_create_missing_title() {
    let mut d = Daemon::new();
    let req = DaemonRequest::new(1, "plan.create", r#"{"description": "no title"}"#);
    let resp = d.dispatch(req);
    assert!(resp.is_error());
    assert!(resp.error.unwrap().message.contains("title"));
}

#[test]
fn mod_test_plan_create_broadcasts_event() {
    let mut d = Daemon::new();
    d.subscribe();
    let req = DaemonRequest::new(1, "plan.create", r#"{"title": "Plan"}"#);
    d.dispatch(req);
    let event = d.next_event().unwrap();
    assert_eq!(event.event, "record.created");
    assert_eq!(event.data["collection"], "plan");
}

#[test]
fn mod_test_plan_create_persists_to_taskstore() {
    let mut d = Daemon::with_store();
    let req = DaemonRequest::new(1, "plan.create", r#"{"title": "Persisted Plan", "description": "desc"}"#);
    let resp = d.dispatch(req);
    assert!(!resp.is_error());
    let plan_id = resp.result.unwrap()["id"].as_str().unwrap().to_string();
    let retrieved: Option<Plan> = d.stored_plan(&plan_id);
    assert!(retrieved.is_some());
    assert_eq!(retrieved.unwrap().title, "Persisted Plan");
}

#[test]
fn mod_test_plan_create_rejects_duplicate_draft() {
    let mut d = Daemon::new();
    let req1 = DaemonRequest::new(1, "plan.create", r#"{"title": "Plan A"}"#);
    let resp1 = d.dispatch(req1);
    assert!(!resp1.is_error());
    let req2 = DaemonRequest::new(2, "plan.create", r#"{"title": "Plan B"}"#);
    let resp2 = d.dispatch(req2);
    assert!(resp2.is_error());
    assert_eq!(resp2.error.unwrap().code, -32005);
}

#[test]
fn mod_test_plan_get_success() {
    let mut d = Daemon::new();
    let create_req = DaemonRequest::new(1, "plan.create", r#"{"title": "My Plan"}"#);
    let create_resp = d.dispatch(create_req);
    let plan_id = create_resp.result.unwrap()["id"].as_str().unwrap().to_string();
    let get_req = DaemonRequest::new(2, "plan.get", &format!(r#"{{"id": "{}"}}"#, plan_id));
    let get_resp = d.dispatch(get_req);
    assert!(!get_resp.is_error());
    assert_eq!(get_resp.result.unwrap()["title"], "My Plan");
}

#[test]
fn mod_test_plan_get_not_found() {
    let mut d = Daemon::new();
    let req = DaemonRequest::new(1, "plan.get", r#"{"id": "nonexistent"}"#);
    let resp = d.dispatch(req);
    assert!(resp.is_error());
    assert_eq!(resp.error.unwrap().code, -32001);
}

#[test]
fn mod_test_plan_get_missing_id() {
    let mut d = Daemon::new();
    let req = DaemonRequest::new(1, "plan.get", r#"{}"#);
    let resp = d.dispatch(req);
    assert!(resp.is_error());
    assert!(resp.error.unwrap().message.contains("id"));
}

#[test]
fn mod_test_plan_get_reads_from_taskstore() {
    let mut d = Daemon::with_store();
    let create_req = DaemonRequest::new(1, "plan.create", r#"{"title": "TaskStore Plan", "description": "persistent"}"#);
    let create_resp = d.dispatch(create_req);
    assert!(!create_resp.is_error());
    let plan_id = create_resp.result.unwrap()["id"].as_str().unwrap().to_string();
    d.forget_plans(Some(&plan_id));
    let get_req = DaemonRequest::new(2, "plan.get", &format!(r#"{{"id": "{}"}}"#, plan_id));
    let get_resp = d.dispatch(get_req);
    assert!(!get_resp.is_error());
    assert_eq!(get_resp.result.unwrap()["title"], "TaskStore Plan");
}

#[test]
fn mod_test_plan_list_empty() {
    let mut d = Daemon::new();
    let req = DaemonRequest::new(1, "plan.list", r#"null"#);
    let resp = d.dispatch(req);
    assert!(!resp.is_error());
    let plans = resp.result.unwrap();
    assert!(plans.is_array());
    assert_eq!(plans.as_array().unwrap().len(), 0);
}

#[test]
fn mod_test_plan_list_with_plans() {
    let mut d = Daemon::new();
    let resp1 = d.dispatch(DaemonRequest::new(1, "plan.create", r#"{"title": "Plan A"}"#));
    let plan_a_id = resp1.result.unwrap()["id"].as_str().unwrap().to_string();
    d.dispatch(DaemonRequest::new(10, "plan.transition", &format!(r#"{{"id": "{}", "target_status": "abandoned", "role": "coordinator"}}"#, plan_a_id)));
    d.dispatch(DaemonRequest::new(2, "plan.create", r#"{"title": "Plan B"}"#));
    let req = DaemonRequest::new(3, "plan.list", r#"null"#);
    let resp = d.dispatch(req);
    assert!(!resp.is_error());
    let plans = resp.result.unwrap();
    assert_eq!(plans.as_array().unwrap().len(), 2);
}

#[test]
fn mod_test_plan_list_reads_from_taskstore() {
    let mut d = Daemon::with_store();
    let resp1 = d.dispatch(DaemonRequest::new(1, "plan.create", r#"{"title": "Plan A"}"#));
    let plan_a_id = resp1.result.unwrap()["id"].as_str().unwrap().to_string();
    d.dispatch(DaemonRequest::new(10, "plan.transition", &format!(r#"{{"id": "{}", "target_status": "abandoned", "role": "coordinator"}}"#, plan_a_id)));
    d.dispatch(DaemonRequest::new(2, "plan.create", r#"{"title": "Plan B"}"#));
    d.forget_plans(None);
    let req = DaemonRequest::new(3, "plan.list", r#"null"#);
    let resp = d.dispatch(req);
    assert!(!resp.is_error());
    let plans = resp.result.unwrap();
    assert_eq!(plans.as_array().unwrap().len(), 2);
}

#[test]
fn mod_test_plan_transition_draft_to_active() {
    let mut d = Daemon::new();
    d.subscribe();
    let create_resp = d.dispatch(DaemonRequest::new(1, "plan.create", r#"{"title": "Plan"}"#));
    d.next_event();
    let plan_id = create_resp.result.unwrap()["id"].as_str().unwrap().to_string();
    let req = DaemonRequest::new(2, "plan.transition", &format!(r#"{{"id": "{}", "target_status": "active", "role": "coordinator"}}"#, plan_id));
    let resp = d.dispatch(req);
    assert!(!resp.is_error());
    assert_eq!(resp.result.unwrap()["status"], "active");
    let event = d.next_event().unwrap();
    assert_eq!(event.event, "transition.completed");
    assert_eq!(event.data["from"], "draft");
    assert_eq!(event.data["to"], "active");
}

#[test]
fn mod_test_plan_transition_invalid_skip_state() {
    let mut d = Daemon::new();
    let create_resp = d.dispatch(DaemonRequest::new(1, "plan.create", r#"{"title": "Plan"}"#));
    let plan_id = create_resp.result.unwrap()["id"].as_str().unwrap().to_string();
    let req = DaemonRequest::new(2, "plan.transition", &format!(r#"{{"id": "{}", "target_status": "complete", "role": "coordinator"}}"#, plan_id));
    let resp = d.dispatch(req);
    assert!(resp.is_error());
    assert_eq!(resp.error.unwrap().code, -32000);
}

#[test]
fn mod_test_plan_transition_wrong_role() {
    let mut d = Daemon::new();
    let create_resp = d.dispatch(DaemonRequest::new(1, "plan.create", r#"{"title": "Plan"}"#));
    let plan_id = create_resp.result.unwrap()["id"].as_str().unwrap().to_string();
    let req = DaemonRequest::new(2, "plan.transition", &format!(r#"{{"id": "{}", "target_status": "active", "role": "implementer"}}"#, plan_id));
    let resp = d.dispatch(req);
    assert!(resp.is_error());
    assert_eq!(resp.error.unwrap().code, -32000);
}

#[test]
fn mod_test_plan_transition_not_found() {
    let mut d = Daemon::new();
    let req = DaemonRequest::new(1, "plan.transition", r#"{"id": "nonexistent", "target_status": "active"}"#);
    let resp = d.dispatch(req);
    assert!(resp.is_error());
    assert_eq!(resp.error.unwrap().code, -32001);
}

#[test]
fn mod_test_plan_transition_missing_params() {
    let mut d = Daemon::new();
    let req = DaemonRequest::new(1, "plan.transition", r#"{"target_status": "active"}"#);
    let resp = d.dispatch(req);
    assert!(resp.is_error());
    let req = DaemonRequest::new(2, "plan.transition", r#"{"id": "x"}"#);
    let resp = d.dispatch(req);
    assert!(resp.is_error());
}

#[test]
fn mod_test_plan_transition_default_role_coordinator() {
    let mut d = Daemon::new();
    let create_resp = d.dispatch(DaemonRequest::new(1, "plan.create", r#"{"title": "Plan"}"#));
    let plan_id = create_resp.result.unwrap()["id"].as_str().unwrap().to_string();
    let req = DaemonRequest::new(2, "plan.transition", &format!(r#"{{"id": "{}", "target_status": "active"}}"#, plan_id));
    let resp = d.dispatch(req);
    assert!(!resp.is_error());
    assert_eq!(resp.result.unwrap()["status"], "active");
}

#[test]
fn mod_test_plan_transition_persists_to_taskstore() {
    let mut d = Daemon::with_store();
    let create_resp = d.dispatch(DaemonRequest::new(1, "plan.create", r#"{"title": "Transition Plan"}"#));
    assert!(!create_resp.is_error());
    let plan_id = create_resp.result.unwrap()["id"].as_str().unwrap().to_string();
    let req = DaemonRequest::new(2, "plan.transition", &format!(r#"{{"id": "{}", "target_status": "active", "role": "coordinator"}}"#, plan_id));
    let resp = d.dispatch(req);
    assert!(!resp.is_error());
    assert_eq!(resp.result.unwrap()["status"], "active");
    let retrieved: Option<Plan> = d.stored_plan(&plan_id);
    assert!(retrieved.is_some());
    let plan = retrieved.unwrap();
    assert_eq!(plan.status, HierarchyStatus::Active);
}

#[test]
fn mod_test_spec_get_not_found() {
    let mut d = Daemon::new();
    let req = DaemonRequest::new(1, "spec.get", r#"{"id": "nonexistent"}"#);
    let resp = d.dispatch(req);
    assert!(resp.is_error());
    assert_eq!(resp.error.unwrap().code, -32001);
}

#[test]
fn mod_test_spec_list_empty() {
    let mut d = Daemon::new();
    let req = DaemonRequest::new(1, "spec.list", r#"null"#);
    let resp = d.dispatch(req);
    assert!(!resp.is_error());
    assert_eq!(resp.result.unwrap().as_array().unwrap().len(), 0);
}

#[test]
fn mod_test_spec_transition_not_found() {
    let mut d = Daemon::new();
    let req = DaemonRequest::new(1, "spec.transition", r#"{"id": "nonexistent", "target_status": "active"}"#);
    let resp = d.dispatch(req);
    assert!(resp.is_error());
    assert_eq!(resp.error.unwrap().code, -32001);
}

#[test]
fn mod_test_phase_get_not_found() {
    let mut d = Daemon::new();
    let req = DaemonRequest::new(1, "phase.get", r#"{"id": "nonexistent"}"#);
    let resp = d.dispatch(req);
    assert!(resp.is_error());
    assert_eq!(resp.error.unwrap().code, -32001);
}

#[test]
fn mod_test_phase_list_empty() {
    let mut d = Daemon::new();
    let req = DaemonRequest::new(1, "phase.list", r#"null"#);
    let resp = d.dispatch(req);
    assert!(!resp.is_error());
    assert_eq!(resp.result.unwrap().as_array().unwrap().len(), 0);
}

#[test]
fn mod_test_phase_transition_not_found() {
    let mut d = Daemon::new();
    let req = DaemonRequest::new(1, "phase.transition", r#"{"id": "nonexistent", "target_status": "active"}"#);
    let resp = d.dispatch(req);
    assert!(resp.is_error());
    assert_eq!(resp.error.unwrap().code, -32001);
}

#[test]
fn mod_test_work_get_not_found() {
    let mut d = Daemon::new();
    let req = DaemonRequest::new(1, "work.get", r#"{"id": "nonexistent"}"#);
    let resp = d.dispatch(req);
    assert!(resp.is_error());
    assert_eq!(resp.error.unwrap().code, -32001);
}

#[test]
fn mod_test_work_list_empty() {
    let mut d = Daemon::new();
    let req = DaemonRequest::new(1, "work.list", r#"null"#);
    let resp = d.dispatch(req);
    assert!(!resp.is_error());
    assert_eq!(resp.result.unwrap().as_array().unwrap().len(), 0);
}

#[test]
fn mod_test_work_transition_not_found() {
    let mut d = Daemon::new();
    let req = DaemonRequest::new(1, "work.transition", r#"{"id": "nonexistent", "target_status": "Ready"}"#);
    let resp = d.dispatch(req);
    assert!(resp.is_error());
    assert_eq!(resp.error.unwrap().code, -32001);
}

#[test]
fn mod_test_tick_create_persists_to_taskstore() {
    let mut d = Daemon::with_store();
    let req = DaemonRequest::new(50, "tick.create", r#"{"number": 7}"#);
    let resp = d.dispatch(req);
    assert!(!resp.is_error());
    let tick_id = resp.result.unwrap()["id"].as_str().unwrap().to_string();
    let retrieved: Option<Tick> = d.stored_tick(&tick_id);
    assert!(retrieved.is_some());
    assert_eq!(retrieved.unwrap().number, 7);
}

#[test]
fn mod_test_tick_create_success() {
    let mut d = Daemon::new();
    let req = DaemonRequest::new(50, "tick.create", r#"{"number": 1}"#);
    let resp = d.dispatch(req);
    assert!(!resp.is_error());
    let result = resp.result.unwrap();
    assert_eq!(result["number"], 1);
    assert_eq!(result["status"], "Open");
    assert!(result["integration_sha"].is_null());
    assert_eq!(result["bundle_ids"].as_array().unwrap().len(), 0);
    assert_eq!(d.stores.ticks.len(), 1);
}

#[test]
fn mod_test_tick_create_missing_number() {
    let mut d = Daemon::new();
    let req = DaemonRequest::new(1, "tick.create", r#"{}"#);
    let resp = d.dispatch(req);
    assert!(resp.is_error());
    assert!(resp.error.unwrap().message.contains("number"));
}

#[test]
fn mod_test_tick_create_broadcasts_event() {
    let mut d = Daemon::new();
    d.subscribe();
    let req = DaemonRequest::new(50, "tick.create", r#"{"number": 1}"#);
    d.dispatch(req);
    let event = d.next_event().unwrap();
    assert_eq!(event.event, "record.created");
    assert_eq!(event.data["collection"], "tick");
}

#[test]
fn mod_test_tick_create_singleton_guard_blocks_second() {
    let mut d = Daemon::new();
    let resp1 = d.dispatch(DaemonRequest::new(50, "tick.create", r#"{"number": 1}"#));
    assert!(!resp1.is_error());
    let resp2 = d.dispatch(DaemonRequest::new(51, "tick.create", r#"{"number": 2}"#));
    assert!(resp2.is_error());
    assert!(
        resp2
            .error
            .unwrap()
            .message
            .contains("non-terminal Tick already exists")
    );
}

#[test]
fn mod_test_tick_create_singleton_guard_allows_after_terminal() {
    let mut d = Daemon::new();
    let c1 = d.dispatch(DaemonRequest::new(50, "tick.create", r#"{"number": 1}"#));
    let t1_id = c1.result.unwrap()["id"].as_str().unwrap().to_string();
    d.dispatch(DaemonRequest::new(51, "tick.transition", &format!(r#"{{"id": "{}", "target_status": "Sealing", "role": "integrator"}}"#, t1_id)));
    d.dispatch(DaemonRequest::new(52, "tick.transition", &format!(r#"{{"id": "{}", "target_status": "Validating", "role": "integrator"}}"#, t1_id)));
    d.dispatch(DaemonRequest::new(53, "tick.transition", &format!(r#"{{"id": "{}", "target_status": "Published", "role": "integrator"}}"#, t1_id)));
    let resp2 = d.dispatch(DaemonRequest::new(54, "tick.create", r#"{"number": 2}"#));
    assert!(!resp2.is_error());
}

#[test]
fn mod_test_tick_get_success() {
    let mut d = Daemon::new();
    let create_resp = d.dispatch(DaemonRequest::new(50, "tick.create", r#"{"number": 42}"#));
    let tick_id = create_resp.result.unwrap()["id"].as_str().unwrap().to_string();
    let get_resp = d.dispatch(DaemonRequest::new(51, "tick.get", &format!(r#"{{"id": "{}"}}"#, tick_id)));
    assert!(!get_resp.is_error());
    assert_eq!(get_resp.result.unwrap()["number"], 42);
}

#[test]
fn mod_test_tick_get_not_found() {
    let mut d = Daemon::new();
    let req = DaemonRequest::new(1, "tick.get", r#"{"id": "nonexistent"}"#);
    let resp = d.dispatch(req);
    assert!(resp.is_error());
    assert_eq!(resp.error.unwrap().code, -32001);
}

#[test]
fn mod_test_tick_get_reads_from_taskstore() {
    let mut d = Daemon::with_store();
    let create_resp = d.dispatch(DaemonRequest::new(50, "tick.create", r#"{"number": 99}"#));
    assert!(!create_resp.is_error());
    let tick_id = create_resp.result.unwrap()["id"].as_str().unwrap().to_string();
    d.forget_ticks(Some(&tick_id));
    let get_req = DaemonRequest::new(51, "tick.get", &format!(r#"{{"id": "{}"}}"#, tick_id));
    let get_resp = d.dispatch(get_req);
    assert!(!get_resp.is_error());
    assert_eq!(get_resp.result.unwrap()["number"], 99);
}

#[test]
fn mod_test_tick_list_empty() {
    let mut d = Daemon::new();
    let req = DaemonRequest::new(1, "tick.list", r#"null"#);
    let resp = d.dispatch(req);
    assert!(!resp.is_error());
    assert_eq!(resp.result.unwrap().as_array().unwrap().len(), 0);
}

#[test]
fn mod_test_tick_list_filtered_by_status() {
    let mut d = Daemon::new();
    let create1 = d.dispatch(DaemonRequest::new(50, "tick.create", r#"{"number": 1}"#));
    let tick1_id = create1.result.unwrap()["id"].as_str().unwrap().to_string();
    d.dispatch(DaemonRequest::new(52, "tick.transition", &format!(r#"{{"id": "{}", "target_status": "Sealing", "role": "integrator"}}"#, tick1_id)));
    d.dispatch(DaemonRequest::new(53, "tick.transition", &format!(r#"{{"id": "{}", "target_status": "Validating", "role": "integrator"}}"#, tick1_id)));
    d.dispatch(DaemonRequest::new(54, "tick.transition", &format!(r#"{{"id": "{}", "target_status": "Published", "role": "integrator"}}"#, tick1_id)));
    let create2 = d.dispatch(DaemonRequest::new(55, "tick.create", r#"{"number": 2}"#));
    let tick2_id = create2.result.unwrap()["id"].as_str().unwrap().to_string();
    d.dispatch(DaemonRequest::new(56, "tick.transition", &format!(r#"{{"id": "{}", "target_status": "Sealing", "role": "integrator"}}"#, tick2_id)));
    let all_resp = d.dispatch(DaemonRequest::new(60, "tick.list", r#"null"#));
    assert_eq!(all_resp.result.unwrap().as_array().unwrap().len(), 2);
    let filtered_resp = d.dispatch(DaemonRequest::new(61, "tick.list", r#"{"status": "Published"}"#));
    let ticks = filtered_resp.result.unwrap();
    let arr = ticks.as_array().unwrap();
    assert_eq!(arr.len(), 1);
    assert_eq!(arr[0]["number"], 1);
}

#[test]
fn mod_test_tick_list_reads_from_taskstore() {
    let mut d = Daemon::with_store();
    let c1 = d.dispatch(DaemonRequest::new(50, "tick.create", r#"{"number": 1}"#));
    let t1_id = c1.result.unwrap()["id"].as_str().unwrap().to_string();
    d.dispatch(DaemonRequest::new(52, "tick.transition", &format!(r#"{{"id": "{}", "target_status": "Sealing", "role": "integrator"}}"#, t1_id)));
    d.dispatch(DaemonRequest::new(53, "tick.transition", &format!(r#"{{"id": "{}", "target_status": "Validating", "role": "integrator"}}"#, t1_id)));
    d.dispatch(DaemonRequest::new(54, "tick.transition", &format!(r#"{{"id": "{}", "target_status": "Published", "role": "integrator"}}"#, t1_id)));
    d.dispatch(DaemonRequest::new(55, "tick.create", r#"{"number": 2}"#));
    d.forget_ticks(None);
    let all_resp = d.dispatch(DaemonRequest::new(60, "tick.list", r#"null"#));
    assert!(!all_resp.is_error());
    assert_eq!(all_resp.result.unwrap().as_array().unwrap().len(), 2);
    let filtered_req = DaemonRequest::new(61, "tick.list", r#"{"status": "Open"}"#);
    let filtered_resp = d.dispatch(filtered_req);
    assert!(!filtered_resp.is_error());
    let filtered_items = filtered_resp.result.unwrap();
    let arr = filtered_items.as_array().unwrap();
    assert_eq!(arr.len(), 1);
}

#[test]
fn mod_test_tick_transition_open_to_sealing() {
    let mut d = Daemon::new();
    d.subscribe();
    let create_resp = d.dispatch(DaemonRequest::new(50, "tick.create", r#"{"number": 1}"#));
    d.next_event();
    let tick_id = create_resp.result.unwrap()["id"].as_str().unwrap().to_string();
    let req = DaemonRequest::new(51, "tick.transition", &format!(r#"{{"id": "{}", "target_status": "Sealing", "role": "integrator"}}"#, tick_id));
    let resp = d.dispatch(req);
    assert!(!resp.is_error());
    assert_eq!(resp.result.unwrap()["status"], "Sealing");
    let event = d.next_event().unwrap();
    assert_eq!(event.event, "transition.completed");
    assert_eq!(event.data["collection"], "tick");
    assert_eq!(event.data["from"], "Open");
    assert_eq!(event.data["to"], "Sealing");
}

#[test]
fn mod_test_tick_transition_invalid_skip_state() {
    let mut d = Daemon::new();
    let create_resp = d.dispatch(DaemonRequest::new(50, "tick.create", r#"{"number": 1}"#));
    let tick_id = create_resp.result.unwrap()["id"].as_str().unwrap().to_string();
    let req = DaemonRequest::new(51, "tick.transition", &format!(r#"{{"id": "{}", "target_status": "Published", "role": "integrator"}}"#, tick_id));
    let resp = d.dispatch(req);
    assert!(resp.is_error());
    assert_eq!(resp.error.unwrap().code, -32000);
}

#[test]
fn mod_test_tick_transition_wrong_role() {
    let mut d = Daemon::new();
    let create_resp = d.dispatch(DaemonRequest::new(50, "tick.create", r#"{"number": 1}"#));
    let tick_id = create_resp.result.unwrap()["id"].as_str().unwrap().to_string();
    let req = DaemonRequest::new(51, "tick.transition", &format!(r#"{{"id": "{}", "target_status": "Sealing", "role": "coordinator"}}"#, tick_id));
    let resp = d.dispatch(req);
    assert!(resp.is_error());
    assert_eq!(resp.error.unwrap().code, -32000);
}

#[test]
fn mod_test_tick_transition_not_found() {
    let mut d = Daemon::new();
    let req = DaemonRequest::new(1, "tick.transition", r#"{"id": "nonexistent", "target_status": "Sealing"}"#);
    let resp = d.dispatch(req);
    assert!(resp.is_error());
    assert_eq!(resp.error.unwrap().code, -32001);
}

#[test]
fn mod_test_tick_transition_default_role_is_integrator() {
    let mut d = Daemon::new();
    let create_resp = d.dispatch(DaemonRequest::new(50, "tick.create", r#"{"number": 1}"#));
    let tick_id = create_resp.result.unwrap()["id"].as_str().unwrap().to_string();
    let req = DaemonRequest::new(51, "tick.transition", &format!(r#"{{"id": "{}", "target_status": "Sealing"}}"#, tick_id));
    let resp = d.dispatch(req);
    assert!(!resp.is_error());
    assert_eq!(resp.result.unwrap()["status"], "Sealing");
}

#[test]
fn mod_test_worktree_create_missing_work_id() {
    let mut d = Daemon::new();
    let resp = d.dispatch(DaemonRequest::new(1, "worktree.create", r#"{}"#));
    assert!(resp.is_error());
    assert!(resp.error.as_ref().unwrap().message.contains("work_id"));
}

#[test]
fn mod_test_worktree_create_work_not_found() {
    let mut d = Daemon::new();
    let resp = d.dispatch(DaemonRequest::new(1, "worktree.create", r#"{"work_id": "nonexistent"}"#));
    assert!(resp.is_error());
    assert!(resp.error.as_ref().unwrap().message.contains("not found"));
}

#[test]
fn mod_test_worktree_create_validates_work_exists() {
    let mut d = Daemon::new();
    let (_phase_id, wi_id) = create_test_work(&mut d);
    let resp = d.dispatch(DaemonRequest::new(2, "worktree.create", &format!(r#"{{"work_id": "{}"}}"#, wi_id)));
    assert!(resp.is_error());
    let msg = &resp.error.as_ref().unwrap().message;
    assert!(
        !msg.contains("not found"),
        "error should be from git, not from validation: {}",
        msg
    );
}

#[test]
fn mod_test_worktree_list_returns_response() {
    let mut d = Daemon::new();
    let resp = d.dispatch(DaemonRequest::new(1, "worktree.list", r#"null"#));
    assert!(resp.is_error());
}

#[test]
fn mod_test_worktree_cleanup_missing_work_id() {
    let mut d = Daemon::new();
    let resp = d.dispatch(DaemonRequest::new(1, "worktree.cleanup", r#"{}"#));
    assert!(resp.is_error());
    assert!(resp.error.as_ref().unwrap().message.contains("work_id"));
}

#[test]
fn mod_test_worktree_cleanup_work_not_found() {
    let mut d = Daemon::new();
    let resp = d.dispatch(DaemonRequest::new(1, "worktree.cleanup", r#"{"work_id": "nonexistent"}"#));
    assert!(resp.is_error());
    assert!(resp.error.as_ref().unwrap().message.contains("not found"));
}

#[test]
fn mod_test_worktree_refresh_missing_work_id() {
    let mut d = Daemon::new();
    let resp = d.dispatch(DaemonRequest::new(1, "worktree.refresh", r#"{}"#));
    assert!(resp.is_error());
    assert!(resp.error.as_ref().unwrap().message.contains("work_id"));
}

#[test]
fn mod_test_worktree_refresh_nonexistent_worktree() {
    let mut d = Daemon::new();
    let resp = d.dispatch(DaemonRequest::new(1, "worktree.refresh", r#"{"work_id": "nonexistent"}"#));
    assert!(resp.is_error());
}

#[test]
fn test_dispatch_system_init_without_store() {
    let mut d = Daemon::new();
    let req = DaemonRequest::new(1, "system.init", r#"{}"#);
    let resp = d.dispatch(req);
    assert!(resp.is_error());
    let err = resp.error.unwrap();
    assert!(err.message.contains("TaskStore not initialized"));
}

#[test]
fn test_dispatch_system_init_idempotent() {
    let mut d = Daemon::with_store();
    let req1 = DaemonRequest::new(1, "system.init", r#"{}"#);
    let resp1 = d.dispatch(req1);
    assert!(!resp1.is_error());
    let req2 = DaemonRequest::new(2, "system.init", r#"{}"#);
    let resp2 = d.dispatch(req2);
    assert!(!resp2.is_error());
}

#[test]
fn mod_test_plan_transition_blocked_no_report_when_validator_enabled() {
    let mut d = Daemon::with_validator(Strictness::AllowAmbiguityWithFlags);
    let create_resp = d.dispatch(DaemonRequest::new(1, "plan.create", r#"{"title": "Gate Test Plan"}"#));
    let plan_id = create_resp.result.unwrap()["id"].as_str().unwrap().to_string();
    let resp = d.dispatch(DaemonRequest::new(2, "plan.transition", &format!(r#"{{"id": "{}", "target_status": "active", "role": "coordinator"}}"#, plan_id)));
    assert!(resp.is_error());
    assert_eq!(resp.error.as_ref().unwrap().code, -32003);
    assert!(resp.error.unwrap().message.contains("validator.validate"));
}

#[test]
fn mod_test_plan_transition_allowed_with_pass_report() {
    let mut d = Daemon::with_validator(Strictness::AllowAmbiguityWithFlags);
    let create_resp = d.dispatch(DaemonRequest::new(1, "plan.create", r#"{"title": "Gate Test Plan"}"#));
    let plan_id = create_resp.result.unwrap()["id"].as_str().unwrap().to_string();
    d.report("plans", &plan_id, Finding::Pass);
    let resp = d.dispatch(DaemonRequest::new(2, "plan.transition", &format!(r#"{{"id": "{}", "target_status": "active", "role": "coordinator"}}"#, plan_id)));
    assert!(!resp.is_error());
    assert_eq!(resp.result.unwrap()["status"], "active");
}

#[test]
fn mod_test_plan_transition_allowed_with_warn_report() {
    let mut d = Daemon::with_validator(Strictness::AllowAmbiguityWithFlags);
    let create_resp = d.dispatch(DaemonRequest::new(1, "plan.create", r#"{"title": "Gate Test Plan"}"#));
    let plan_id = create_resp.result.unwrap()["id"].as_str().unwrap().to_string();
    d.report("plans", &plan_id, Finding::Warn);
    let resp = d.dispatch(DaemonRequest::new(2, "plan.transition", &format!(r#"{{"id": "{}", "target_status": "active", "role": "coordinator"}}"#, plan_id)));
    assert!(!resp.is_error());
    assert_eq!(resp.result.unwrap()["status"], "active");
}

#[test]
fn mod_test_plan_transition_blocked_with_fail_report() {
    let mut d = Daemon::with_validator(Strictness::AllowAmbiguityWithFlags);
    let create_resp = d.dispatch(DaemonRequest::new(1, "plan.create", r#"{"title": "Gate Test Plan"}"#));
    let plan_id = create_resp.result.unwrap()["id"].as_str().unwrap().to_string();
    d.report("plans", &plan_id, Finding::Fail);
    let resp = d.dispatch(DaemonRequest::new(2, "plan.transition", &format!(r#"{{"id": "{}", "target_status": "active", "role": "coordinator"}}"#, plan_id)));
    assert!(resp.is_error());
    assert_eq!(resp.error.unwrap().code, -32003);
}

#[test]
fn mod_test_plan_transition_skip_validation_override() {
    let mut d = Daemon::with_validator(Strictness::AllowAmbiguityWithFlags);
    let create_resp = d.dispatch(DaemonRequest::new(1, "plan.create", r#"{"title": "Gate Test Plan"}"#));
    let plan_id = create_resp.result.unwrap()["id"].as_str().unwrap().to_string();
    let resp = d.dispatch(DaemonRequest::new(2, "plan.transition", &format!(r#"{{"id": "{}", "target_status": "active", "role": "coordinator", "skip_validation": true}}"#, plan_id)));
    assert!(!resp.is_error());
    assert_eq!(resp.result.unwrap()["status"], "active");
}

#[test]
fn mod_test_plan_transition_no_gate_when_validator_disabled() {
    let mut d = Daemon::with_store();
    let create_resp = d.dispatch(DaemonRequest::new(1, "plan.create", r#"{"title": "No Gate Plan"}"#));
    let plan_id = create_resp.result.unwrap()["id"].as_str().unwrap().to_string();
    let resp = d.dispatch(DaemonRequest::new(2, "plan.transition", &format!(r#"{{"id": "{}", "target_status": "active", "role": "coordinator"}}"#, plan_id)));
    assert!(!resp.is_error());
    assert_eq!(resp.result.unwrap()["status"], "active");
}

#[test]
fn test_non_draft_to_active_transition_no_gate() {
    let mut d = Daemon::with_validator(Strictness::AllowAmbiguityWithFlags);
    let create_resp = d.dispatch(DaemonRequest::new(1, "plan.create", r#"{"title": "Gate Test Plan"}"#));
    let plan_id = create_resp.result.unwrap()["id"].as_str().unwrap().to_string();
    d.dispatch(DaemonRequest::new(2, "plan.transition", &format!(r#"{{"id": "{}", "target_status": "active", "role": "coordinator", "skip_validation": true}}"#, plan_id)));
    let resp = d.dispatch(DaemonRequest::new(3, "plan.transition", &format!(r#"{{"id": "{}", "target_status": "complete", "role": "coordinator"}}"#, plan_id)));
    assert!(!resp.is_error());
    assert_eq!(resp.result.unwrap()["status"], "complete");
}

#[test]
fn mod_test_handle_plan_update_success() {
    let mut d = Daemon::new();
    let plan_id = create_test_plan(&mut d);
    let resp = d.dispatch(DaemonRequest::new(2, "plan.update", &format!(r#"{{"id": "{}", "title": "Updated Plan", "description": "New desc", "acceptance_criteria": "New criteria"}}"#, plan_id)));
    assert!(!resp.is_error(), "plan.update failed: {:?}", resp.error);
    let result = resp.result.unwrap();
    assert_eq!(result["title"], "Updated Plan");
    assert_eq!(result["description"], "New desc");
    assert_eq!(result["acceptance_criteria"], "New criteria");
}

#[test]
fn mod_test_handle_plan_update_not_found() {
    let mut d = Daemon::new();
    let resp = d.dispatch(DaemonRequest::new(1, "plan.update", r#"{"id": "nonexistent", "title": "x"}"#));
    assert!(resp.is_error());
}

#[test]
fn mod_test_handle_plan_update_missing_id() {
    let mut d = Daemon::new();
    let resp = d.dispatch(DaemonRequest::new(1, "plan.update", r#"{"title": "x"}"#));
    assert!(resp.is_error());
}

#[test]
fn mod_test_handle_spec_update_success() {
    let mut d = Daemon::new();
    let (_plan_id, spec_id) = create_test_spec(&mut d);
    let resp = d.dispatch(DaemonRequest::new(2, "spec.update", &format!(r#"{{"id": "{}", "title": "Updated Spec", "description": "New desc"}}"#, spec_id)));
    assert!(!resp.is_error(), "spec.update failed: {:?}", resp.error);
    let result = resp.result.unwrap();
    assert_eq!(result["title"], "Updated Spec");
}

#[test]
fn mod_test_handle_spec_update_not_found() {
    let mut d = Daemon::new();
    let resp = d.dispatch(DaemonRequest::new(1, "spec.update", r#"{"id": "nonexistent", "title": "x"}"#));
    assert!(resp.is_error());
}

#[test]
fn mod_test_handle_spec_update_missing_id() {
    let mut d = Daemon::new();
    let resp = d.dispatch(DaemonRequest::new(1, "spec.update", r#"{"title": "x"}"#));
    assert!(resp.is_error());
}

#[test]
fn mod_test_handle_phase_update_success() {
    let mut d = Daemon::new();
    let (_plan_id, _spec_id, phase_id) = create_test_phase(&mut d);
    let resp = d.dispatch(DaemonRequest::new(2, "phase.update", &format!(r#"{{"id": "{}", "title": "Updated Phase", "description": "New desc", "order": 5}}"#, phase_id)));
    assert!(!resp.is_error(), "phase.update failed: {:?}", resp.error);
    let result = resp.result.unwrap();
    assert_eq!(result["title"], "Updated Phase");
    assert_eq!(result["order"], 5);
}

#[test]
fn mod_test_handle_phase_update_not_found() {
    let mut d = Daemon::new();
    let resp = d.dispatch(DaemonRequest::new(1, "phase.update", r#"{"id": "nonexistent", "title": "x"}"#));
    assert!(resp.is_error());
}

#[test]
fn mod_test_handle_phase_update_missing_id() {
    let mut d = Daemon::new();
    let resp = d.dispatch(DaemonRequest::new(1, "phase.update", r#"{"title": "x"}"#));
    assert!(resp.is_error());
}

#[test]
fn mod_test_handle_work_update_not_found() {
    let mut d = Daemon::new();
    let resp = d.dispatch(DaemonRequest::new(1, "work.update", r#"{"id": "nonexistent", "title": "x"}"#));
    assert!(resp.is_error());
}

#[test]
fn mod_test_handle_work_update_missing_id() {
    let mut d = Daemon::new();
    let resp = d.dispatch(DaemonRequest::new(1, "work.update", r#"{"title": "x"}"#));
    assert!(resp.is_error());
}

#[test]
fn mod_test_handle_tick_update_success() {
    let mut d = Daemon::new();
    let tick_id = create_test_tick(&mut d);
    let resp = d.dispatch(DaemonRequest::new(2, "tick.update", &format!(r#"{{"id": "{}", "validation_log": "All tests passed", "bundle_ids": ["b-1", "b-2"], "attempted_bundle_ids": ["b-1", "b-2", "b-3"]}}"#, tick_id)));
    assert!(!resp.is_error(), "tick.update failed: {:?}", resp.error);
    let result = resp.result.unwrap();
    assert_eq!(result["validation_log"], "All tests passed");
    assert_eq!(result["bundle_ids"].as_array().unwrap().len(), 2);
    assert_eq!(result["attempted_bundle_ids"].as_array().unwrap().len(), 3);
}

#[test]
fn mod_test_handle_tick_update_not_found() {
    let mut d = Daemon::new();
    let resp = d.dispatch(DaemonRequest::new(1, "tick.update", r#"{"id": "nonexistent", "validation_log": "x"}"#));
    assert!(resp.is_error());
}

#[test]
fn mod_test_handle_tick_update_missing_id() {
    let mut d = Daemon::new();
    let resp = d.dispatch(DaemonRequest::new(1, "tick.update", r#"{"validation_log": "x"}"#));
    assert!(resp.is_error());
}

#[test]
fn mod_test_self_referencing_dependency_rejected_via_handler() {
    let mut d = Daemon::new();
    let (_, _, phase_id) = create_test_phase(&mut d);
    let a_id = create_work(&mut d, &phase_id, "A", &[]);
    let resp = d.dispatch(DaemonRequest::new(2, "work.update", &format!(r#"{{"id": "{}", "dependencies": ["{}"]}}"#, a_id, a_id)));
    assert!(resp.is_error(), "expected error for self-referencing dependency");
    assert!(
        resp.error.as_ref().unwrap().message.contains("Circular dependency"),
        "expected cycle error, got: {:?}",
        resp.error
    );
}

#[test]
fn mod_test_direct_cycle_rejected_at_update() {
    let mut d = Daemon::new();
    let (_, _, phase_id) = create_test_phase(&mut d);
    let a_id = create_work(&mut d, &phase_id, "A", &[]);
    let b_id = create_work(&mut d, &phase_id, "B", &[&a_id]);
    let resp = d.dispatch(DaemonRequest::new(3, "work.update", &format!(r#"{{"id": "{}", "dependencies": ["{}"]}}"#, a_id, b_id)));
    assert!(resp.is_error(), "expected error for direct cycle");
    assert!(
        resp.error.as_ref().unwrap().message.contains("Circular dependency"),
        "expected cycle error, got: {:?}",
        resp.error
    );
}

#[test]
fn mod_test_valid_chain_accepted_via_handler() {
    let mut d = Daemon::new();
    let (_, _, phase_id) = create_test_phase(&mut d);
    let a_id = create_work(&mut d, &phase_id, "A", &[]);
    let b_id = create_work(&mut d, &phase_id, "B", &[&a_id]);
    let c_id = create_work(&mut d, &phase_id, "C", &[&b_id]);
    assert!(!a_id.is_empty());
    assert!(!b_id.is_empty());
    assert!(!c_id.is_empty());
}

#[test]
fn phase_test_phase_create_rejects_duplicate_draft() {
    let mut d = Daemon::new();
    let (_, spec_id) = create_test_spec(&mut d);
    let req1 = DaemonRequest::new(1, "phase.create", &format!(r#"{{"parent_id": "{}", "title": "Phase A", "order": 1}}"#, spec_id));
    let resp1 = d.dispatch(req1);
    assert!(!resp1.is_error());
    let req2 = DaemonRequest::new(2, "phase.create", &format!(r#"{{"parent_id": "{}", "title": "Phase B", "order": 2}}"#, spec_id));
    let resp2 = d.dispatch(req2);
    assert!(resp2.is_error());
    assert_eq!(resp2.error.unwrap().code, -32005);
}

#[test]
fn phase_test_phase_create_rejects_complete_spec() {
    let mut d = Daemon::new();
    let (_, spec_id) = create_test_spec(&mut d);
    d.dispatch(DaemonRequest::new(1, "spec.transition", &format!(r#"{{"id": "{}", "target_status": "active", "role": "coordinator"}}"#, spec_id)));
    d.dispatch(DaemonRequest::new(1, "spec.transition", &format!(r#"{{"id": "{}", "target_status": "complete", "role": "coordinator"}}"#, spec_id)));
    let req = DaemonRequest::new(2, "phase.create", &format!(r#"{{"parent_id": "{}", "title": "Phase Under Complete", "order": 1}}"#, spec_id));
    let resp = d.dispatch(req);
    assert!(resp.is_error());
    assert!(resp.error.unwrap().message.contains("complete spec"));
}

#[test]
fn phase_test_phase_create_rejects_abandoned_spec() {
    let mut d = Daemon::new();
    let (_, spec_id) = create_test_spec(&mut d);
    d.dispatch(DaemonRequest::new(1, "spec.transition", &format!(r#"{{"id": "{}", "target_status": "abandoned", "role": "coordinator"}}"#, spec_id)));
    let req = DaemonRequest::new(2, "phase.create", &format!(r#"{{"parent_id": "{}", "title": "Phase Under Abandoned", "order": 1}}"#, spec_id));
    let resp = d.dispatch(req);
    assert!(resp.is_error());
    assert!(resp.error.unwrap().message.contains("abandoned spec"));
}

#[test]
fn phase_test_phase_create_success() {
    let mut d = Daemon::new();
    let (_, spec_id) = create_test_spec(&mut d);
    let req = DaemonRequest::new(20, "phase.create", &format!(r#"{{"parent_id": "{}", "title": "Test Phase", "description": "A phase", "order": 1}}"#, spec_id));
    let resp = d.dispatch(req);
    assert!(!resp.is_error());
    let result = resp.result.unwrap();
    assert_eq!(result["title"], "Test Phase");
    assert_eq!(result["parent_id"], spec_id);
    assert_eq!(result["status"], "draft");
    assert_eq!(result["order"], 1);
    assert_eq!(d.stores.phases.len(), 1);
}

#[test]
fn phase_test_phase_create_missing_spec_id() {
    let mut d = Daemon::new();
    let req = DaemonRequest::new(1, "phase.create", r#"{"title": "Phase"}"#);
    let resp = d.dispatch(req);
    assert!(resp.is_error());
    assert!(resp.error.unwrap().message.contains("parent_id"));
}

#[test]
fn phase_test_phase_create_spec_not_found() {
    let mut d = Daemon::new();
    let req = DaemonRequest::new(1, "phase.create", r#"{"parent_id": "nonexistent", "title": "Phase"}"#);
    let resp = d.dispatch(req);
    assert!(resp.is_error());
    assert_eq!(resp.error.unwrap().code, -32001);
}

#[test]
fn phase_test_phase_create_missing_title() {
    let mut d = Daemon::new();
    let (_, spec_id) = create_test_spec(&mut d);
    let req = DaemonRequest::new(20, "phase.create", &format!(r#"{{"parent_id": "{}", "description": "no title"}}"#, spec_id));
    let resp = d.dispatch(req);
    assert!(resp.is_error());
    assert!(resp.error.unwrap().message.contains("title"));
}

#[test]
fn phase_test_phase_create_broadcasts_event() {
    let mut d = Daemon::new();
    d.subscribe();
    let (_, spec_id) = create_test_spec(&mut d);
    d.next_event();
    d.next_event();
    let req = DaemonRequest::new(20, "phase.create", &format!(r#"{{"parent_id": "{}", "title": "Phase"}}"#, spec_id));
    d.dispatch(req);
    let event = d.next_event().unwrap();
    assert_eq!(event.event, "record.created");
    assert_eq!(event.data["collection"], "phase");
}

#[test]
fn phase_test_phase_create_persists_to_taskstore() {
    let mut d = Daemon::with_store();
    let (_, spec_id) = create_test_spec(&mut d);
    let req = DaemonRequest::new(20, "phase.create", &format!(r#"{{"parent_id": "{}", "title": "Persisted Phase", "description": "desc", "order": 1}}"#, spec_id));
    let resp = d.dispatch(req);
    assert!(!resp.is_error());
    let phase_id = resp.result.unwrap()["id"].as_str().unwrap().to_string();
    let retrieved: Option<Phase> = d.stored_phase(&phase_id);
    assert!(retrieved.is_some());
    assert_eq!(retrieved.unwrap().title, "Persisted Phase");
}

#[test]
fn phase_test_phase_get_success() {
    let mut d = Daemon::new();
    let (_, spec_id) = create_test_spec(&mut d);
    let create_resp = d.dispatch(DaemonRequest::new(20, "phase.create", &format!(r#"{{"parent_id": "{}", "title": "My Phase", "order": 3}}"#, spec_id)));
    let phase_id = create_resp.result.unwrap()["id"].as_str().unwrap().to_string();
    let get_resp = d.dispatch(DaemonRequest::new(21, "phase.get", &format!(r#"{{"id": "{}"}}"#, phase_id)));
    assert!(!get_resp.is_error());
    let result = get_resp.result.unwrap();
    assert_eq!(result["title"], "My Phase");
    assert_eq!(result["order"], 3);
}

#[test]
fn phase_test_phase_get_not_found() {
    let mut d = Daemon::new();
    let req = DaemonRequest::new(1, "phase.get", r#"{"id": "nonexistent"}"#);
    let resp = d.dispatch(req);
    assert!(resp.is_error());
    assert_eq!(resp.error.unwrap().code, -32001);
}

#[test]
fn phase_test_phase_get_reads_from_taskstore() {
    let mut d = Daemon::with_store();
    let (_, spec_id) = create_test_spec(&mut d);
    let create_req = DaemonRequest::new(20, "phase.create", &format!(r#"{{"parent_id": "{}", "title": "TaskStore Phase", "order": 1}}"#, spec_id));
    let create_resp = d.dispatch(create_req);
    assert!(!create_resp.is_error());
    let phase_id = create_resp.result.unwrap()["id"].as_str().unwrap().to_string();
    d.forget_phases(Some(&phase_id));
    let get_req = DaemonRequest::new(21, "phase.get", &format!(r#"{{"id": "{}"}}"#, phase_id));
    let get_resp = d.dispatch(get_req);
    assert!(!get_resp.is_error());
    assert_eq!(get_resp.result.unwrap()["title"], "TaskStore Phase");
}

#[test]
fn phase_test_phase_list_empty() {
    let mut d = Daemon::new();
    let req = DaemonRequest::new(1, "phase.list", r#"null"#);
    let resp = d.dispatch(req);
    assert!(!resp.is_error());
    assert_eq!(resp.result.unwrap().as_array().unwrap().len(), 0);
}

#[test]
fn phase_test_phase_list_filtered_by_spec_id() {
    let mut d = Daemon::new();
    let (plan_id, spec_id_1) = create_test_spec(&mut d);
    d.dispatch(DaemonRequest::new(10, "spec.transition", &format!(r#"{{"id": "{}", "target_status": "active", "role": "coordinator"}}"#, spec_id_1)));
    let resp2 = d.dispatch(DaemonRequest::new(11, "spec.create", &format!(r#"{{"parent_id": "{}", "title": "Spec 2"}}"#, plan_id)));
    let spec_id_2 = resp2.result.unwrap()["id"].as_str().unwrap().to_string();
    d.dispatch(DaemonRequest::new(20, "phase.create", &format!(r#"{{"parent_id": "{}", "title": "Phase A", "order": 1}}"#, spec_id_1)));
    d.dispatch(DaemonRequest::new(21, "phase.create", &format!(r#"{{"parent_id": "{}", "title": "Phase B", "order": 1}}"#, spec_id_2)));
    let all_resp = d.dispatch(DaemonRequest::new(30, "phase.list", r#"null"#));
    assert_eq!(all_resp.result.unwrap().as_array().unwrap().len(), 2);
    let filtered_resp = d.dispatch(DaemonRequest::new(31, "phase.list", &format!(r#"{{"parent_id": "{}"}}"#, spec_id_1)));
    let phases = filtered_resp.result.unwrap();
    let arr = phases.as_array().unwrap();
    assert_eq!(arr.len(), 1);
    assert_eq!(arr[0]["title"], "Phase A");
}

#[test]
fn phase_test_phase_list_reads_from_taskstore() {
    let mut d = Daemon::with_store();
    let (plan_id, spec_id_1) = create_test_spec(&mut d);
    d.dispatch(DaemonRequest::new(10, "spec.transition", &format!(r#"{{"id": "{}", "target_status": "active", "role": "coordinator"}}"#, spec_id_1)));
    let resp2 = d.dispatch(DaemonRequest::new(11, "spec.create", &format!(r#"{{"parent_id": "{}", "title": "Spec 2"}}"#, plan_id)));
    let spec_id_2 = resp2.result.unwrap()["id"].as_str().unwrap().to_string();
    d.dispatch(DaemonRequest::new(20, "phase.create", &format!(r#"{{"parent_id": "{}", "title": "Phase A", "order": 1}}"#, spec_id_1)));
    d.dispatch(DaemonRequest::new(21, "phase.create", &format!(r#"{{"parent_id": "{}", "title": "Phase B", "order": 1}}"#, spec_id_2)));
    d.forget_phases(None);
    let all_resp = d.dispatch(DaemonRequest::new(30, "phase.list", r#"null"#));
    assert!(!all_resp.is_error());
    assert_eq!(all_resp.result.unwrap().as_array().unwrap().len(), 2);
    let filtered_req = DaemonRequest::new(31, "phase.list", &format!(r#"{{"parent_id": "{}"}}"#, spec_id_1));
    let filtered_resp = d.dispatch(filtered_req);
    assert!(!filtered_resp.is_error());
    let filtered_phases = filtered_resp.result.unwrap();
    let arr = filtered_phases.as_array().unwrap();
    assert_eq!(arr.len(), 1);
    assert_eq!(arr[0]["title"], "Phase A");
}

#[test]
fn phase_test_phase_transition_draft_to_active() {
    let mut d = Daemon::new();
    d.subscribe();
    let (_, spec_id) = create_test_spec(&mut d);
    d.next_event();
    d.next_event();
    let create_resp = d.dispatch(DaemonRequest::new(20, "phase.create", &format!(r#"{{"parent_id": "{}", "title": "Phase"}}"#, spec_id)));
    d.next_event();
    let phase_id = create_resp.result.unwrap()["id"].as_str().unwrap().to_string();
    let req = DaemonRequest::new(21, "phase.transition", &format!(r#"{{"id": "{}", "target_status": "active", "role": "coordinator"}}"#, phase_id));
    let resp = d.dispatch(req);
    assert!(!resp.is_error());
    assert_eq!(resp.result.unwrap()["status"], "active");
    let event = d.next_event().unwrap();
    assert_eq!(event.event, "transition.completed");
    assert_eq!(event.data["collection"], "phase");
    assert_eq!(event.data["from"], "draft");
    assert_eq!(event.data["to"], "active");
}

#[test]
fn phase_test_phase_transition_invalid_skip_state() {
    let mut d = Daemon::new();
    let (_, spec_id) = create_test_spec(&mut d);
    let create_resp = d.dispatch(DaemonRequest::new(20, "phase.create", &format!(r#"{{"parent_id": "{}", "title": "Phase"}}"#, spec_id)));
    let phase_id = create_resp.result.unwrap()["id"].as_str().unwrap().to_string();
    let req = DaemonRequest::new(21, "phase.transition", &format!(r#"{{"id": "{}", "target_status": "complete", "role": "coordinator"}}"#, phase_id));
    let resp = d.dispatch(req);
    assert!(resp.is_error());
    assert_eq!(resp.error.unwrap().code, -32000);
}

#[test]
fn phase_test_phase_transition_wrong_role() {
    let mut d = Daemon::new();
    let (_, spec_id) = create_test_spec(&mut d);
    let create_resp = d.dispatch(DaemonRequest::new(20, "phase.create", &format!(r#"{{"parent_id": "{}", "title": "Phase"}}"#, spec_id)));
    let phase_id = create_resp.result.unwrap()["id"].as_str().unwrap().to_string();
    let req = DaemonRequest::new(21, "phase.transition", &format!(r#"{{"id": "{}", "target_status": "active", "role": "implementer"}}"#, phase_id));
    let resp = d.dispatch(req);
    assert!(resp.is_error());
    assert_eq!(resp.error.unwrap().code, -32000);
}

#[test]
fn phase_test_phase_transition_not_found() {
    let mut d = Daemon::new();
    let req = DaemonRequest::new(1, "phase.transition", r#"{"id": "nonexistent", "target_status": "active"}"#);
    let resp = d.dispatch(req);
    assert!(resp.is_error());
    assert_eq!(resp.error.unwrap().code, -32001);
}

#[test]
fn phase_test_phase_transition_persists_to_taskstore() {
    let mut d = Daemon::with_store();
    let (_, spec_id) = create_test_spec(&mut d);
    let create_resp = d.dispatch(DaemonRequest::new(2, "phase.create", &format!(r#"{{"parent_id": "{}", "title": "Transition Phase"}}"#, spec_id)));
    assert!(!create_resp.is_error());
    let phase_id = create_resp.result.unwrap()["id"].as_str().unwrap().to_string();
    let req = DaemonRequest::new(3, "phase.transition", &format!(r#"{{"id": "{}", "target_status": "active", "role": "coordinator"}}"#, phase_id));
    let resp = d.dispatch(req);
    assert!(!resp.is_error());
    assert_eq!(resp.result.unwrap()["status"], "active");
    let retrieved: Option<Phase> = d.stored_phase(&phase_id);
    assert!(retrieved.is_some());
    let phase = retrieved.unwrap();
    assert_eq!(phase.status, HierarchyStatus::Active);
}

#[test]
fn phase_test_phase_transition_blocked_no_report_when_validator_enabled() {
    let mut d = Daemon::with_validator(Strictness::AllowAmbiguityWithFlags);
    let plan_resp = d.dispatch(DaemonRequest::new(1, "plan.create", r#"{"title": "Parent Plan"}"#));
    let plan_id = plan_resp.result.unwrap()["id"].as_str().unwrap().to_string();
    let spec_resp = d.dispatch(DaemonRequest::new(2, "spec.create", &format!(r#"{{"parent_id": "{}", "title": "Parent Spec"}}"#, plan_id)));
    let spec_id = spec_resp.result.unwrap()["id"].as_str().unwrap().to_string();
    let phase_resp = d.dispatch(DaemonRequest::new(3, "phase.create", &format!(r#"{{"parent_id": "{}", "title": "Gate Test Phase", "order": 1}}"#, spec_id)));
    let phase_id = phase_resp.result.unwrap()["id"].as_str().unwrap().to_string();
    let resp = d.dispatch(DaemonRequest::new(4, "phase.transition", &format!(r#"{{"id": "{}", "target_status": "active", "role": "coordinator"}}"#, phase_id)));
    assert!(resp.is_error());
    assert_eq!(resp.error.unwrap().code, -32003);
}

#[test]
fn phase_test_phase_transition_skip_validation_override() {
    let mut d = Daemon::with_validator(Strictness::AllowAmbiguityWithFlags);
    let plan_resp = d.dispatch(DaemonRequest::new(1, "plan.create", r#"{"title": "Parent Plan"}"#));
    let plan_id = plan_resp.result.unwrap()["id"].as_str().unwrap().to_string();
    let spec_resp = d.dispatch(DaemonRequest::new(2, "spec.create", &format!(r#"{{"parent_id": "{}", "title": "Parent Spec"}}"#, plan_id)));
    let spec_id = spec_resp.result.unwrap()["id"].as_str().unwrap().to_string();
    let phase_resp = d.dispatch(DaemonRequest::new(3, "phase.create", &format!(r#"{{"parent_id": "{}", "title": "Gate Test Phase", "order": 1}}"#, spec_id)));
    let phase_id = phase_resp.result.unwrap()["id"].as_str().unwrap().to_string();
    let resp = d.dispatch(DaemonRequest::new(4, "phase.transition", &format!(r#"{{"id": "{}", "target_status": "active", "role": "coordinator", "skip_validation": true}}"#, phase_id)));
    assert!(!resp.is_error());
    assert_eq!(resp.result.unwrap()["status"], "active");
}

#[test]
fn phase_test_handle_phase_update_success() {
    let mut d = Daemon::new();
    let (_, _, phase_id) = create_test_phase(&mut d);
    let resp = d.dispatch(DaemonRequest::new(2, "phase.update", &format!(r#"{{"id": "{}", "title": "Updated Phase", "description": "New desc", "order": 5}}"#, phase_id)));
    assert!(!resp.is_error(), "phase.update failed: {:?}", resp.error);
    let result = resp.result.unwrap();
    assert_eq!(result["title"], "Updated Phase");
    assert_eq!(result["order"], 5);
}

#[test]
fn phase_test_handle_phase_update_not_found() {
    let mut d = Daemon::new();
    let resp = d.dispatch(DaemonRequest::new(1, "phase.update", r#"{"id": "nonexistent", "title": "x"}"#));
    assert!(resp.is_error());
}

#[test]
fn phase_test_handle_phase_update_missing_id() {
    let mut d = Daemon::new();
    let resp = d.dispatch(DaemonRequest::new(1, "phase.update", r#"{"title": "x"}"#));
    assert!(resp.is_error());
}

#[test]
fn plan_test_plan_create_success() {
    let mut d = Daemon::new();
    let req = DaemonRequest::new(1, "plan.create", r#"{"title": "Test Plan", "description": "A test", "acceptance_criteria": "It works"}"#);
    let resp = d.dispatch(req);
    assert!(!resp.is_error());
    let result = resp.result.unwrap();
    assert_eq!(result["title"], "Test Plan");
    assert_eq!(result["status"], "draft");
    assert_eq!(d.stores.plans.len(), 1);
}

#[test]
fn plan_test_plan_create_missing_title() {
    let mut d = Daemon::new();
    let req = DaemonRequest::new(1, "plan.create", r#"{"description": "no title"}"#);
    let resp = d.dispatch(req);
    assert!(resp.is_error());
    assert!(resp.error.unwrap().message.contains("title"));
}

#[test]
fn plan_test_plan_create_broadcasts_event() {
    let mut d = Daemon::new();
    d.subscribe();
    let req = DaemonRequest::new(1, "plan.create", r#"{"title": "Plan"}"#);
    d.dispatch(req);
    let event = d.next_event().unwrap();
    assert_eq!(event.event, "record.created");
    assert_eq!(event.data["collection"], "plan");
}

#[test]
fn plan_test_plan_create_persists_to_taskstore() {
    let mut d = Daemon::with_store();
    let req = DaemonRequest::new(1, "plan.create", r#"{"title": "Persisted Plan", "description": "desc"}"#);
    let resp = d.dispatch(req);
    assert!(!resp.is_error());
    let plan_id = resp.result.unwrap()["id"].as_str().unwrap().to_string();
    let retrieved: Option<Plan> = d.stored_plan(&plan_id);
    assert!(retrieved.is_some());
    assert_eq!(retrieved.unwrap().title, "Persisted Plan");
}

#[test]
fn plan_test_plan_create_rejects_duplicate_draft() {
    let mut d = Daemon::new();
    let req1 = DaemonRequest::new(1, "plan.create", r#"{"title": "Plan A"}"#);
    let resp1 = d.dispatch(req1);
    assert!(!resp1.is_error());
    let req2 = DaemonRequest::new(2, "plan.create", r#"{"title": "Plan B"}"#);
    let resp2 = d.dispatch(req2);
    assert!(resp2.is_error());
    assert_eq!(resp2.error.unwrap().code, -32005);
}

#[test]
fn plan_test_plan_get_success() {
    let mut d = Daemon::new();
    let create_req = DaemonRequest::new(1, "plan.create", r#"{"title": "My Plan"}"#);
    let create_resp = d.dispatch(create_req);
    let plan_id = create_resp.result.unwrap()["id"].as_str().unwrap().to_string();
    let get_req = DaemonRequest::new(2, "plan.get", &format!(r#"{{"id": "{}"}}"#, plan_id));
    let get_resp = d.dispatch(get_req);
    assert!(!get_resp.is_error());
    assert_eq!(get_resp.result.unwrap()["title"], "My Plan");
}

#[test]
fn plan_test_plan_get_not_found() {
    let mut d = Daemon::new();
    let req = DaemonRequest::new(1, "plan.get", r#"{"id": "nonexistent"}"#);
    let resp = d.dispatch(req);
    assert!(resp.is_error());
    assert_eq!(resp.error.unwrap().code, -32001);
}

#[test]
fn plan_test_plan_get_missing_id() {
    let mut d = Daemon::new();
    let req = DaemonRequest::new(1, "plan.get", r#"{}"#);
    let resp = d.dispatch(req);
    assert!(resp.is_error());
    assert!(resp.error.unwrap().message.contains("id"));
}

#[test]
fn plan_test_plan_get_reads_from_taskstore() {
    let mut d = Daemon::with_store();
    let create_req = DaemonRequest::new(1, "plan.create", r#"{"title": "TaskStore Plan", "description": "persistent"}"#);
    let create_resp = d.dispatch(create_req);
    assert!(!create_resp.is_error());
    let plan_id = create_resp.result.unwrap()["id"].as_str().unwrap().to_string();
    d.forget_plans(Some(&plan_id));
    let get_req = DaemonRequest::new(2, "plan.get", &format!(r#"{{"id": "{}"}}"#, plan_id));
    let get_resp = d.dispatch(get_req);
    assert!(!get_resp.is_error());
    assert_eq!(get_resp.result.unwrap()["title"], "TaskStore Plan");
}

#[test]
fn plan_test_plan_list_empty() {
    let mut d = Daemon::new();
    let req = DaemonRequest::new(1, "plan.list", r#"null"#);
    let resp = d.dispatch(req);
    assert!(!resp.is_error());
    let plans = resp.result.unwrap();
    assert!(plans.is_array());
    assert_eq!(plans.as_array().unwrap().len(), 0);
}

#[test]
fn plan_test_plan_list_with_plans() {
    let mut d = Daemon::new();
    let resp1 = d.dispatch(DaemonRequest::new(1, "plan.create", r#"{"title": "Plan A"}"#));
    let plan_a_id = resp1.result.unwrap()["id"].as_str().unwrap().to_string();
    d.dispatch(DaemonRequest::new(10, "plan.transition", &format!(r#"{{"id": "{}", "target_status": "abandoned", "role": "coordinator"}}"#, plan_a_id)));
    d.dispatch(DaemonRequest::new(2, "plan.create", r#"{"title": "Plan B"}"#));
    let req = DaemonRequest::new(3, "plan.list", r#"null"#);
    let resp = d.dispatch(req);
    assert!(!resp.is_error());
    let plans = resp.result.unwrap();
    assert_eq!(plans.as_array().unwrap().len(), 2);
}

#[test]
fn plan_test_plan_list_reads_from_taskstore() {
    let mut d = Daemon::with_store();
    let resp1 = d.dispatch(DaemonRequest::new(1, "plan.create", r#"{"title": "Plan A"}"#));
    let plan_a_id = resp1.result.unwrap()["id"].as_str().unwrap().to_string();
    d.dispatch(DaemonRequest::new(10, "plan.transition", &format!(r#"{{"id": "{}", "target_status": "abandoned", "role": "coordinator"}}"#, plan_a_id)));
    d.dispatch(DaemonRequest::new(2, "plan.create", r#"{"title": "Plan B"}"#));
    d.forget_plans(None);
    let req = DaemonRequest::new(3, "plan.list", r#"null"#);
    let resp = d.dispatch(req);
    assert!(!resp.is_error());
    let plans = resp.result.unwrap();
    assert_eq!(plans.as_array().unwrap().len(), 2);
}

#[test]
fn plan_test_plan_transition_draft_to_active() {
    let mut d = Daemon::new();
    d.subscribe();
    let create_resp = d.dispatch(DaemonRequest::new(1, "plan.create", r#"{"title": "Plan"}"#));
    d.next_event();
    let plan_id = create_resp.result.unwrap()["id"].as_str().unwrap().to_string();
    let req = DaemonRequest::new(2, "plan.transition", &format!(r#"{{"id": "{}", "target_status": "active", "role": "coordinator"}}"#, plan_id));
    let resp = d.dispatch(req);
    assert!(!resp.is_error());
    assert_eq!(resp.result.unwrap()["status"], "active");
    let event = d.next_event().unwrap();
    assert_eq!(event.event, "transition.completed");
    assert_eq!(event.data["from"], "draft");
    assert_eq!(event.data["to"], "active");
}

#[test]
fn plan_test_plan_transition_invalid_skip_state() {
    let mut d = Daemon::new();
    let create_resp = d.dispatch(DaemonRequest::new(1, "plan.create", r#"{"title": "Plan"}"#));
    let plan_id = create_resp.result.unwrap()["id"].as_str().unwrap().to_string();
    let req = DaemonRequest::new(2, "plan.transition", &format!(r#"{{"id": "{}", "target_status": "complete", "role": "coordinator"}}"#, plan_id));
    let resp = d.dispatch(req);
    assert!(resp.is_error());
    assert_eq!(resp.error.unwrap().code, -32000);
}

#[test]
fn plan_test_plan_transition_wrong_role() {
    let mut d = Daemon::new();
    let create_resp = d.dispatch(DaemonRequest::new(1, "plan.create", r#"{"title": "Plan"}"#));
    let plan_id = create_resp.result.unwrap()["id"].as_str().unwrap().to_string();
    let req = DaemonRequest::new(2, "plan.transition", &format!(r#"{{"id": "{}", "target_status": "active", "role": "implementer"}}"#, plan_id));
    let resp = d.dispatch(req);
    assert!(resp.is_error());
    assert_eq!(resp.error.unwrap().code, -32000);
}

#[test]
fn plan_test_plan_transition_not_found() {
    let mut d = Daemon::new();
    let req = DaemonRequest::new(1, "plan.transition", r#"{"id": "nonexistent", "target_status": "active"}"#);
    let resp = d.dispatch(req);
    assert!(resp.is_error());
    assert_eq!(resp.error.unwrap().code, -32001);
}

#[test]
fn plan_test_plan_transition_missing_params() {
    let mut d = Daemon::new();
    let req = DaemonRequest::new(1, "plan.transition", r#"{"target_status": "active"}"#);
    let resp = d.dispatch(req);
    assert!(resp.is_error());
    let req = DaemonRequest::new(2, "plan.transition", r#"{"id": "x"}"#);
    let resp = d.dispatch(req);
    assert!(resp.is_error());
}

#[test]
fn plan_test_plan_transition_default_role_coordinator() {
    let mut d = Daemon::new();
    let create_resp = d.dispatch(DaemonRequest::new(1, "plan.create", r#"{"title": "Plan"}"#));
    let plan_id = create_resp.result.unwrap()["id"].as_str().unwrap().to_string();
    let req = DaemonRequest::new(2, "plan.transition", &format!(r#"{{"id": "{}", "target_status": "active"}}"#, plan_id));
    let resp = d.dispatch(req);
    assert!(!resp.is_error());
    assert_eq!(resp.result.unwrap()["status"], "active");
}

#[test]
fn plan_test_plan_transition_persists_to_taskstore() {
    let mut d = Daemon::with_store();
    let create_resp = d.dispatch(DaemonRequest::new(1, "plan.create", r#"{"title": "Transition Plan"}"#));
    assert!(!create_resp.is_error());
    let plan_id = create_resp.result.unwrap()["id"].as_str().unwrap().to_string();
    let req = DaemonRequest::new(2, "plan.transition", &format!(r#"{{"id": "{}", "target_status": "active", "role": "coordinator"}}"#, plan_id));
    let resp = d.dispatch(req);
    assert!(!resp.is_error());
    assert_eq!(resp.result.unwrap()["status"], "active");
    let retrieved: Option<Plan> = d.stored_plan(&plan_id);
    assert!(retrieved.is_some());
    let plan = retrieved.unwrap();
    assert_eq!(plan.status, HierarchyStatus::Active);
}

#[test]
fn plan_test_plan_transition_blocked_no_report_when_validator_enabled() {
    let mut d = Daemon::with_validator(Strictness::AllowAmbiguityWithFlags);
    let create_resp = d.dispatch(DaemonRequest::new(1, "plan.create", r#"{"title": "Gate Test Plan"}"#));
    let plan_id = create_resp.result.unwrap()["id"].as_str().unwrap().to_string();
    let resp = d.dispatch(DaemonRequest::new(2, "plan.transition", &format!(r#"{{"id": "{}", "target_status": "active", "role": "coordinator"}}"#, plan_id)));
    assert!(resp.is_error());
    assert_eq!(resp.error.as_ref().unwrap().code, -32003);
    assert!(resp.error.unwrap().message.contains("validator.validate"));
}

#[test]
fn plan_test_plan_transition_allowed_with_pass_report() {
    let mut d = Daemon::with_validator(Strictness::AllowAmbiguityWithFlags);
    let create_resp = d.dispatch(DaemonRequest::new(1, "plan.create", r#"{"title": "Gate Test Plan"}"#));
    let plan_id = create_resp.result.unwrap()["id"].as_str().unwrap().to_string();
    d.report("plans", &plan_id, Finding::Pass);
    let resp = d.dispatch(DaemonRequest::new(2, "plan.transition", &format!(r#"{{"id": "{}", "target_status": "active", "role": "coordinator"}}"#, plan_id)));
    assert!(!resp.is_error());
    assert_eq!(resp.result.unwrap()["status"], "active");
}

#[test]
fn plan_test_plan_transition_allowed_with_warn_report() {
    let mut d = Daemon::with_validator(Strictness::AllowAmbiguityWithFlags);
    let create_resp = d.dispatch(DaemonRequest::new(1, "plan.create", r#"{"title": "Gate Test Plan"}"#));
    let plan_id = create_resp.result.unwrap()["id"].as_str().unwrap().to_string();
    d.report("plans", &plan_id, Finding::Warn);
    let resp = d.dispatch(DaemonRequest::new(2, "plan.transition", &format!(r#"{{"id": "{}", "target_status": "active", "role": "coordinator"}}"#, plan_id)));
    assert!(!resp.is_error());
    assert_eq!(resp.result.unwrap()["status"], "active");
}

#[test]
fn plan_test_plan_transition_blocked_with_fail_report() {
    let mut d = Daemon::with_validator(Strictness::AllowAmbiguityWithFlags);
    let create_resp = d.dispatch(DaemonRequest::new(1, "plan.create", r#"{"title": "Gate Test Plan"}"#));
    let plan_id = create_resp.result.unwrap()["id"].as_str().unwrap().to_string();
    d.report("plans", &plan_id, Finding::Fail);
    let resp = d.dispatch(DaemonRequest::new(2, "plan.transition", &format!(r#"{{"id": "{}", "target_status": "active", "role": "coordinator"}}"#, plan_id)));
    assert!(resp.is_error());
    assert_eq!(resp.error.unwrap().code, -32003);
}

#[test]
fn plan_test_plan_transition_skip_validation_override() {
    let mut d = Daemon::with_validator(Strictness::AllowAmbiguityWithFlags);
    let create_resp = d.dispatch(DaemonRequest::new(1, "plan.create", r#"{"title": "Gate Test Plan"}"#));
    let plan_id = create_resp.result.unwrap()["id"].as_str().unwrap().to_string();
    let resp = d.dispatch(DaemonRequest::new(2, "plan.transition", &format!(r#"{{"id": "{}", "target_status": "active", "role": "coordinator", "skip_validation": true}}"#, plan_id)));
    assert!(!resp.is_error());
    assert_eq!(resp.result.unwrap()["status"], "active");
}

#[test]
fn plan_test_plan_transition_no_gate_when_validator_disabled() {
    let mut d = Daemon::with_store();
    let create_resp = d.dispatch(DaemonRequest::new(1, "plan.create", r#"{"title": "No Gate Plan"}"#));
    let plan_id = create_resp.result.unwrap()["id"].as_str().unwrap().to_string();
    let resp = d.dispatch(DaemonRequest::new(2, "plan.transition", &format!(r#"{{"id": "{}", "target_status": "active", "role": "coordinator"}}"#, plan_id)));
    assert!(!resp.is_error());
    assert_eq!(resp.result.unwrap()["status"], "active");
}

#[test]
fn plan_test_handle_plan_update_success() {
    let mut d = Daemon::new();
    let create_resp = d.dispatch(DaemonRequest::new(1, "plan.create", r#"{"title": "Parent Plan"}"#));
    let plan_id = create_resp.result.unwrap()["id"].as_str().unwrap().to_string();
    let resp = d.dispatch(DaemonRequest::new(2, "plan.update", &format!(r#"{{"id": "{}", "title": "Updated Plan", "description": "New desc", "acceptance_criteria": "New criteria"}}"#, plan_id)));
    assert!(!resp.is_error(), "plan.update failed: {:?}", resp.error);
    let result = resp.result.unwrap();
    assert_eq!(result["title"], "Updated Plan");
    assert_eq!(result["description"], "New desc");
    assert_eq!(result["acceptance_criteria"], "New criteria");
}

#[test]
fn plan_test_handle_plan_update_not_found() {
    let mut d = Daemon::new();
    let resp = d.dispatch(DaemonRequest::new(1, "plan.update", r#"{"id": "nonexistent", "title": "x"}"#));
    assert!(resp.is_error());
}

#[test]
fn plan_test_handle_plan_update_missing_id() {
    let mut d = Daemon::new();
    let resp = d.dispatch(DaemonRequest::new(1, "plan.update", r#"{"title": "x"}"#));
    assert!(resp.is_error());
}

#[test]
fn spec_test_spec_create_success() {
    let mut d = Daemon::new();
    let plan_id = create_test_plan(&mut d);
    let req = DaemonRequest::new(2, "spec.create", &format!(r#"{{"parent_id": "{}", "title": "Test Spec"}}"#, plan_id));
    let resp = d.dispatch(req);
    assert!(!resp.is_error());
    let result = resp.result.unwrap();
    assert_eq!(result["title"], "Test Spec");
    assert_eq!(result["parent_id"], plan_id);
    assert_eq!(result["status"], "draft");
    assert_eq!(d.stores.specs.len(), 1);
}

#[test]
fn spec_test_spec_create_missing_plan_id() {
    let mut d = Daemon::new();
    let req = DaemonRequest::new(1, "spec.create", r#"{"title": "Spec"}"#);
    let resp = d.dispatch(req);
    assert!(resp.is_error());
    assert!(resp.error.unwrap().message.contains("parent_id"));
}

#[test]
fn spec_test_spec_create_plan_not_found() {
    let mut d = Daemon::new();
    let req = DaemonRequest::new(1, "spec.create", r#"{"parent_id": "nonexistent", "title": "Spec"}"#);
    let resp = d.dispatch(req);
    assert!(resp.is_error());
    assert_eq!(resp.error.unwrap().code, -32001);
}

#[test]
fn spec_test_spec_create_missing_title() {
    let mut d = Daemon::new();
    let plan_id = create_test_plan(&mut d);
    let req = DaemonRequest::new(2, "spec.create", &format!(r#"{{"parent_id": "{}"}}"#, plan_id));
    let resp = d.dispatch(req);
    assert!(resp.is_error());
    assert!(resp.error.unwrap().message.contains("title"));
}

#[test]
fn spec_test_spec_create_broadcasts_event() {
    let mut d = Daemon::new();
    d.subscribe();
    let plan_id = create_test_plan(&mut d);
    d.next_event();
    let req = DaemonRequest::new(2, "spec.create", &format!(r#"{{"parent_id": "{}", "title": "Spec"}}"#, plan_id));
    d.dispatch(req);
    let event = d.next_event().unwrap();
    assert_eq!(event.event, "record.created");
    assert_eq!(event.data["collection"], "spec");
}

#[test]
fn spec_test_spec_create_persists_to_taskstore() {
    let mut d = Daemon::with_store();
    let plan_id = create_test_plan(&mut d);
    let req = DaemonRequest::new(2, "spec.create", &format!(r#"{{"parent_id": "{}", "title": "Persisted Spec"}}"#, plan_id));
    let resp = d.dispatch(req);
    assert!(!resp.is_error());
    let spec_id = resp.result.unwrap()["id"].as_str().unwrap().to_string();
    let retrieved: Option<Spec> = d.stored_spec(&spec_id);
    assert!(retrieved.is_some());
    assert_eq!(retrieved.unwrap().title, "Persisted Spec");
}

#[test]
fn spec_test_spec_create_rejects_complete_plan() {
    let mut d = Daemon::new();
    let plan_id = create_test_plan(&mut d);
    d.dispatch(DaemonRequest::new(1, "plan.transition", &format!(r#"{{"id": "{}", "target_status": "active", "role": "coordinator"}}"#, plan_id)));
    d.dispatch(DaemonRequest::new(1, "plan.transition", &format!(r#"{{"id": "{}", "target_status": "complete", "role": "coordinator"}}"#, plan_id)));
    let req = DaemonRequest::new(2, "spec.create", &format!(r#"{{"parent_id": "{}", "title": "Spec Under Complete"}}"#, plan_id));
    let resp = d.dispatch(req);
    assert!(resp.is_error());
    assert!(resp.error.unwrap().message.contains("complete plan"));
}

#[test]
fn spec_test_spec_create_rejects_abandoned_plan() {
    let mut d = Daemon::new();
    let plan_id = create_test_plan(&mut d);
    d.dispatch(DaemonRequest::new(1, "plan.transition", &format!(r#"{{"id": "{}", "target_status": "abandoned", "role": "coordinator"}}"#, plan_id)));
    let req = DaemonRequest::new(2, "spec.create", &format!(r#"{{"parent_id": "{}", "title": "Spec Under Abandoned"}}"#, plan_id));
    let resp = d.dispatch(req);
    assert!(resp.is_error());
    assert!(resp.error.unwrap().message.contains("abandoned plan"));
}

#[test]
fn spec_test_spec_create_rejects_duplicate_draft() {
    let mut d = Daemon::new();
    let plan_id = create_test_plan(&mut d);
    let req1 = DaemonRequest::new(1, "spec.create", &format!(r#"{{"parent_id": "{}", "title": "Spec A"}}"#, plan_id));
    let resp1 = d.dispatch(req1);
    assert!(!resp1.is_error());
    let req2 = DaemonRequest::new(2, "spec.create", &format!(r#"{{"parent_id": "{}", "title": "Spec B"}}"#, plan_id));
    let resp2 = d.dispatch(req2);
    assert!(resp2.is_error());
    assert_eq!(resp2.error.unwrap().code, -32005);
}

#[test]
fn spec_test_spec_get_success() {
    let mut d = Daemon::new();
    let plan_id = create_test_plan(&mut d);
    let create_resp = d.dispatch(DaemonRequest::new(2, "spec.create", &format!(r#"{{"parent_id": "{}", "title": "My Spec"}}"#, plan_id)));
    let spec_id = create_resp.result.unwrap()["id"].as_str().unwrap().to_string();
    let get_resp = d.dispatch(DaemonRequest::new(3, "spec.get", &format!(r#"{{"id": "{}"}}"#, spec_id)));
    assert!(!get_resp.is_error());
    assert_eq!(get_resp.result.unwrap()["title"], "My Spec");
}

#[test]
fn spec_test_spec_get_not_found() {
    let mut d = Daemon::new();
    let req = DaemonRequest::new(1, "spec.get", r#"{"id": "nonexistent"}"#);
    let resp = d.dispatch(req);
    assert!(resp.is_error());
    assert_eq!(resp.error.unwrap().code, -32001);
}

#[test]
fn spec_test_spec_get_reads_from_taskstore() {
    let mut d = Daemon::with_store();
    let plan_id = create_test_plan(&mut d);
    let create_req = DaemonRequest::new(2, "spec.create", &format!(r#"{{"parent_id": "{}", "title": "TaskStore Spec"}}"#, plan_id));
    let create_resp = d.dispatch(create_req);
    assert!(!create_resp.is_error());
    let spec_id = create_resp.result.unwrap()["id"].as_str().unwrap().to_string();
    d.forget_specs(Some(&spec_id));
    let get_req = DaemonRequest::new(3, "spec.get", &format!(r#"{{"id": "{}"}}"#, spec_id));
    let get_resp = d.dispatch(get_req);
    assert!(!get_resp.is_error());
    assert_eq!(get_resp.result.unwrap()["title"], "TaskStore Spec");
}

#[test]
fn spec_test_spec_list_empty() {
    let mut d = Daemon::new();
    let req = DaemonRequest::new(1, "spec.list", r#"null"#);
    let resp = d.dispatch(req);
    assert!(!resp.is_error());
    assert_eq!(resp.result.unwrap().as_array().unwrap().len(), 0);
}

#[test]
fn spec_test_spec_list_filtered_by_plan_id() {
    let mut d = Daemon::new();
    let plan_id_1 = create_test_plan(&mut d);
    d.dispatch(DaemonRequest::new(9, "plan.transition", &format!(r#"{{"id": "{}", "target_status": "active", "role": "coordinator"}}"#, plan_id_1)));
    let resp2 = d.dispatch(DaemonRequest::new(10, "plan.create", r#"{"title": "Plan 2"}"#));
    let plan_id_2 = resp2.result.unwrap()["id"].as_str().unwrap().to_string();
    d.dispatch(DaemonRequest::new(2, "spec.create", &format!(r#"{{"parent_id": "{}", "title": "Spec A"}}"#, plan_id_1)));
    d.dispatch(DaemonRequest::new(3, "spec.create", &format!(r#"{{"parent_id": "{}", "title": "Spec B"}}"#, plan_id_2)));
    let all_resp = d.dispatch(DaemonRequest::new(4, "spec.list", r#"null"#));
    assert_eq!(all_resp.result.unwrap().as_array().unwrap().len(), 2);
    let filtered_resp = d.dispatch(DaemonRequest::new(5, "spec.list", &format!(r#"{{"parent_id": "{}"}}"#, plan_id_1)));
    let specs = filtered_resp.result.unwrap();
    let arr = specs.as_array().unwrap();
    assert_eq!(arr.len(), 1);
    assert_eq!(arr[0]["title"], "Spec A");
}

#[test]
fn spec_test_spec_list_reads_from_taskstore() {
    let mut d = Daemon::with_store();
    let plan_resp = d.dispatch(DaemonRequest::new(1, "plan.create", r#"{"title": "Plan X"}"#));
    let plan_id = plan_resp.result.unwrap()["id"].as_str().unwrap().to_string();
    let spec_a_resp = d.dispatch(DaemonRequest::new(2, "spec.create", &format!(r#"{{"parent_id": "{}", "title": "Spec A"}}"#, plan_id)));
    let spec_a_id = spec_a_resp.result.unwrap()["id"].as_str().unwrap().to_string();
    d.dispatch(DaemonRequest::new(20, "spec.transition", &format!(r#"{{"id": "{}", "target_status": "abandoned", "role": "coordinator"}}"#, spec_a_id)));
    d.dispatch(DaemonRequest::new(3, "spec.create", &format!(r#"{{"parent_id": "{}", "title": "Spec B"}}"#, plan_id)));
    d.forget_specs(None);
    let req = DaemonRequest::new(4, "spec.list", r#"null"#);
    let resp = d.dispatch(req);
    assert!(!resp.is_error());
    let specs = resp.result.unwrap();
    assert_eq!(specs.as_array().unwrap().len(), 2);
    let filtered_req = DaemonRequest::new(5, "spec.list", &format!(r#"{{"parent_id": "{}"}}"#, plan_id));
    let filtered_resp = d.dispatch(filtered_req);
    assert!(!filtered_resp.is_error());
    let filtered_specs = filtered_resp.result.unwrap();
    assert_eq!(filtered_specs.as_array().unwrap().len(), 2);
}

#[test]
fn spec_test_spec_transition_draft_to_active() {
    let mut d = Daemon::new();
    d.subscribe();
    let plan_id = create_test_plan(&mut d);
    d.next_event();
    let create_resp = d.dispatch(DaemonRequest::new(2, "spec.create", &format!(r#"{{"parent_id": "{}", "title": "Spec"}}"#, plan_id)));
    d.next_event();
    let spec_id = create_resp.result.unwrap()["id"].as_str().unwrap().to_string();
    let req = DaemonRequest::new(3, "spec.transition", &format!(r#"{{"id": "{}", "target_status": "active", "role": "coordinator"}}"#, spec_id));
    let resp = d.dispatch(req);
    assert!(!resp.is_error());
    assert_eq!(resp.result.unwrap()["status"], "active");
    let event = d.next_event().unwrap();
    assert_eq!(event.event, "transition.completed");
    assert_eq!(event.data["collection"], "spec");
    assert_eq!(event.data["from"], "draft");
    assert_eq!(event.data["to"], "active");
}

#[test]
fn spec_test_spec_transition_invalid_skip_state() {
    let mut d = Daemon::new();
    let plan_id = create_test_plan(&mut d);
    let create_resp = d.dispatch(DaemonRequest::new(2, "spec.create", &format!(r#"{{"parent_id": "{}", "title": "Spec"}}"#, plan_id)));
    let spec_id = create_resp.result.unwrap()["id"].as_str().unwrap().to_string();
    let req = DaemonRequest::new(3, "spec.transition", &format!(r#"{{"id": "{}", "target_status": "complete", "role": "coordinator"}}"#, spec_id));
    let resp = d.dispatch(req);
    assert!(resp.is_error());
    assert_eq!(resp.error.unwrap().code, -32000);
}

#[test]
fn spec_test_spec_transition_wrong_role() {
    let mut d = Daemon::new();
    let plan_id = create_test_plan(&mut d);
    let create_resp = d.dispatch(DaemonRequest::new(2, "spec.create", &format!(r#"{{"parent_id": "{}", "title": "Spec"}}"#, plan_id)));
    let spec_id = create_resp.result.unwrap()["id"].as_str().unwrap().to_string();
    let req = DaemonRequest::new(3, "spec.transition", &format!(r#"{{"id": "{}", "target_status": "active", "role": "implementer"}}"#, spec_id));
    let resp = d.dispatch(req);
    assert!(resp.is_error());
    assert_eq!(resp.error.unwrap().code, -32000);
}

#[test]
fn spec_test_spec_transition_not_found() {
    let mut d = Daemon::new();
    let req = DaemonRequest::new(1, "spec.transition", r#"{"id": "nonexistent", "target_status": "active"}"#);
    let resp = d.dispatch(req);
    assert!(resp.is_error());
    assert_eq!(resp.error.unwrap().code, -32001);
}

#[test]
fn spec_test_spec_transition_persists_to_taskstore() {
    let mut d = Daemon::with_store();
    let plan_id = create_test_plan(&mut d);
    let create_resp = d.dispatch(DaemonRequest::new(2, "spec.create", &format!(r#"{{"parent_id": "{}", "title": "Transition Spec"}}"#, plan_id)));
    assert!(!create_resp.is_error());
    let spec_id = create_resp.result.unwrap()["id"].as_str().unwrap().to_string();
    let req = DaemonRequest::new(3, "spec.transition", &format!(r#"{{"id": "{}", "target_status": "active", "role": "coordinator"}}"#, spec_id));
    let resp = d.dispatch(req);
    assert!(!resp.is_error());
    assert_eq!(resp.result.unwrap()["status"], "active");
    let retrieved: Option<Spec> = d.stored_spec(&spec_id);
    assert!(retrieved.is_some());
    let spec = retrieved.unwrap();
    assert_eq!(spec.status, HierarchyStatus::Active);
}

#[test]
fn spec_test_spec_transition_blocked_no_report_when_validator_enabled() {
    let mut d = Daemon::with_validator(Strictness::AllowAmbiguityWithFlags);
    let plan_resp = d.dispatch(DaemonRequest::new(1, "plan.create", r#"{"title": "Parent Plan"}"#));
    let plan_id = plan_resp.result.unwrap()["id"].as_str().unwrap().to_string();
    let spec_resp = d.dispatch(DaemonRequest::new(2, "spec.create", &format!(r#"{{"parent_id": "{}", "title": "Gate Test Spec"}}"#, plan_id)));
    let spec_id = spec_resp.result.unwrap()["id"].as_str().unwrap().to_string();
    let resp = d.dispatch(DaemonRequest::new(3, "spec.transition", &format!(r#"{{"id": "{}", "target_status": "active", "role": "coordinator"}}"#, spec_id)));
    assert!(resp.is_error());
    assert_eq!(resp.error.unwrap().code, -32003);
}

#[test]
fn spec_test_spec_transition_allowed_with_pass_report() {
    let mut d = Daemon::with_validator(Strictness::AllowAmbiguityWithFlags);
    let plan_resp = d.dispatch(DaemonRequest::new(1, "plan.create", r#"{"title": "Parent Plan"}"#));
    let plan_id = plan_resp.result.unwrap()["id"].as_str().unwrap().to_string();
    let spec_resp = d.dispatch(DaemonRequest::new(2, "spec.create", &format!(r#"{{"parent_id": "{}", "title": "Gate Test Spec"}}"#, plan_id)));
    let spec_id = spec_resp.result.unwrap()["id"].as_str().unwrap().to_string();
    d.report("specs", &spec_id, Finding::Pass);
    let resp = d.dispatch(DaemonRequest::new(3, "spec.transition", &format!(r#"{{"id": "{}", "target_status": "active", "role": "coordinator"}}"#, spec_id)));
    assert!(!resp.is_error());
    assert_eq!(resp.result.unwrap()["status"], "active");
}

#[test]
fn spec_test_handle_spec_update_success() {
    let mut d = Daemon::new();
    let (_, spec_id) = create_test_spec(&mut d);
    let resp = d.dispatch(DaemonRequest::new(2, "spec.update", &format!(r#"{{"id": "{}", "title": "Updated Spec"}}"#, spec_id)));
    assert!(!resp.is_error(), "spec.update failed: {:?}", resp.error);
    let result = resp.result.unwrap();
    assert_eq!(result["title"], "Updated Spec");
}

#[test]
fn spec_test_handle_spec_update_not_found() {
    let mut d = Daemon::new();
    let resp = d.dispatch(DaemonRequest::new(1, "spec.update", r#"{"id": "nonexistent", "title": "x"}"#));
    assert!(resp.is_error());
}

#[test]
fn spec_test_handle_spec_update_missing_id() {
    let mut d = Daemon::new();
    let resp = d.dispatch(DaemonRequest::new(1, "spec.update", r#"{"title": "x"}"#));
    assert!(resp.is_error());
}

#[test]
fn tick_test_tick_create_persists_to_taskstore() {
    let mut d = Daemon::with_store();
    let req = DaemonRequest::new(50, "tick.create", r#"{"number": 7}"#);
    let resp = d.dispatch(req);
    assert!(!resp.is_error());
    let tick_id = resp.result.unwrap()["id"].as_str().unwrap().to_string();
    let retrieved: Option<Tick> = d.stored_tick(&tick_id);
    assert!(retrieved.is_some());
    assert_eq!(retrieved.unwrap().number, 7);
}

#[test]
fn tick_test_tick_create_success() {
    let mut d = Daemon::new();
    let req = DaemonRequest::new(50, "tick.create", r#"{"number": 1}"#);
    let resp = d.dispatch(req);
    assert!(!resp.is_error());
    let result = resp.result.unwrap();
    assert_eq!(result["number"], 1);
    assert_eq!(result["status"], "Open");
    assert!(result["integration_sha"].is_null());
    assert_eq!(result["bundle_ids"].as_array().unwrap().len(), 0);
    assert_eq!(d.stores.ticks.len(), 1);
}

#[test]
fn tick_test_tick_create_missing_number() {
    let mut d = Daemon::new();
    let req = DaemonRequest::new(1, "tick.create", r#"{}"#);
    let resp = d.dispatch(req);
    assert!(resp.is_error());
    assert!(resp.error.unwrap().message.contains("number"));
}

#[test]
fn tick_test_tick_create_broadcasts_event() {
    let mut d = Daemon::new();
    d.subscribe();
    let req = DaemonRequest::new(50, "tick.create", r#"{"number": 1}"#);
    d.dispatch(req);
    let event = d.next_event().unwrap();
    assert_eq!(event.event, "record.created");
    assert_eq!(event.data["collection"], "tick");
}

#[test]
fn tick_test_tick_create_singleton_guard_blocks_second() {
    let mut d = Daemon::new();
    let resp1 = d.dispatch(DaemonRequest::new(50, "tick.create", r#"{"number": 1}"#));
    assert!(!resp1.is_error());
    let resp2 = d.dispatch(DaemonRequest::new(51, "tick.create", r#"{"number": 2}"#));
    assert!(resp2.is_error());
    assert!(
        resp2
            .error
            .unwrap()
            .message
            .contains("non-terminal Tick already exists")
    );
}

#[test]
fn tick_test_tick_create_singleton_guard_allows_after_terminal() {
    let mut d = Daemon::new();
    let c1 = d.dispatch(DaemonRequest::new(50, "tick.create", r#"{"number": 1}"#));
    let t1_id = c1.result.unwrap()["id"].as_str().unwrap().to_string();
    d.dispatch(DaemonRequest::new(51, "tick.transition", &format!(r#"{{"id": "{}", "target_status": "Sealing", "role": "integrator"}}"#, t1_id)));
    d.dispatch(DaemonRequest::new(52, "tick.transition", &format!(r#"{{"id": "{}", "target_status": "Validating", "role": "integrator"}}"#, t1_id)));
    d.dispatch(DaemonRequest::new(53, "tick.transition", &format!(r#"{{"id": "{}", "target_status": "Published", "role": "integrator"}}"#, t1_id)));
    let resp2 = d.dispatch(DaemonRequest::new(54, "tick.create", r#"{"number": 2}"#));
    assert!(!resp2.is_error());
}

#[test]
fn tick_test_tick_get_success() {
    let mut d = Daemon::new();
    let create_resp = d.dispatch(DaemonRequest::new(50, "tick.create", r#"{"number": 42}"#));
    let tick_id = create_resp.result.unwrap()["id"].as_str().unwrap().to_string();
    let get_resp = d.dispatch(DaemonRequest::new(51, "tick.get", &format!(r#"{{"id": "{}"}}"#, tick_id)));
    assert!(!get_resp.is_error());
    assert_eq!(get_resp.result.unwrap()["number"], 42);
}

#[test]
fn tick_test_tick_get_not_found() {
    let mut d = Daemon::new();
    let req = DaemonRequest::new(1, "tick.get", r#"{"id": "nonexistent"}"#);
    let resp = d.dispatch(req);
    assert!(resp.is_error());
    assert_eq!(resp.error.unwrap().code, -32001);
}

#[test]
fn tick_test_tick_get_reads_from_taskstore() {
    let mut d = Daemon::with_store();
    let create_resp = d.dispatch(DaemonRequest::new(50, "tick.create", r#"{"number": 99}"#));
    assert!(!create_resp.is_error());
    let tick_id = create_resp.result.unwrap()["id"].as_str().unwrap().to_string();
    d.forget_ticks(Some(&tick_id));
    let get_req = DaemonRequest::new(51, "tick.get", &format!(r#"{{"id": "{}"}}"#, tick_id));
    let get_resp = d.dispatch(get_req);
    assert!(!get_resp.is_error());
    assert_eq!(get_resp.result.unwrap()["number"], 99);
}

#[test]
fn tick_test_tick_list_empty() {
    let mut d = Daemon::new();
    let req = DaemonRequest::new(1, "tick.list", r#"null"#);
    let resp = d.dispatch(req);
    assert!(!resp.is_error());
    assert_eq!(resp.result.unwrap().as_array().unwrap().len(), 0);
}

#[test]
fn tick_test_tick_list_filtered_by_status() {
    let mut d = Daemon::new();
    let create1 = d.dispatch(DaemonRequest::new(50, "tick.create", r#"{"number": 1}"#));
    let tick1_id = create1.result.unwrap()["id"].as_str().unwrap().to_string();
    d.dispatch(DaemonRequest::new(52, "tick.transition", &format!(r#"{{"id": "{}", "target_status": "Sealing", "role": "integrator"}}"#, tick1_id)));
    d.dispatch(DaemonRequest::new(53, "tick.transition", &format!(r#"{{"id": "{}", "target_status": "Validating", "role": "integrator"}}"#, tick1_id)));
    d.dispatch(DaemonRequest::new(54, "tick.transition", &format!(r#"{{"id": "{}", "target_status": "Published", "role": "integrator"}}"#, tick1_id)));
    let create2 = d.dispatch(DaemonRequest::new(55, "tick.create", r#"{"number": 2}"#));
    let tick2_id = create2.result.unwrap()["id"].as_str().unwrap().to_string();
    d.dispatch(DaemonRequest::new(56, "tick.transition", &format!(r#"{{"id": "{}", "target_status": "Sealing", "role": "integrator"}}"#, tick2_id)));
    let all_resp = d.dispatch(DaemonRequest::new(60, "tick.list", r#"null"#));
    assert_eq!(all_resp.result.unwrap().as_array().unwrap().len(), 2);
    let filtered_resp = d.dispatch(DaemonRequest::new(61, "tick.list", r#"{"status": "Published"}"#));
    let ticks = filtered_resp.result.unwrap();
    let arr = ticks.as_array().unwrap();
    assert_eq!(arr.len(), 1);
    assert_eq!(arr[0]["number"], 1);
}

#[test]
fn tick_test_tick_list_reads_from_taskstore() {
    let mut d = Daemon::with_store();
    let c1 = d.dispatch(DaemonRequest::new(50, "tick.create", r#"{"number": 1}"#));
    let t1_id = c1.result.unwrap()["id"].as_str().unwrap().to_string();
    d.dispatch(DaemonRequest::new(52, "tick.transition", &format!(r#"{{"id": "{}", "target_status": "Sealing", "role": "integrator"}}"#, t1_id)));
    d.dispatch(DaemonRequest::new(53, "tick.transition", &format!(r#"{{"id": "{}", "target_status": "Validating", "role": "integrator"}}"#, t1_id)));
    d.dispatch(DaemonRequest::new(54, "tick.transition", &format!(r#"{{"id": "{}", "target_status": "Published", "role": "integrator"}}"#, t1_id)));
    d.dispatch(DaemonRequest::new(55, "tick.create", r#"{"number": 2}"#));
    d.forget_ticks(None);
    let all_resp = d.dispatch(DaemonRequest::new(60, "tick.list", r#"null"#));
    assert!(!all_resp.is_error());
    assert_eq!(all_resp.result.unwrap().as_array().unwrap().len(), 2);
    let filtered_req = DaemonRequest::new(61, "tick.list", r#"{"status": "Open"}"#);
    let filtered_resp = d.dispatch(filtered_req);
    assert!(!filtered_resp.is_error());
    let filtered_items = filtered_resp.result.unwrap();
    let arr = filtered_items.as_array().unwrap();
    assert_eq!(arr.len(), 1);
}

#[test]
fn tick_test_tick_transition_open_to_sealing() {
    let mut d = Daemon::new();
    d.subscribe();
    let create_resp = d.dispatch(DaemonRequest::new(50, "tick.create", r#"{"number": 1}"#));
    d.next_event();
    let tick_id = create_resp.result.unwrap()["id"].as_str().unwrap().to_string();
    let req = DaemonRequest::new(51, "tick.transition", &format!(r#"{{"id": "{}", "target_status": "Sealing", "role": "integrator"}}"#, tick_id));
    let resp = d.dispatch(req);
    assert!(!resp.is_error());
    assert_eq!(resp.result.unwrap()["status"], "Sealing");
    let event = d.next_event().unwrap();
    assert_eq!(event.event, "transition.completed");
    assert_eq!(event.data["collection"], "tick");
    assert_eq!(event.data["from"], "Open");
    assert_eq!(event.data["to"], "Sealing");
}

#[test]
fn tick_test_tick_transition_invalid_skip_state() {
    let mut d = Daemon::new();
    let create_resp = d.dispatch(DaemonRequest::new(50, "tick.create", r#"{"number": 1}"#));
    let tick_id = create_resp.result.unwrap()["id"].as_str().unwrap().to_string();
    let req = DaemonRequest::new(51, "tick.transition", &format!(r#"{{"id": "{}", "target_status": "Published", "role": "integrator"}}"#, tick_id));
    let resp = d.dispatch(req);
    assert!(resp.is_error());
    assert_eq!(resp.error.unwrap().code, -32000);
}

#[test]
fn tick_test_tick_transition_wrong_role() {
    let mut d = Daemon::new();
    let create_resp = d.dispatch(DaemonRequest::new(50, "tick.create", r#"{"number": 1}"#));
    let tick_id = create_resp.result.unwrap()["id"].as_str().unwrap().to_string();
    let req = DaemonRequest::new(51, "tick.transition", &format!(r#"{{"id": "{}", "target_status": "Sealing", "role": "coordinator"}}"#, tick_id));
    let resp = d.dispatch(req);
    assert!(resp.is_error());
    assert_eq!(resp.error.unwrap().code, -32000);
}

#[test]
fn tick_test_tick_transition_not_found() {
    let mut d = Daemon::new();
    let req = DaemonRequest::new(1, "tick.transition", r#"{"id": "nonexistent", "target_status": "Sealing"}"#);
    let resp = d.dispatch(req);
    assert!(resp.is_error());
    assert_eq!(resp.error.unwrap().code, -32001);
}

#[test]
fn tick_test_tick_transition_default_role_is_integrator() {
    let mut d = Daemon::new();
    let create_resp = d.dispatch(DaemonRequest::new(50, "tick.create", r#"{"number": 1}"#));
    let tick_id = create_resp.result.unwrap()["id"].as_str().unwrap().to_string();
    let req = DaemonRequest::new(51, "tick.transition", &format!(r#"{{"id": "{}", "target_status": "Sealing"}}"#, tick_id));
    let resp = d.dispatch(req);
    assert!(!resp.is_error());
    assert_eq!(resp.result.unwrap()["status"], "Sealing");
}

#[test]
fn tick_test_handle_tick_update_success() {
    let mut d = Daemon::new();
    let tick_id = create_test_tick(&mut d);
    let resp = d.dispatch(DaemonRequest::new(2, "tick.update", &format!(r#"{{"id": "{}", "validation_log": "All tests passed", "bundle_ids": ["b-1", "b-2"], "attempted_bundle_ids": ["b-1", "b-2", "b-3"]}}"#, tick_id)));
    assert!(!resp.is_error(), "tick.update failed: {:?}", resp.error);
    let result = resp.result.unwrap();
    assert_eq!(result["validation_log"], "All tests passed");
    assert_eq!(result["bundle_ids"].as_array().unwrap().len(), 2);
    assert_eq!(result["attempted_bundle_ids"].as_array().unwrap().len(), 3);
}

#[test]
fn tick_test_handle_tick_update_not_found() {
    let mut d = Daemon::new();
    let resp = d.dispatch(DaemonRequest::new(1, "tick.update", r#"{"id": "nonexistent", "validation_log": "x"}"#));
    assert!(resp.is_error());
}

#[test]
fn tick_test_handle_tick_update_missing_id() {
    let mut d = Daemon::new();
    let resp = d.dispatch(DaemonRequest::new(1, "tick.update", r#"{"validation_log": "x"}"#));
    assert!(resp.is_error());
}

#[test]
fn work_test_work_create_rejects_complete_phase() {
    let mut d = Daemon::new();
    let (_, _, phase_id) = create_test_phase(&mut d);
    d.dispatch(DaemonRequest::new(1, "phase.transition", &format!(r#"{{"id": "{}", "target_status": "active", "role": "coordinator"}}"#, phase_id)));
    d.dispatch(DaemonRequest::new(1, "phase.transition", &format!(r#"{{"id": "{}", "target_status": "complete", "role": "coordinator"}}"#, phase_id)));
    let req = DaemonRequest::new(2, "work.create", &format!(r#"{{"parent_id": "{}", "title": "Work Under Complete", "files": ["src/"]}}"#, phase_id));
    let resp = d.dispatch(req);
    assert!(resp.is_error());
    assert!(resp.error.unwrap().message.contains("complete phase"));
}

#[test]
fn work_test_work_create_rejects_abandoned_phase() {
    let mut d = Daemon::new();
    let (_, _, phase_id) = create_test_phase(&mut d);
    d.dispatch(DaemonRequest::new(1, "phase.transition", &format!(r#"{{"id": "{}", "target_status": "abandoned", "role": "coordinator"}}"#, phase_id)));
    let req = DaemonRequest::new(2, "work.create", &format!(r#"{{"parent_id": "{}", "title": "Work Under Abandoned", "files": ["src/"]}}"#, phase_id));
    let resp = d.dispatch(req);
    assert!(resp.is_error());
    assert!(resp.error.unwrap().message.contains("abandoned phase"));
}

#[test]
fn work_test_work_create_success() {
    let mut d = Daemon::new();
    let (_, _, phase_id) = create_test_phase(&mut d);
    let req = DaemonRequest::new(30, "work.create", &format!(r#"{{"parent_id": "{}", "title": "Implement auth", "files": ["src/"], "acceptance_criteria": ["tests pass"]}}"#, phase_id));
    let resp = d.dispatch(req);
    assert!(!resp.is_error());
    let result = resp.result.unwrap();
    assert_eq!(result["title"], "Implement auth");
    assert_eq!(result["parent_id"], phase_id);
    assert_eq!(result["status"], "Ready");
    assert_eq!(d.stores.works.len(), 1);
}

#[test]
fn work_test_work_create_persists_to_taskstore() {
    let mut d = Daemon::with_store();
    let (_, _, phase_id) = create_test_phase(&mut d);
    let req = DaemonRequest::new(30, "work.create", &format!(r#"{{"parent_id": "{}", "title": "Persisted WI", "files": ["src/"], "acceptance_criteria": ["tests pass"]}}"#, phase_id));
    let resp = d.dispatch(req);
    assert!(!resp.is_error());
    let wi_id = resp.result.unwrap()["id"].as_str().unwrap().to_string();
    let retrieved: Option<Work> = d.stored_work(&wi_id);
    assert!(retrieved.is_some());
    assert_eq!(retrieved.unwrap().title, "Persisted WI");
}

#[test]
fn work_test_work_create_missing_phase_id() {
    let mut d = Daemon::new();
    let req = DaemonRequest::new(1, "work.create", r#"{"title": "WI", "files": ["src/"], "acceptance_criteria": ["tests pass"]}"#);
    let resp = d.dispatch(req);
    assert!(resp.is_error());
    assert!(resp.error.unwrap().message.contains("parent_id"));
}

#[test]
fn work_test_work_create_phase_not_found() {
    let mut d = Daemon::new();
    let req = DaemonRequest::new(1, "work.create", r#"{"parent_id": "nonexistent", "title": "WI", "files": ["src/"], "acceptance_criteria": ["tests pass"]}"#);
    let resp = d.dispatch(req);
    assert!(resp.is_error());
    assert_eq!(resp.error.unwrap().code, -32001);
}

#[test]
fn work_test_work_create_missing_title() {
    let mut d = Daemon::new();
    let (_, _, phase_id) = create_test_phase(&mut d);
    let req = DaemonRequest::new(30, "work.create", &format!(r#"{{"parent_id": "{}", "files": ["src/"], "acceptance_criteria": ["tests pass"]}}"#, phase_id));
    let resp = d.dispatch(req);
    assert!(resp.is_error());
    assert!(resp.error.unwrap().message.contains("title"));
}

#[test]
fn work_test_work_create_broadcasts_event() {
    let mut d = Daemon::new();
    d.subscribe();
    let (_, _, phase_id) = create_test_phase(&mut d);
    d.next_event();
    d.next_event();
    d.next_event();
    let req = DaemonRequest::new(30, "work.create", &format!(r#"{{"parent_id": "{}", "title": "WI", "files": ["src/"], "acceptance_criteria": ["tests pass"]}}"#, phase_id));
    d.dispatch(req);
    let event = d.next_event().unwrap();
    assert_eq!(event.event, "record.created");
    assert_eq!(event.data["collection"], "work");
}

#[test]
fn work_test_work_get_success() {
    let mut d = Daemon::new();
    let (_, _, phase_id) = create_test_phase(&mut d);
    let create_resp = d.dispatch(DaemonRequest::new(30, "work.create", &format!(r#"{{"parent_id": "{}", "title": "My WI", "files": ["src/"], "acceptance_criteria": ["tests pass"]}}"#, phase_id)));
    let wi_id = create_resp.result.unwrap()["id"].as_str().unwrap().to_string();
    let get_resp = d.dispatch(DaemonRequest::new(31, "work.get", &format!(r#"{{"id": "{}"}}"#, wi_id)));
    assert!(!get_resp.is_error());
    assert_eq!(get_resp.result.unwrap()["title"], "My WI");
}

#[test]
fn work_test_work_get_not_found() {
    let mut d = Daemon::new();
    let req = DaemonRequest::new(1, "work.get", r#"{"id": "nonexistent"}"#);
    let resp = d.dispatch(req);
    assert!(resp.is_error());
    assert_eq!(resp.error.unwrap().code, -32001);
}

#[test]
fn work_test_work_get_reads_from_taskstore() {
    let mut d = Daemon::with_store();
    let (_, _, phase_id) = create_test_phase(&mut d);
    let create_req = DaemonRequest::new(30, "work.create", &format!(r#"{{"parent_id": "{}", "title": "TaskStore WI", "files": ["src/"], "acceptance_criteria": ["tests pass"]}}"#, phase_id));
    let create_resp = d.dispatch(create_req);
    assert!(!create_resp.is_error());
    let wi_id = create_resp.result.unwrap()["id"].as_str().unwrap().to_string();
    d.forget_works(Some(&wi_id));
    let get_req = DaemonRequest::new(31, "work.get", &format!(r#"{{"id": "{}"}}"#, wi_id));
    let get_resp = d.dispatch(get_req);
    assert!(!get_resp.is_error());
    assert_eq!(get_resp.result.unwrap()["title"], "TaskStore WI");
}

#[test]
fn work_test_work_list_empty() {
    let mut d = Daemon::new();
    let req = DaemonRequest::new(1, "work.list", r#"null"#);
    let resp = d.dispatch(req);
    assert!(!resp.is_error());
    assert_eq!(resp.result.unwrap().as_array().unwrap().len(), 0);
}

#[test]
fn work_test_work_list_filtered_by_phase_id() {
    let mut d = Daemon::new();
    let (_, spec_id, phase_id_1) = create_test_phase(&mut d);
    d.dispatch(DaemonRequest::new(15, "phase.transition", &format!(r#"{{"id": "{}", "target_status": "active", "role": "coordinator"}}"#, phase_id_1)));
    let resp2 = d.dispatch(DaemonRequest::new(21, "phase.create", &format!(r#"{{"parent_id": "{}", "title": "Phase 2", "order": 2}}"#, spec_id)));
    let phase_id_2 = resp2.result.unwrap()["id"].as_str().unwrap().to_string();
    d.dispatch(DaemonRequest::new(30, "work.create", &format!(r#"{{"parent_id": "{}", "title": "WI A", "files": ["src/"], "acceptance_criteria": ["tests pass"]}}"#, phase_id_1)));
    d.dispatch(DaemonRequest::new(31, "work.create", &format!(r#"{{"parent_id": "{}", "title": "WI B", "files": ["src/"], "acceptance_criteria": ["tests pass"]}}"#, phase_id_2)));
    let all_resp = d.dispatch(DaemonRequest::new(40, "work.list", r#"null"#));
    assert_eq!(all_resp.result.unwrap().as_array().unwrap().len(), 2);
    let filtered_resp = d.dispatch(DaemonRequest::new(41, "work.list", &format!(r#"{{"parent_id": "{}"}}"#, phase_id_1)));
    let items = filtered_resp.result.unwrap();
    let arr = items.as_array().unwrap();
    assert_eq!(arr.len(), 1);
    assert_eq!(arr[0]["title"], "WI A");
}

#[test]
fn work_test_work_list_reads_from_taskstore() {
    let mut d = Daemon::with_store();
    let (_, spec_id, phase_id_1) = create_test_phase(&mut d);
    d.dispatch(DaemonRequest::new(15, "phase.transition", &format!(r#"{{"id": "{}", "target_status": "active", "role": "coordinator"}}"#, phase_id_1)));
    let resp2 = d.dispatch(DaemonRequest::new(21, "phase.create", &format!(r#"{{"parent_id": "{}", "title": "Phase 2", "order": 2}}"#, spec_id)));
    let phase_id_2 = resp2.result.unwrap()["id"].as_str().unwrap().to_string();
    d.dispatch(DaemonRequest::new(30, "work.create", &format!(r#"{{"parent_id": "{}", "title": "WI A", "files": ["src/"], "acceptance_criteria": ["tests pass"]}}"#, phase_id_1)));
    d.dispatch(DaemonRequest::new(31, "work.create", &format!(r#"{{"parent_id": "{}", "title": "WI B", "files": ["src/"], "acceptance_criteria": ["tests pass"]}}"#, phase_id_2)));
    d.forget_works(None);
    let all_resp = d.dispatch(DaemonRequest::new(40, "work.list", r#"null"#));
    assert!(!all_resp.is_error());
    assert_eq!(all_resp.result.unwrap().as_array().unwrap().len(), 2);
    let filtered_req = DaemonRequest::new(41, "work.list", &format!(r#"{{"parent_id": "{}"}}"#, phase_id_1));
    let filtered_resp = d.dispatch(filtered_req);
    assert!(!filtered_resp.is_error());
    let filtered_items = filtered_resp.result.unwrap();
    let arr = filtered_items.as_array().unwrap();
    assert_eq!(arr.len(), 1);
    assert_eq!(arr[0]["title"], "WI A");
}

#[test]
fn work_test_work_transition_draft_to_ready() {
    let mut d = Daemon::new();
    d.subscribe();
    let (_, _, phase_id) = create_test_phase(&mut d);
    d.next_event();
    d.next_event();
    d.next_event();
    let create_resp = d.dispatch(DaemonRequest::new(30, "work.create", &format!(r#"{{"parent_id": "{}", "title": "WI", "files": ["src/"], "acceptance_criteria": ["tests pass"]}}"#, phase_id)));
    d.next_event();
    let wi_id = create_resp.result.unwrap()["id"].as_str().unwrap().to_string();
    let req = DaemonRequest::new(31, "work.transition", &format!(r#"{{"id": "{}", "target_status": "InProgress", "role": "coordinator", "assignee": "agent-1"}}"#, wi_id));
    let resp = d.dispatch(req);
    assert!(!resp.is_error());
    assert_eq!(resp.result.unwrap()["status"], "InProgress");
    let event = d.next_event().unwrap();
    assert_eq!(event.event, "transition.completed");
    assert_eq!(event.data["collection"], "work");
    assert_eq!(event.data["from"], "Ready");
    assert_eq!(event.data["to"], "InProgress");
}

#[test]
fn test_work_transition_ready_to_done_coordinator() {
    let mut d = Daemon::new();
    let (_, _, phase_id) = create_test_phase(&mut d);
    let create_resp = d.dispatch(DaemonRequest::new(30, "work.create", &format!(r#"{{"parent_id": "{}", "title": "WI", "files": ["src/"], "acceptance_criteria": ["tests pass"]}}"#, phase_id)));
    let wi_id = create_resp.result.unwrap()["id"].as_str().unwrap().to_string();
    let req = DaemonRequest::new(31, "work.transition", &format!(r#"{{"id": "{}", "target_status": "Done", "role": "coordinator"}}"#, wi_id));
    let resp = d.dispatch(req);
    assert!(
        !resp.is_error(),
        "Ready->Done(Coordinator) should succeed: {:?}",
        resp.error
    );
    let create_resp2 = d.dispatch(DaemonRequest::new(32, "work.create", &format!(r#"{{"parent_id": "{}", "title": "WI2", "files": ["src/"]}}"#, phase_id)));
    assert!(
        !create_resp2.is_error(),
        "WI2 create should succeed: {:?}",
        create_resp2.error
    );
    let wi2_id = create_resp2.result.unwrap()["id"].as_str().unwrap().to_string();
    let req2 = DaemonRequest::new(33, "work.transition", &format!(r#"{{"id": "{}", "target_status": "Done", "role": "coordinator"}}"#, wi2_id));
    let resp2 = d.dispatch(req2);
    assert!(resp2.is_error(), "Draft->Done should still fail");
}

#[test]
fn work_test_work_transition_wrong_role() {
    let mut d = Daemon::new();
    let (_, _, phase_id) = create_test_phase(&mut d);
    let create_resp = d.dispatch(DaemonRequest::new(30, "work.create", &format!(r#"{{"parent_id": "{}", "title": "WI", "files": ["src/"], "acceptance_criteria": ["tests pass"]}}"#, phase_id)));
    let wi_id = create_resp.result.unwrap()["id"].as_str().unwrap().to_string();
    let req = DaemonRequest::new(31, "work.transition", &format!(r#"{{"id": "{}", "target_status": "InProgress", "role": "implementer"}}"#, wi_id));
    let resp = d.dispatch(req);
    assert!(resp.is_error());
    assert_eq!(resp.error.unwrap().code, -32000);
}

#[test]
fn work_test_work_transition_not_found() {
    let mut d = Daemon::new();
    let req = DaemonRequest::new(1, "work.transition", r#"{"id": "nonexistent", "target_status": "Ready"}"#);
    let resp = d.dispatch(req);
    assert!(resp.is_error());
    assert_eq!(resp.error.unwrap().code, -32001);
}

#[test]
fn work_test_work_transition_persists_to_taskstore() {
    let mut d = Daemon::with_store();
    let (_, _, phase_id) = create_test_phase(&mut d);
    let create_resp = d.dispatch(DaemonRequest::new(2, "work.create", &format!(r#"{{"parent_id": "{}", "title": "Transition WI", "files": ["src/"], "acceptance_criteria": ["tests pass"]}}"#, phase_id)));
    assert!(!create_resp.is_error());
    let wi_id = create_resp.result.unwrap()["id"].as_str().unwrap().to_string();
    let req = DaemonRequest::new(3, "work.transition", &format!(r#"{{"id": "{}", "target_status": "InProgress", "role": "coordinator", "assignee": "agent-1"}}"#, wi_id));
    let resp = d.dispatch(req);
    assert!(!resp.is_error());
    assert_eq!(resp.result.unwrap()["status"], "InProgress");
    let retrieved: Option<Work> = d.stored_work(&wi_id);
    assert!(retrieved.is_some());
    let wi = retrieved.unwrap();
    assert_eq!(wi.status, WorkStatus::InProgress);
}

#[test]
fn work_test_handle_work_update_success() {
    let mut d = Daemon::new();
    let (_, wi_id) = create_test_work(&mut d);
    let resp = d.dispatch(DaemonRequest::new(2, "work.update", &format!(r#"{{"id": "{}", "title": "Updated Work", "assignee": "agent-1", "files": ["src/lib.rs"], "acceptance_criteria": ["tests pass"], "dependencies": ["dep-1"]}}"#, wi_id)));
    assert!(!resp.is_error(), "work.update failed: {:?}", resp.error);
    let result = resp.result.unwrap();
    assert_eq!(result["title"], "Updated Work");
    assert_eq!(result["assignee"], "agent-1");
    assert_eq!(result["files"].as_array().unwrap().len(), 1);
    assert_eq!(result["acceptance_criteria"].as_array().unwrap().len(), 1);
    assert_eq!(result["dependencies"].as_array().unwrap().len(), 1);
}

#[test]
fn work_test_handle_work_update_not_found() {
    let mut d = Daemon::new();
    let resp = d.dispatch(DaemonRequest::new(1, "work.update", r#"{"id": "nonexistent", "title": "x"}"#));
    assert!(resp.is_error());
}

#[test]
fn work_test_handle_work_update_missing_id() {
    let mut d = Daemon::new();
    let resp = d.dispatch(DaemonRequest::new(1, "work.update", r#"{"title": "x"}"#));
    assert!(resp.is_error());
}

#[test]
fn work_test_self_referencing_dependency_rejected_via_handler() {
    let mut d = Daemon::new();
    let (_, _, phase_id) = create_test_phase(&mut d);
    let a_id = create_work(&mut d, &phase_id, "A", &[]);
    let resp = d.dispatch(DaemonRequest::new(2, "work.update", &format!(r#"{{"id": "{}", "dependencies": ["{}"]}}"#, a_id, a_id)));
    assert!(resp.is_error(), "expected error for self-referencing dependency");
    assert!(
        resp.error.as_ref().unwrap().message.contains("Circular dependency"),
        "expected cycle error, got: {:?}",
        resp.error
    );
}

#[test]
fn work_test_direct_cycle_rejected_at_update() {
    let mut d = Daemon::new();
    let (_, _, phase_id) = create_test_phase(&mut d);
    let a_id = create_work(&mut d, &phase_id, "A", &[]);
    let b_id = create_work(&mut d, &phase_id, "B", &[&a_id]);
    let resp = d.dispatch(DaemonRequest::new(3, "work.update", &format!(r#"{{"id": "{}", "dependencies": ["{}"]}}"#, a_id, b_id)));
    assert!(resp.is_error(), "expected error for direct cycle");
    assert!(
        resp.error.as_ref().unwrap().message.contains("Circular dependency"),
        "expected cycle error, got: {:?}",
        resp.error
    );
}

#[test]
fn work_test_valid_chain_accepted_via_handler() {
    let mut d = Daemon::new();
    let (_, _, phase_id) = create_test_phase(&mut d);
    let a_id = create_work(&mut d, &phase_id, "A", &[]);
    let b_id = create_work(&mut d, &phase_id, "B", &[&a_id]);
    let c_id = create_work(&mut d, &phase_id, "C", &[&b_id]);
    assert!(!a_id.is_empty());
    assert!(!b_id.is_empty());
    assert!(!c_id.is_empty());
}

#[test]
fn worktree_test_worktree_create_missing_work_id() {
    let mut d = Daemon::new();
    let resp = d.dispatch(DaemonRequest::new(1, "worktree.create", r#"{}"#));
    assert!(resp.is_error());
    assert!(resp.error.as_ref().unwrap().message.contains("work_id"));
}

#[test]
fn worktree_test_worktree_create_work_not_found() {
    let mut d = Daemon::new();
    let resp = d.dispatch(DaemonRequest::new(1, "worktree.create", r#"{"work_id": "nonexistent"}"#));
    assert!(resp.is_error());
    assert!(resp.error.as_ref().unwrap().message.contains("not found"));
}

#[test]
fn worktree_test_worktree_create_validates_work_exists() {
    let mut d = Daemon::new();
    let (_, wi_id) = create_test_work(&mut d);
    let resp = d.dispatch(DaemonRequest::new(2, "worktree.create", &format!(r#"{{"work_id": "{}"}}"#, wi_id)));
    assert!(resp.is_error());
    let msg = &resp.error.as_ref().unwrap().message;
    assert!(
        !msg.contains("not found"),
        "error should be from git, not from validation: {}",
        msg
    );
}

#[test]
fn worktree_test_worktree_list_returns_response() {
    let mut d = Daemon::new();
    let resp = d.dispatch(DaemonRequest::new(1, "worktree.list", r#"null"#));
    assert!(resp.is_error());
}

#[test]
fn worktree_test_worktree_cleanup_missing_work_id() {
    let mut d = Daemon::new();
    let resp = d.dispatch(DaemonRequest::new(1, "worktree.cleanup", r#"{}"#));
    assert!(resp.is_error());
    assert!(resp.error.as_ref().unwrap().message.contains("work_id"));
}

#[test]
fn worktree_test_worktree_cleanup_work_not_found() {
    let mut d = Daemon::new();
    let resp = d.dispatch(DaemonRequest::new(1, "worktree.cleanup", r#"{"work_id": "nonexistent"}"#));
    assert!(resp.is_error());
    assert!(resp.error.as_ref().unwrap().message.contains("not found"));
}

#[test]
fn worktree_test_worktree_refresh_missing_work_id() {
    let mut d = Daemon::new();
    let resp = d.dispatch(DaemonRequest::new(1, "worktree.refresh", r#"{}"#));
    assert!(resp.is_error());
    assert!(resp.error.as_ref().unwrap().message.contains("work_id"));
}

#[test]
fn worktree_test_worktree_refresh_nonexistent_worktree() {
    let mut d = Daemon::new();
    let resp = d.dispatch(DaemonRequest::new(1, "worktree.refresh", r#"{"work_id": "nonexistent"}"#));
    assert!(resp.is_error());
}
