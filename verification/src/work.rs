//! Work items: how they are made, found and changed.

use crate::graph::{any_leads, detect_dependency_cycle};
use crate::hierarchy::{closed_parent, closed_parent_error};
use crate::params::{all_strings_of, strings_of, text_of, Members, Params};
use crate::protocol::{
    answers, invalid_params, not_found, precondition_failed, DaemonEvent, DaemonEventView,
    DaemonRequest, Outcome, Reply, RpcError, RpcErrorView,
};
use crate::records::{Phase, PhaseView, Plan, PlanView, Work, WorkView};
use crate::status::WorkStatus;
use crate::steps::{
    fetch, fetched, list_children, listed, persist, refuse, takes, Listing, Step, StepView, Stored,
    StoredList,
};
use crate::table::{known, lookup, put, Record, Table};
use crate::text::{
    begins_with, copy, copy_all, joined, lower, lowercase, opt_text, opt_texts, replaced, same,
    text_or, texts,
};
use vstd::prelude::*;
use vstd::string::*;

verus! {

/// How often a work item can be put back to `Ready` before it is abandoned.
pub const MAX_WORK_ATTEMPTS: u32 = 5;

// ---------------------------------------------------------------- making

/// A work item that a request asks for.
#[derive(Debug)]
pub struct WorkDraft {
    pub parent_id: Option<String>,
    pub title: String,
    pub files: Vec<String>,
    pub acceptance_criteria: Vec<String>,
    pub dependencies: Vec<String>,
}

#[verifier::ext_equal]
pub struct WorkDraftView {
    pub parent_id: Option<Seq<char>>,
    pub title: Seq<char>,
    pub files: Seq<Seq<char>>,
    pub acceptance_criteria: Seq<Seq<char>>,
    pub dependencies: Seq<Seq<char>>,
}

impl View for WorkDraft {
    type V = WorkDraftView;

    open spec fn view(&self) -> WorkDraftView {
        WorkDraftView {
            parent_id: opt_text(self.parent_id),
            title: self.title@,
            files: texts(self.files@),
            acceptance_criteria: texts(self.acceptance_criteria@),
            dependencies: texts(self.dependencies@),
        }
    }
}

/// The strings of an array parameter; none where it is missing or holds
/// anything else.
pub open spec fn strings_or_none(p: Members, name: Seq<char>) -> Seq<Seq<char>> {
    match all_strings_of(p, name) {
        Some(v) => v,
        None => Seq::empty(),
    }
}

fn read_strings(p: &Params, name: &str) -> (r: Vec<String>)
    ensures
        texts(r@) == strings_or_none(p@, name@),
{
    match p.all_strings(name) {
        Some(v) => v,
        None => {
            let v: Vec<String> = Vec::new();
            assert(texts(v@) =~= Seq::empty());
            v
        },
    }
}

/// The work item that parameters ask for.
pub open spec fn asked_work(p: Members) -> WorkDraftView {
    WorkDraftView {
        parent_id: text_of(p, "parent_id"@),
        title: text_or(text_of(p, "title"@), Seq::empty()),
        files: strings_or_none(p, "files"@),
        acceptance_criteria: strings_or_none(p, "acceptance_criteria"@),
        dependencies: strings_or_none(p, "dependencies"@),
    }
}

impl WorkDraft {
    /// Reads the work item that parameters ask for.
    pub fn read(p: &Params) -> (r: WorkDraft)
        ensures
            r@ == asked_work(p@),
    {
        WorkDraft {
            parent_id: p.text("parent_id"),
            title: p.text_or_empty("title"),
            files: read_strings(p, "files"),
            acceptance_criteria: read_strings(p, "acceptance_criteria"),
            dependencies: read_strings(p, "dependencies"),
        }
    }
}

/// Why no work item is made under the parent: a phase, or else a plan.
pub open spec fn parent_refusal(
    phases: Seq<PhaseView>,
    plans: Seq<PlanView>,
    parent: Seq<char>,
) -> Option<RpcErrorView> {
    match lookup(phases, parent) {
        Some(phase) => if phase.status.is_closed() {
            Some(closed_parent("work"@, phase.status, "phase"@, parent))
        } else {
            None
        },
        None => match lookup(plans, parent) {
            Some(plan) => if plan.status.is_closed() {
                Some(closed_parent("work"@, plan.status, "plan"@, parent))
            } else {
                None
            },
            None => Some(not_found("parent"@, parent)),
        },
    }
}

fn check_parent(phases: &Table<Phase>, plans: &Table<Plan>, parent: &str) -> (r: Result<
    (),
    RpcError,
>)
    ensures
        match r {
            Ok(_) => parent_refusal(phases@, plans@, parent@) is None,
            Err(e) => parent_refusal(phases@, plans@, parent@) == Some(e@),
        },
{
    match phases.get(parent) {
        Some(phase) => {
            if phase.status.closed() {
                return Err(closed_parent_error("work", phase.status, "phase", parent));
            }
        },
        None => {
            match plans.get(parent) {
                Some(plan) => {
                    if plan.status.closed() {
                        return Err(closed_parent_error("work", plan.status, "plan", parent));
                    }
                },
                None => {
                    return Err(RpcError::not_found("parent", parent));
                },
            }
        },
    }
    Ok(())
}

/// Whether a work item stands in the way of another one with the title under
/// the parent: the same title up to case, and not abandoned.
pub open spec fn rivals(w: WorkView, parent: Seq<char>, title: Seq<char>) -> bool {
    w.parent_id == parent && lowercase(w.title) == lowercase(title) && !(w.status is Abandoned)
}

/// The first work item that stands in the way.
pub open spec fn first_rival(
    works: Seq<WorkView>,
    parent: Seq<char>,
    title: Seq<char>,
) -> Option<WorkView>
    decreases works.len(),
{
    if works.len() == 0 {
        None
    } else {
        match first_rival(works.drop_last(), parent, title) {
            Some(w) => Some(w),
            None => if rivals(works.last(), parent, title) {
                Some(works.last())
            } else {
                None
            },
        }
    }
}

/// Some work item stands in the way exactly if there is a first one.
pub proof fn first_rival_exists(works: Seq<WorkView>, parent: Seq<char>, title: Seq<char>)
    ensures
        first_rival(works, parent, title) is Some <==> exists|i: int|
            0 <= i < works.len() && #[trigger] rivals(works[i], parent, title),
        first_rival(works, parent, title) matches Some(w) ==> rivals(w, parent, title)
            && works.contains(w),
    decreases works.len(),
{
    if works.len() > 0 {
        let rest = works.drop_last();
        first_rival_exists(rest, parent, title);
        assert(works[works.len() - 1] == works.last());
        match first_rival(rest, parent, title) {
            Some(w) => {
                let k = choose|k: int| 0 <= k < rest.len() && rest[k] == w;
                assert(works[k] == w);
                assert(rivals(works[k], parent, title));
            },
            None => {
                if exists|i: int| 0 <= i < works.len() && #[trigger] rivals(works[i], parent, title) {
                    let i = choose|i: int|
                        0 <= i < works.len() && #[trigger] rivals(works[i], parent, title);
                    if i < rest.len() {
                        assert(rivals(rest[i], parent, title));
                    }
                }
            },
        }
    }
}

/// Why no second work item with the title is made.
pub open spec fn duplicate_error(
    title: Seq<char>,
    parent: Seq<char>,
    rival: WorkView,
) -> RpcErrorView {
    precondition_failed(
        "Duplicate work '"@ + title + "' already exists in phase "@ + parent + " with status "@
            + rival.status.shown() + " (ID: "@ + rival.id + ")"@,
    )
}

fn check_duplicate(works: &Table<Work>, parent: &str, title: &str) -> (r: Result<(), RpcError>)
    ensures
        match r {
            Ok(_) => first_rival(works@, parent@, title@) is None,
            Err(e) => first_rival(works@, parent@, title@) is Some && e@ == duplicate_error(
                title@,
                parent@,
                first_rival(works@, parent@, title@)->0,
            ),
        },
{
    let wanted: String = lower(title);
    let n: usize = works.len();
    let mut i: usize = 0;
    while i < n
        invariant
            n == works@.len(),
            i <= n,
            wanted@ == lowercase(title@),
            first_rival(works@.take(i as int), parent@, title@) is None,
        decreases n - i,
    {
        let w: &Work = works.row(i);
        assert(works@.take(i + 1).drop_last() =~= works@.take(i as int));
        assert(works@.take(i + 1).last() == w@);
        if same(w.parent_id.as_str(), parent) && same(lower(w.title.as_str()).as_str(), wanted.as_str())
            && w.status != WorkStatus::Abandoned {
            proof {
                rival_found_first(works@, i + 1, parent@, title@);
            }
            let mut message: String = joined("Duplicate work '", title);
            message.append("' already exists in phase ");
            message.append(parent);
            message.append(" with status ");
            message.append(w.status.name());
            message.append(" (ID: ");
            message.append(w.id.as_str());
            message.append(")");
            return Err(RpcError::precondition_failed(message.as_str()));
        }
        i = i + 1;
    }
    assert(works@.take(n as int) =~= works@);
    Ok(())
}

/// The first rival among the first rows is the first of all.
pub proof fn rival_found_first(works: Seq<WorkView>, n: int, parent: Seq<char>, title: Seq<char>)
    requires
        0 <= n <= works.len(),
        first_rival(works.take(n), parent, title) is Some,
    ensures
        first_rival(works, parent, title) == first_rival(works.take(n), parent, title),
    decreases works.len(),
{
    if n < works.len() {
        let rest = works.drop_last();
        assert(rest.take(n) =~= works.take(n));
        rival_found_first(rest, n, parent, title);
    } else {
        assert(works.take(n) =~= works);
    }
}

/// Whether a dependency that a request asks for is taken up: an id that stands
/// for a place in the same batch is not, nor an id that is not known.
pub open spec fn kept_dependency(works: Seq<WorkView>, dep: Seq<char>) -> bool {
    !"batch:"@.is_prefix_of(dep) && known(works, dep)
}

/// The dependencies that are taken up, in their order.
pub open spec fn kept_dependencies(
    works: Seq<WorkView>,
    deps: Seq<Seq<char>>,
) -> Seq<Seq<char>> {
    deps.filter(|d: Seq<char>| kept_dependency(works, d))
}

fn keep_dependencies(works: &Table<Work>, deps: &Vec<String>) -> (r: Vec<String>)
    ensures
        texts(r@) == kept_dependencies(works@, texts(deps@)),
{
    let ghost all = texts(deps@);
    let ghost keep = |d: Seq<char>| kept_dependency(works@, d);
    let mut r: Vec<String> = Vec::new();
    let mut i: usize = 0;
    proof {
        reveal(Seq::filter);
        assert(all.take(0) =~= Seq::empty());
        assert(texts(r@) =~= Seq::empty());
    }
    while i < deps.len()
        invariant
            i <= deps@.len(),
            all == texts(deps@),
            keep == (|d: Seq<char>| kept_dependency(works@, d)),
            texts(r@) == all.take(i as int).filter(keep),
        decreases deps@.len() - i,
    {
        let ghost before = texts(r@);
        let fits: bool = !begins_with(deps[i].as_str(), "batch:") && works.contains(
            deps[i].as_str(),
        );
        proof {
            reveal(Seq::filter);
            assert(all.take(i + 1).drop_last() =~= all.take(i as int));
            assert(all.take(i + 1).last() == deps@[i as int]@);
            assert(fits == keep(deps@[i as int]@));
        }
        if fits {
            r.push(copy(deps[i].as_str()));
            assert(texts(r@) =~= before.push(deps@[i as int]@));
        }
        i = i + 1;
    }
    assert(all.take(deps@.len() as int) =~= all);
    r
}

/// The work item that is made: ready at once if it has acceptance criteria.
pub open spec fn made_work(
    works: Seq<WorkView>,
    parent: Seq<char>,
    d: WorkDraftView,
    id: Seq<char>,
    now: i64,
) -> WorkView {
    WorkView {
        id,
        parent_id: parent,
        title: d.title,
        assignee: None,
        files: d.files,
        acceptance_criteria: d.acceptance_criteria,
        dependencies: kept_dependencies(works, d.dependencies),
        status: if d.acceptance_criteria.len() > 0 {
            WorkStatus::Ready
        } else {
            WorkStatus::Draft
        },
        attempt_count: 0,
        created_at: now,
        updated_at: now,
    }
}

/// Why a work item is not made.
pub open spec fn work_refusal(
    phases: Seq<PhaseView>,
    plans: Seq<PlanView>,
    works: Seq<WorkView>,
    d: WorkDraftView,
    id: Seq<char>,
) -> Option<RpcErrorView> {
    match d.parent_id {
        None => Some(invalid_params("parent_id is required"@)),
        Some(parent) => match parent_refusal(phases, plans, parent) {
            Some(e) => Some(e),
            None => if d.title.len() == 0 {
                Some(invalid_params("title is required"@))
            } else {
                match first_rival(works, parent, d.title) {
                    Some(rival) => Some(duplicate_error(d.title, parent, rival)),
                    None => if d.files.len() == 0 {
                        Some(precondition_failed("Work must have at least one file"@))
                    } else if any_leads(works, kept_dependencies(works, d.dependencies), id) {
                        Some(
                            precondition_failed(
                                "Circular dependency detected: adding these dependencies would create a cycle"@,
                            ),
                        )
                    } else {
                        None
                    },
                }
            },
        },
    }
}

/// The next step of a request that asks for a work item.
pub open spec fn work_creation(
    phases: Seq<PhaseView>,
    plans: Seq<PlanView>,
    works: Seq<WorkView>,
    d: WorkDraftView,
    id: Seq<char>,
    now: i64,
) -> StepView<WorkView> {
    match work_refusal(phases, plans, works, d, id) {
        Some(e) => StepView::Reply(Reply::Refused(e), Seq::empty()),
        None => StepView::Persist(
            made_work(works, d.parent_id->0, d, id, now),
            seq![DaemonEventView::RecordCreated { collection: "work"@, id }],
        ),
    }
}

/// Makes a work item under a fresh id, unless something stands against it. The
/// item joins the others once it is written.
pub fn create_work(
    phases: &Table<Phase>,
    plans: &Table<Plan>,
    works: &Table<Work>,
    request: u64,
    d: WorkDraft,
    id: String,
    now: i64,
) -> (r: Step<Work>)
    ensures
        takes(r, request, work_creation(phases@, plans@, works@, d@, id@, now)),
{
    let parent: String = match &d.parent_id {
        Some(parent) => copy(parent.as_str()),
        None => {
            return refuse(request, RpcError::invalid_params("parent_id is required"));
        },
    };
    match check_parent(phases, plans, parent.as_str()) {
        Ok(_) => {},
        Err(e) => {
            return refuse(request, e);
        },
    }
    if d.title.as_str().is_empty() {
        return refuse(request, RpcError::invalid_params("title is required"));
    }
    match check_duplicate(works, parent.as_str(), d.title.as_str()) {
        Ok(_) => {},
        Err(e) => {
            return refuse(request, e);
        },
    }
    if d.files.is_empty() {
        return refuse(request, RpcError::precondition_failed("Work must have at least one file"));
    }
    let dependencies: Vec<String> = keep_dependencies(works, &d.dependencies);
    if detect_dependency_cycle(works, id.as_str(), &dependencies) {
        return refuse(
            request,
            RpcError::precondition_failed(
                "Circular dependency detected: adding these dependencies would create a cycle",
            ),
        );
    }
    let event: DaemonEvent = DaemonEvent::record_created("work", id.as_str());
    let mut work: Work = Work::new(id, parent, copy(d.title.as_str()), now);
    work.files = copy_all(&d.files);
    work.acceptance_criteria = copy_all(&d.acceptance_criteria);
    work.dependencies = dependencies;
    if !d.acceptance_criteria.is_empty() {
        work.status = WorkStatus::Ready;
    }
    assert(work@ =~= made_work(works@, d@.parent_id->0, d@, id@, now));
    persist(request, work, event)
}

/// Answers a request that asks for a work item.
pub fn handle_work_create(
    phases: &Table<Phase>,
    plans: &Table<Plan>,
    works: &Table<Work>,
    req: &DaemonRequest,
    id: String,
    now: i64,
) -> (r: Step<Work>)
    ensures
        takes(
            r,
            req.id,
            work_creation(phases@, plans@, works@, asked_work(req.params@), id@, now),
        ),
{
    create_work(phases, plans, works, req.id, WorkDraft::read(&req.params), id, now)
}

/// Answers a request for one work item.
pub fn handle_work_get(works: &Table<Work>, req: &DaemonRequest, stored: Stored<Work>) -> (r:
    Outcome<Work>)
    ensures
        answers(
            r,
            req.id,
            fetched("work"@, works@, text_of(req.params@, "id"@), stored),
            Seq::empty(),
        ),
{
    fetch("work", works, req, stored)
}

/// Answers a request for the work items under a parent, or all.
pub fn handle_work_list(works: &Table<Work>, req: &DaemonRequest, stored: StoredList<Work>) -> (r:
    Outcome<Listing<Work>>)
    ensures
        answers(
            r,
            req.id,
            listed(crate::steps::children(works@, text_of(req.params@, "parent_id"@)), stored),
            Seq::empty(),
        ),
{
    list_children(works, req, stored)
}

// ---------------------------------------------------------------- changing

/// The changes to a work item that a request asks for.
#[derive(Debug)]
pub struct WorkChanges {
    pub id: String,
    pub title: Option<String>,
    pub assignee: Option<String>,
    pub files: Option<Vec<String>>,
    pub acceptance_criteria: Option<Vec<String>>,
    pub dependencies: Option<Vec<String>>,
}

#[verifier::ext_equal]
pub struct WorkChangesView {
    pub id: Seq<char>,
    pub title: Option<Seq<char>>,
    pub assignee: Option<Seq<char>>,
    pub files: Option<Seq<Seq<char>>>,
    pub acceptance_criteria: Option<Seq<Seq<char>>>,
    pub dependencies: Option<Seq<Seq<char>>>,
}

impl View for WorkChanges {
    type V = WorkChangesView;

    open spec fn view(&self) -> WorkChangesView {
        WorkChangesView {
            id: self.id@,
            title: opt_text(self.title),
            assignee: opt_text(self.assignee),
            files: opt_texts(self.files),
            acceptance_criteria: opt_texts(self.acceptance_criteria),
            dependencies: opt_texts(self.dependencies),
        }
    }
}

/// The changes that parameters ask for, or why they ask for none.
pub open spec fn asked_changes(p: Members) -> Result<WorkChangesView, RpcErrorView> {
    match text_of(p, "id"@) {
        None => Err(invalid_params("id is required"@)),
        Some(id) => Ok(
            WorkChangesView {
                id,
                title: text_of(p, "title"@),
                assignee: text_of(p, "assignee"@),
                files: strings_of(p, "files"@),
                acceptance_criteria: strings_of(p, "acceptance_criteria"@),
                dependencies: strings_of(p, "dependencies"@),
            },
        ),
    }
}

impl WorkChanges {
    /// Reads the changes that parameters ask for.
    pub fn read(p: &Params) -> (r: Result<WorkChanges, RpcError>)
        ensures
            match r {
                Ok(c) => asked_changes(p@) == Ok::<WorkChangesView, RpcErrorView>(c@),
                Err(e) => asked_changes(p@) == Err::<WorkChangesView, RpcErrorView>(e@),
            },
    {
        let id: String = match p.text("id") {
            Some(id) => id,
            None => {
                return Err(RpcError::invalid_params("id is required"));
            },
        };
        Ok(
            WorkChanges {
                id,
                title: p.text("title"),
                assignee: p.text("assignee"),
                files: p.strings("files"),
                acceptance_criteria: p.strings("acceptance_criteria"),
                dependencies: p.strings("dependencies"),
            },
        )
    }
}

/// The work item with the changes, made at the time `now`.
pub open spec fn changed_work(w: WorkView, c: WorkChangesView, now: i64) -> WorkView {
    WorkView {
        title: replaced(c.title, w.title),
        assignee: if c.assignee is Some {
            c.assignee
        } else {
            w.assignee
        },
        files: replaced(c.files, w.files),
        acceptance_criteria: replaced(c.acceptance_criteria, w.acceptance_criteria),
        dependencies: replaced(c.dependencies, w.dependencies),
        updated_at: now,
        ..w
    }
}

/// What changes make of the work items, and the next step. New dependencies
/// must not lead back to the work item, known or not.
pub open spec fn work_update(
    works: Seq<WorkView>,
    c: WorkChangesView,
    now: i64,
) -> (Seq<WorkView>, StepView<WorkView>) {
    if c.dependencies is Some && any_leads(works, c.dependencies->0, c.id) {
        (
            works,
            StepView::Reply(
                Reply::Refused(
                    precondition_failed(
                        "Circular dependency detected: updating dependencies would create a cycle"@,
                    ),
                ),
                Seq::empty(),
            ),
        )
    } else {
        match lookup(works, c.id) {
            None => (
                works,
                StepView::Reply(Reply::Refused(not_found("works"@, c.id)), Seq::empty()),
            ),
            Some(w) => (
                put(works, changed_work(w, c, now)),
                StepView::Persist(
                    changed_work(w, c, now),
                    seq![DaemonEventView::RecordUpdated { collection: "works"@, id: c.id }],
                ),
            ),
        }
    }
}

/// Changes a work item: it changes at once and has then to be written.
pub fn change_work(works: &mut Table<Work>, request: u64, c: WorkChanges, now: i64) -> (r: Step<
    Work,
>)
    ensures
        final(works)@ == work_update(old(works)@, c@, now).0,
        takes(r, request, work_update(old(works)@, c@, now).1),
{
    match &c.dependencies {
        Some(deps) => {
            if detect_dependency_cycle(works, c.id.as_str(), deps) {
                return refuse(
                    request,
                    RpcError::precondition_failed(
                        "Circular dependency detected: updating dependencies would create a cycle",
                    ),
                );
            }
        },
        None => {},
    }
    let mut w: Work = match works.get(c.id.as_str()) {
        Some(w) => w.copied(),
        None => {
            return refuse(request, RpcError::not_found("works", c.id.as_str()));
        },
    };
    let ghost before = w@;
    match &c.title {
        Some(title) => {
            w.title = copy(title.as_str());
        },
        None => {},
    }
    match &c.assignee {
        Some(assignee) => {
            w.assignee = Some(copy(assignee.as_str()));
        },
        None => {},
    }
    match &c.files {
        Some(files) => {
            w.files = copy_all(files);
        },
        None => {},
    }
    match &c.acceptance_criteria {
        Some(criteria) => {
            w.acceptance_criteria = copy_all(criteria);
        },
        None => {},
    }
    match &c.dependencies {
        Some(deps) => {
            w.dependencies = copy_all(deps);
        },
        None => {},
    }
    w.updated_at = now;
    assert(w@ =~= changed_work(before, c@, now));
    works.put(w.copied());
    persist(request, w, DaemonEvent::record_updated("works", c.id.as_str()))
}

/// What an update request makes of the work items, and its next step.
pub open spec fn work_update_request(
    works: Seq<WorkView>,
    p: Members,
    now: i64,
) -> (Seq<WorkView>, StepView<WorkView>) {
    match asked_changes(p) {
        Err(e) => (works, StepView::Reply(Reply::Refused(e), Seq::empty())),
        Ok(c) => work_update(works, c, now),
    }
}

/// Answers a request that changes a work item.
pub fn handle_work_update(works: &mut Table<Work>, req: &DaemonRequest, now: i64) -> (r: Step<Work>)
    ensures
        final(works)@ == work_update_request(old(works)@, req.params@, now).0,
        takes(r, req.id, work_update_request(old(works)@, req.params@, now).1),
{
    match WorkChanges::read(&req.params) {
        Err(e) => refuse(req.id, e),
        Ok(c) => change_work(works, req.id, c, now),
    }
}

} // verus!
