//! Requests about worktrees. The worktrees themselves are kept outside this
//! library: a request that is in order becomes an errand, and the answer
//! follows once the errand is done.

use crate::params::{text_of, Members};
use crate::protocol::{
    answers, internal, invalid_params, not_found, DaemonEvent, DaemonEventView, DaemonRequest,
    Outcome, Reply, RpcError, RpcErrorView,
};
use crate::records::{Work, WorkView};
use crate::steps::Stored;
use crate::table::{known, lookup, Table};
use crate::text::{copy, joined, opt_text, text_or};
use vstd::prelude::*;

verus! {

/// What comes next for a request: its answer, or an errand.
#[derive(Debug)]
pub enum Errand<J, T> {
    Done(Outcome<T>),
    Run(J),
}

/// What comes next for a request: a refusal, or an errand.
pub enum ErrandView<V> {
    Refused(RpcErrorView),
    Run(V),
}

/// Whether `e` is what comes next for the request `id` by `v`.
pub open spec fn sends<J: View, T: View>(
    e: Errand<J, T>,
    id: u64,
    v: ErrandView<<J as View>::V>,
) -> bool {
    match v {
        ErrandView::Refused(error) => e is Done && answers(
            e->Done_0,
            id,
            Reply::Refused(error),
            Seq::empty(),
        ),
        ErrandView::Run(job) => e is Run && e->Run_0@ == job,
    }
}

/// A worktree of a work item and the commit that it starts from.
#[derive(Debug)]
pub struct Checkout {
    pub work_id: String,
    pub base_ref: String,
}

#[verifier::ext_equal]
pub struct CheckoutView {
    pub work_id: Seq<char>,
    pub base_ref: Seq<char>,
}

impl View for Checkout {
    type V = CheckoutView;

    open spec fn view(&self) -> CheckoutView {
        CheckoutView { work_id: self.work_id@, base_ref: self.base_ref@ }
    }
}

/// The answer to a request about one worktree.
#[derive(Debug)]
pub struct WorktreeReport {
    pub work_id: String,
    pub path: Option<String>,
    pub status: Option<String>,
}

#[verifier::ext_equal]
pub struct WorktreeReportView {
    pub work_id: Seq<char>,
    pub path: Option<Seq<char>>,
    pub status: Option<Seq<char>>,
}

impl View for WorktreeReport {
    type V = WorktreeReportView;

    open spec fn view(&self) -> WorktreeReportView {
        WorktreeReportView {
            work_id: self.work_id@,
            path: opt_text(self.path),
            status: opt_text(self.status),
        }
    }
}

/// Why a work item has no worktree to speak of: neither the record store nor
/// the table has it. The store is asked first; where it has no such record, or
/// cannot be read, the table decides.
pub open spec fn missing_work(
    works: Seq<WorkView>,
    work_id: Seq<char>,
    stored: Stored<Work>,
) -> Option<RpcErrorView> {
    if !(stored is Found) && !known(works, work_id) {
        Some(not_found("work"@, work_id))
    } else {
        None
    }
}

fn find_missing(works: &Table<Work>, work_id: &str, stored: &Stored<Work>) -> (r: Option<RpcError>)
    ensures
        match r {
            Some(e) => missing_work(works@, work_id@, *stored) == Some(e@),
            None => missing_work(works@, work_id@, *stored) is None,
        },
{
    if !matches!(stored, Stored::Found(_)) && !works.contains(work_id) {
        Some(RpcError::not_found("work", work_id))
    } else {
        None
    }
}

/// The errand of a request for a worktree.
pub open spec fn worktree_creation(
    works: Seq<WorkView>,
    p: Members,
    stored: Stored<Work>,
    exists: bool,
) -> ErrandView<CheckoutView> {
    match text_of(p, "work_id"@) {
        None => ErrandView::Refused(invalid_params("work_id is required"@)),
        Some(work_id) => match missing_work(works, work_id, stored) {
            Some(e) => ErrandView::Refused(e),
            None => if exists {
                ErrandView::Refused(
                    invalid_params("worktree already exists for work "@ + work_id),
                )
            } else {
                ErrandView::Run(
                    CheckoutView { work_id, base_ref: text_or(text_of(p, "base_ref"@), "HEAD"@) },
                )
            },
        },
    }
}

/// Takes a request for a worktree, given what the record store has under the
/// id of the work item and whether the worktree exists.
pub fn handle_worktree_create(
    works: &Table<Work>,
    req: &DaemonRequest,
    stored: &Stored<Work>,
    exists: bool,
) -> (r: Errand<Checkout, WorktreeReport>)
    ensures
        sends(r, req.id, worktree_creation(works@, req.params@, *stored, exists)),
{
    let work_id: String = match req.params.text("work_id") {
        Some(id) => id,
        None => {
            return Errand::Done(
                Outcome::refuse(req.id, RpcError::invalid_params("work_id is required")),
            );
        },
    };
    let base_ref: String = match req.params.text("base_ref") {
        Some(base) => base,
        None => copy("HEAD"),
    };
    match find_missing(works, work_id.as_str(), stored) {
        Some(e) => {
            return Errand::Done(Outcome::refuse(req.id, e));
        },
        None => {},
    }
    if exists {
        let message: String = joined("worktree already exists for work ", work_id.as_str());
        return Errand::Done(
            Outcome::refuse(req.id, RpcError::invalid_params(message.as_str())),
        );
    }
    Errand::Run(Checkout { work_id, base_ref })
}

/// The answer once a worktree was made at a path, or could not be made.
pub open spec fn worktree_made(
    work_id: Seq<char>,
    made: Result<Seq<char>, Seq<char>>,
) -> (Reply<WorktreeReportView>, Seq<DaemonEventView>) {
    match made {
        Ok(path) => (
            Reply::Value(WorktreeReportView { work_id, path: Some(path), status: None }),
            seq![DaemonEventView::WorktreeCreated { work_id, path }],
        ),
        Err(e) => (Reply::Refused(internal(e)), Seq::empty()),
    }
}

/// The contents of the outcome of an errand.
pub open spec fn outcome_view(made: Result<String, String>) -> Result<Seq<char>, Seq<char>> {
    match made {
        Ok(path) => Ok(path@),
        Err(e) => Err(e@),
    }
}

/// Answers a request for a worktree once the worktree was made at a path, or
/// could not be made.
pub fn settle_worktree_create(id: u64, job: Checkout, made: Result<String, String>) -> (r: Outcome<
    WorktreeReport,
>)
    ensures
        answers(
            r,
            id,
            worktree_made(job.work_id@, outcome_view(made)).0,
            worktree_made(job.work_id@, outcome_view(made)).1,
        ),
{
    match made {
        Ok(path) => {
            let event: DaemonEvent = DaemonEvent::WorktreeCreated {
                work_id: copy(job.work_id.as_str()),
                path: copy(path.as_str()),
            };
            Outcome::ok_and_tell(
                id,
                WorktreeReport { work_id: job.work_id, path: Some(path), status: None },
                event,
            )
        },
        Err(e) => Outcome::refuse(id, RpcError::internal(e.as_str())),
    }
}

/// Answers a request for all worktrees.
pub fn handle_worktree_list<T: View>(req: &DaemonRequest, listed: Result<T, String>) -> (r: Outcome<
    T,
>)
    ensures
        answers(
            r,
            req.id,
            match listed {
                Ok(worktrees) => Reply::Value(worktrees@),
                Err(e) => Reply::Refused(internal(e@)),
            },
            Seq::empty(),
        ),
{
    match listed {
        Ok(worktrees) => Outcome::ok(req.id, worktrees),
        Err(e) => Outcome::refuse(req.id, RpcError::internal(e.as_str())),
    }
}

/// The errand of a request to remove a worktree.
pub open spec fn worktree_cleanup(
    works: Seq<WorkView>,
    p: Members,
    stored: Stored<Work>,
) -> ErrandView<Seq<char>> {
    match text_of(p, "work_id"@) {
        None => ErrandView::Refused(invalid_params("work_id is required"@)),
        Some(work_id) => match missing_work(works, work_id, stored) {
            Some(e) => ErrandView::Refused(e),
            None => ErrandView::Run(work_id),
        },
    }
}

/// Takes a request to remove the worktree of a work item, given what the record
/// store has under its id.
pub fn handle_worktree_cleanup(
    works: &Table<Work>,
    req: &DaemonRequest,
    stored: &Stored<Work>,
) -> (r: Errand<String, WorktreeReport>)
    ensures
        sends(r, req.id, worktree_cleanup(works@, req.params@, *stored)),
{
    let work_id: String = match req.params.text("work_id") {
        Some(id) => id,
        None => {
            return Errand::Done(
                Outcome::refuse(req.id, RpcError::invalid_params("work_id is required")),
            );
        },
    };
    match find_missing(works, work_id.as_str(), stored) {
        Some(e) => Errand::Done(Outcome::refuse(req.id, e)),
        None => Errand::Run(work_id),
    }
}

/// The answer once the worktree at a path was removed, or could not be.
pub open spec fn worktree_removed(
    work_id: Seq<char>,
    path: Seq<char>,
    failure: Option<Seq<char>>,
) -> (Reply<WorktreeReportView>, Seq<DaemonEventView>) {
    match failure {
        None => (
            Reply::Value(
                WorktreeReportView { work_id, path: Some(path), status: Some("cleaned"@) },
            ),
            seq![DaemonEventView::WorktreeCleaned { work_id, path }],
        ),
        Some(e) => (Reply::Refused(internal(e)), Seq::empty()),
    }
}

/// Answers a request to remove a worktree once the one at `path` was removed,
/// or could not be.
pub fn settle_worktree_cleanup(id: u64, work_id: String, path: String, failure: Option<String>) -> (r:
    Outcome<WorktreeReport>)
    ensures
        answers(
            r,
            id,
            worktree_removed(work_id@, path@, opt_text(failure)).0,
            worktree_removed(work_id@, path@, opt_text(failure)).1,
        ),
{
    match failure {
        None => {
            let event: DaemonEvent = DaemonEvent::WorktreeCleaned {
                work_id: copy(work_id.as_str()),
                path: copy(path.as_str()),
            };
            Outcome::ok_and_tell(
                id,
                WorktreeReport { work_id, path: Some(path), status: Some(copy("cleaned")) },
                event,
            )
        },
        Some(e) => Outcome::refuse(id, RpcError::internal(e.as_str())),
    }
}

/// The errand of a request to base a worktree anew.
pub open spec fn worktree_refresh(p: Members) -> ErrandView<CheckoutView> {
    match text_of(p, "work_id"@) {
        None => ErrandView::Refused(invalid_params("work_id is required"@)),
        Some(work_id) => ErrandView::Run(
            CheckoutView { work_id, base_ref: text_or(text_of(p, "new_base_ref"@), "HEAD"@) },
        ),
    }
}

/// Takes a request to base a worktree anew.
pub fn handle_worktree_refresh(req: &DaemonRequest) -> (r: Errand<Checkout, WorktreeReport>)
    ensures
        sends(r, req.id, worktree_refresh(req.params@)),
{
    let work_id: String = match req.params.text("work_id") {
        Some(id) => id,
        None => {
            return Errand::Done(
                Outcome::refuse(req.id, RpcError::invalid_params("work_id is required")),
            );
        },
    };
    let base_ref: String = match req.params.text("new_base_ref") {
        Some(base) => base,
        None => copy("HEAD"),
    };
    Errand::Run(Checkout { work_id, base_ref })
}

/// The answer once a worktree was based anew, or could not be.
pub open spec fn worktree_refreshed(work_id: Seq<char>, failure: Option<Seq<char>>) -> Reply<
    WorktreeReportView,
> {
    match failure {
        None => Reply::Value(
            WorktreeReportView { work_id, path: None, status: Some("refreshed"@) },
        ),
        Some(e) => Reply::Refused(internal(e)),
    }
}

/// Answers a request to base a worktree anew once it was, or could not be.
pub fn settle_worktree_refresh(id: u64, job: Checkout, failure: Option<String>) -> (r: Outcome<
    WorktreeReport,
>)
    ensures
        answers(
            r,
            id,
            worktree_refreshed(job.work_id@, opt_text(failure)),
            Seq::empty(),
        ),
{
    match failure {
        None => Outcome::ok(
            id,
            WorktreeReport { work_id: job.work_id, path: None, status: Some(copy("refreshed")) },
        ),
        Some(e) => Outcome::refuse(id, RpcError::internal(e.as_str())),
    }
}

/// Whether the record store or the table has the work item.
pub open spec fn work_exists(
    works: Seq<WorkView>,
    work_id: Seq<char>,
    stored: Stored<Work>,
) -> bool {
    stored is Found || lookup(works, work_id) is Some
}

/// A worktree is made exactly if the request names a work item that exists and
/// has none yet. It is made for that work item, from the commit that the request
/// names, else from the head.
pub proof fn worktrees_are_made_once_for_work_that_exists(
    works: Seq<WorkView>,
    p: Members,
    stored: Stored<Work>,
    exists: bool,
)
    ensures
        ({
            let e = worktree_creation(works, p, stored, exists);
            match text_of(p, "work_id"@) {
                None => e matches ErrandView::Refused(r) && r.code == -32602,
                Some(work_id) => if !work_exists(works, work_id, stored) {
                    e matches ErrandView::Refused(r) && r.code == -32001
                } else if exists {
                    e matches ErrandView::Refused(r) && r.code == -32602
                } else {
                    e matches ErrandView::Run(job) && job.work_id == work_id && job.base_ref == (
                    match text_of(p, "base_ref"@) {
                        Some(base) => base,
                        None => "HEAD"@,
                    })
                },
            }
        }),
{
}

/// A worktree is removed exactly if the request names a work item that exists,
/// and it is that item's. It is based anew wherever the request names a work
/// item, on the commit that the request names, else on the head.
pub proof fn worktrees_are_removed_and_renewed_by_name(
    works: Seq<WorkView>,
    p: Members,
    stored: Stored<Work>,
)
    ensures
        match text_of(p, "work_id"@) {
            None => {
                &&& worktree_cleanup(works, p, stored) matches ErrandView::Refused(r) && r.code
                    == -32602
                &&& worktree_refresh(p) matches ErrandView::Refused(r) && r.code == -32602
            },
            Some(work_id) => {
                &&& work_exists(works, work_id, stored) ==> worktree_cleanup(works, p, stored)
                    == ErrandView::Run(work_id)
                &&& !work_exists(works, work_id, stored) ==> (worktree_cleanup(
                    works,
                    p,
                    stored,
                ) matches ErrandView::Refused(r) && r.code == -32001)
                &&& worktree_refresh(p) matches ErrandView::Run(job) && job.work_id == work_id
                    && job.base_ref == (match text_of(p, "new_base_ref"@) {
                    Some(base) => base,
                    None => "HEAD"@,
                })
            },
        },
{
}

/// What was done to a worktree is answered and told with its work item and its
/// path; what failed is an error, and nobody is told.
pub proof fn errands_are_reported_as_they_went(
    work_id: Seq<char>,
    path: Seq<char>,
    failure: Seq<char>,
)
    ensures
        ({
            let (reply, told) = worktree_made(work_id, Ok(path));
            &&& reply matches Reply::Value(r) && r.work_id == work_id && r.path == Some(path)
                && r.status is None
            &&& told == seq![DaemonEventView::WorktreeCreated { work_id, path }]
        }),
        ({
            let (reply, told) = worktree_removed(work_id, path, None);
            &&& reply matches Reply::Value(r) && r.work_id == work_id && r.path == Some(path)
                && r.status == Some("cleaned"@)
            &&& told == seq![DaemonEventView::WorktreeCleaned { work_id, path }]
        }),
        worktree_refreshed(work_id, None) matches Reply::Value(r) && r.work_id == work_id
            && r.path is None && r.status == Some("refreshed"@),
        worktree_made(work_id, Err(failure)).1.len() == 0,
        worktree_removed(work_id, path, Some(failure)).1.len() == 0,
        worktree_made(work_id, Err(failure)).0 matches Reply::Refused(e) && e.code == -32603
            && e.message == failure,
        worktree_removed(work_id, path, Some(failure)).0 matches Reply::Refused(e) && e.code
            == -32603 && e.message == failure,
        worktree_refreshed(work_id, Some(failure)) matches Reply::Refused(e) && e.code == -32603
            && e.message == failure,
{
}

} // verus!
