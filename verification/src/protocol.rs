//! Requests, responses and events of the daemon.

use crate::params::Params;
use crate::status::Role;
use crate::text::{copy, joined};
use vstd::prelude::*;
use vstd::string::*;

verus! {

/// Why a request was refused.
#[derive(Debug)]
pub struct RpcError {
    pub code: i32,
    pub message: String,
}

#[verifier::ext_equal]
pub struct RpcErrorView {
    pub code: int,
    pub message: Seq<char>,
}

impl View for RpcError {
    type V = RpcErrorView;

    open spec fn view(&self) -> RpcErrorView {
        RpcErrorView { code: self.code as int, message: self.message@ }
    }
}

/// A move between stages that the rules do not allow.
pub open spec fn transition_rejected(reason: Seq<char>) -> RpcErrorView {
    RpcErrorView { code: -32000, message: reason }
}

/// No record of the kind under the id.
pub open spec fn not_found(kind: Seq<char>, id: Seq<char>) -> RpcErrorView {
    RpcErrorView { code: -32001, message: kind + " not found: "@ + id }
}

/// The records are in no state for the request.
pub open spec fn precondition_failed(reason: Seq<char>) -> RpcErrorView {
    RpcErrorView { code: -32005, message: reason }
}

/// No such method.
pub open spec fn method_not_found(method: Seq<char>) -> RpcErrorView {
    RpcErrorView { code: -32601, message: "method not found: "@ + method }
}

/// Parameters that are missing or cannot be used.
pub open spec fn invalid_params(reason: Seq<char>) -> RpcErrorView {
    RpcErrorView { code: -32602, message: reason }
}

/// Something went wrong inside the daemon.
pub open spec fn internal(reason: Seq<char>) -> RpcErrorView {
    RpcErrorView { code: -32603, message: reason }
}

impl RpcError {
    /// A move between stages that the rules do not allow.
    pub fn transition_rejected(reason: &str) -> (r: Self)
        ensures
            r@ == transition_rejected(reason@),
    {
        RpcError { code: -32000, message: copy(reason) }
    }

    /// No record of the kind under the id.
    pub fn not_found(kind: &str, id: &str) -> (r: Self)
        ensures
            r@ == not_found(kind@, id@),
    {
        let mut message: String = joined(kind, " not found: ");
        message.append(id);
        RpcError { code: -32001, message }
    }

    /// The records are in no state for the request.
    pub fn precondition_failed(reason: &str) -> (r: Self)
        ensures
            r@ == precondition_failed(reason@),
    {
        RpcError { code: -32005, message: copy(reason) }
    }

    /// No such method.
    pub fn method_not_found(method: &str) -> (r: Self)
        ensures
            r@ == method_not_found(method@),
    {
        RpcError { code: -32601, message: joined("method not found: ", method) }
    }

    /// Parameters that are missing or cannot be used.
    pub fn invalid_params(reason: &str) -> (r: Self)
        ensures
            r@ == invalid_params(reason@),
    {
        RpcError { code: -32602, message: copy(reason) }
    }

    /// Something went wrong inside the daemon.
    pub fn internal(reason: &str) -> (r: Self)
        ensures
            r@ == internal(reason@),
    {
        RpcError { code: -32603, message: copy(reason) }
    }
}

/// A request.
#[derive(Debug)]
pub struct DaemonRequest {
    pub id: u64,
    pub method: String,
    pub params: Params,
}

impl DaemonRequest {
    /// A request of the method with the parameters that a JSON text spells.
    pub fn new(id: u64, method: &str, params: &str) -> (r: Self)
        ensures
            r.id == id,
            r.method@ == method@,
            r.params@ == crate::params::spelled_params(params@),
    {
        DaemonRequest { id, method: copy(method), params: Params::parse(params) }
    }
}

/// The answer to a request: a result, an error, or neither where there is
/// nothing to tell.
#[derive(Debug)]
pub struct DaemonResponse<T> {
    pub id: u64,
    pub result: Option<T>,
    pub error: Option<RpcError>,
}

impl<T> DaemonResponse<T> {
    /// The request was carried out, with this result.
    pub fn ok(id: u64, result: T) -> (r: Self)
        ensures
            r.id == id,
            r.result == Some(result),
            r.error is None,
    {
        DaemonResponse { id, result: Some(result), error: None }
    }

    /// The request was carried out and left nothing to tell.
    pub fn null(id: u64) -> (r: Self)
        ensures
            r.id == id,
            r.result is None,
            r.error is None,
    {
        DaemonResponse { id, result: None, error: None }
    }

    /// The request was refused.
    pub fn err(id: u64, error: RpcError) -> (r: Self)
        ensures
            r.id == id,
            r.result is None,
            r.error == Some(error),
    {
        DaemonResponse { id, result: None, error: Some(error) }
    }

    /// Whether the request was refused.
    pub fn is_error(&self) -> (r: bool)
        ensures
            r == (self.error is Some),
    {
        self.error.is_some()
    }
}

/// Who moved a record.
#[derive(Clone, Copy, Debug, PartialEq, Eq, Structural)]
pub enum Actor {
    /// A client in this role.
    Role(Role),
    /// The daemon itself.
    System,
}

/// Something that clients are told of.
#[derive(Debug)]
pub enum DaemonEvent {
    RecordCreated { collection: String, id: String },
    RecordUpdated { collection: String, id: String },
    TransitionCompleted { collection: String, id: String, from: String, to: String, by: Actor },
    TransitionRejected {
        collection: String,
        id: String,
        from: String,
        to: String,
        by: Actor,
        reason: String,
    },
    WorkOverridden { work_id: String, from: String, to: String, reason: String },
    WorktreeCreated { work_id: String, path: String },
    WorktreeCleaned { work_id: String, path: String },
    ShutdownRequested,
    ShuttingDown,
}

/// Something that clients are told of.
pub enum DaemonEventView {
    RecordCreated { collection: Seq<char>, id: Seq<char> },
    RecordUpdated { collection: Seq<char>, id: Seq<char> },
    TransitionCompleted {
        collection: Seq<char>,
        id: Seq<char>,
        from: Seq<char>,
        to: Seq<char>,
        by: Actor,
    },
    TransitionRejected {
        collection: Seq<char>,
        id: Seq<char>,
        from: Seq<char>,
        to: Seq<char>,
        by: Actor,
        reason: Seq<char>,
    },
    WorkOverridden { work_id: Seq<char>, from: Seq<char>, to: Seq<char>, reason: Seq<char> },
    WorktreeCreated { work_id: Seq<char>, path: Seq<char> },
    WorktreeCleaned { work_id: Seq<char>, path: Seq<char> },
    ShutdownRequested,
    ShuttingDown,
}

impl View for DaemonEvent {
    type V = DaemonEventView;

    open spec fn view(&self) -> DaemonEventView {
        match *self {
            DaemonEvent::RecordCreated { collection, id } => DaemonEventView::RecordCreated {
                collection: collection@,
                id: id@,
            },
            DaemonEvent::RecordUpdated { collection, id } => DaemonEventView::RecordUpdated {
                collection: collection@,
                id: id@,
            },
            DaemonEvent::TransitionCompleted {
                collection,
                id,
                from,
                to,
                by,
            } => DaemonEventView::TransitionCompleted {
                collection: collection@,
                id: id@,
                from: from@,
                to: to@,
                by,
            },
            DaemonEvent::TransitionRejected {
                collection,
                id,
                from,
                to,
                by,
                reason,
            } => DaemonEventView::TransitionRejected {
                collection: collection@,
                id: id@,
                from: from@,
                to: to@,
                by,
                reason: reason@,
            },
            DaemonEvent::WorkOverridden {
                work_id,
                from,
                to,
                reason,
            } => DaemonEventView::WorkOverridden {
                work_id: work_id@,
                from: from@,
                to: to@,
                reason: reason@,
            },
            DaemonEvent::WorktreeCreated { work_id, path } => DaemonEventView::WorktreeCreated {
                work_id: work_id@,
                path: path@,
            },
            DaemonEvent::WorktreeCleaned { work_id, path } => DaemonEventView::WorktreeCleaned {
                work_id: work_id@,
                path: path@,
            },
            DaemonEvent::ShutdownRequested => DaemonEventView::ShutdownRequested,
            DaemonEvent::ShuttingDown => DaemonEventView::ShuttingDown,
        }
    }
}

/// What clients are told, in order.
pub open spec fn events_view(v: Seq<DaemonEvent>) -> Seq<DaemonEventView> {
    v.map_values(|e: DaemonEvent| e@)
}

impl DaemonEventView {
    /// The name of the event.
    pub open spec fn title(self) -> Seq<char> {
        match self {
            DaemonEventView::RecordCreated { .. } => "record.created"@,
            DaemonEventView::RecordUpdated { .. } => "record.updated"@,
            DaemonEventView::TransitionCompleted { .. } => "transition.completed"@,
            DaemonEventView::TransitionRejected { .. } => "transition.rejected"@,
            DaemonEventView::WorkOverridden { .. } => "work.override_transition"@,
            DaemonEventView::WorktreeCreated { .. } => "worktree.created"@,
            DaemonEventView::WorktreeCleaned { .. } => "worktree.cleaned"@,
            DaemonEventView::ShutdownRequested => "system.shutdown"@,
            DaemonEventView::ShuttingDown => "system.shutting_down"@,
        }
    }
}

impl DaemonEvent {
    /// The name of the event.
    pub fn name(&self) -> (r: &'static str)
        ensures
            r@ == self@.title(),
    {
        match self {
            DaemonEvent::RecordCreated { .. } => "record.created",
            DaemonEvent::RecordUpdated { .. } => "record.updated",
            DaemonEvent::TransitionCompleted { .. } => "transition.completed",
            DaemonEvent::TransitionRejected { .. } => "transition.rejected",
            DaemonEvent::WorkOverridden { .. } => "work.override_transition",
            DaemonEvent::WorktreeCreated { .. } => "worktree.created",
            DaemonEvent::WorktreeCleaned { .. } => "worktree.cleaned",
            DaemonEvent::ShutdownRequested => "system.shutdown",
            DaemonEvent::ShuttingDown => "system.shutting_down",
        }
    }

    /// A record was created.
    pub fn record_created(collection: &str, id: &str) -> (r: Self)
        ensures
            r@ == (DaemonEventView::RecordCreated { collection: collection@, id: id@ }),
    {
        DaemonEvent::RecordCreated { collection: copy(collection), id: copy(id) }
    }

    /// A record was updated.
    pub fn record_updated(collection: &str, id: &str) -> (r: Self)
        ensures
            r@ == (DaemonEventView::RecordUpdated { collection: collection@, id: id@ }),
    {
        DaemonEvent::RecordUpdated { collection: copy(collection), id: copy(id) }
    }

    /// A record moved to another stage.
    pub fn transition_completed(collection: &str, id: &str, from: &str, to: &str, by: Actor) -> (r:
        Self)
        ensures
            r@ == (DaemonEventView::TransitionCompleted {
                collection: collection@,
                id: id@,
                from: from@,
                to: to@,
                by,
            }),
    {
        DaemonEvent::TransitionCompleted {
            collection: copy(collection),
            id: copy(id),
            from: copy(from),
            to: copy(to),
            by,
        }
    }

    /// A record was not moved, for the reason given.
    pub fn transition_rejected(
        collection: &str,
        id: &str,
        from: &str,
        to: &str,
        by: Actor,
        reason: &str,
    ) -> (r: Self)
        ensures
            r@ == (DaemonEventView::TransitionRejected {
                collection: collection@,
                id: id@,
                from: from@,
                to: to@,
                by,
                reason: reason@,
            }),
    {
        DaemonEvent::TransitionRejected {
            collection: copy(collection),
            id: copy(id),
            from: copy(from),
            to: copy(to),
            by,
            reason: copy(reason),
        }
    }
}

/// The answer to a request, with what clients are told of it.
#[derive(Debug)]
pub struct Outcome<T> {
    pub response: DaemonResponse<T>,
    pub events: Vec<DaemonEvent>,
}

/// What a request is answered with.
pub enum Reply<V> {
    /// A result.
    Value(V),
    /// Nothing to tell.
    Null,
    /// An error.
    Refused(RpcErrorView),
}

/// Whether the outcome answers the request `id` with `reply` and tells of `events`.
pub open spec fn answers<T: View>(
    o: Outcome<T>,
    id: u64,
    reply: Reply<<T as View>::V>,
    events: Seq<DaemonEventView>,
) -> bool {
    &&& o.response.id == id
    &&& events_view(o.events@) == events
    &&& match reply {
        Reply::Value(v) => o.response.error is None && o.response.result is Some
            && o.response.result->0@ == v,
        Reply::Null => o.response.error is None && o.response.result is None,
        Reply::Refused(e) => o.response.result is None && o.response.error is Some
            && o.response.error->0@ == e,
    }
}

impl<T> Outcome<T> {
    /// The request was carried out; nobody else is told.
    pub fn ok(id: u64, result: T) -> (r: Self)
        ensures
            r.response.id == id,
            r.response.result == Some(result),
            r.response.error is None,
            events_view(r.events@) == Seq::<DaemonEventView>::empty(),
    {
        let r = Outcome { response: DaemonResponse::ok(id, result), events: Vec::new() };
        assert(events_view(r.events@) =~= Seq::empty());
        r
    }

    /// The request was carried out, and clients are told of it.
    pub fn ok_and_tell(id: u64, result: T, event: DaemonEvent) -> (r: Self)
        ensures
            r.response.id == id,
            r.response.result == Some(result),
            r.response.error is None,
            events_view(r.events@) == seq![event@],
    {
        let mut events: Vec<DaemonEvent> = Vec::new();
        events.push(event);
        assert(events_view(events@) =~= seq![event@]);
        Outcome { response: DaemonResponse::ok(id, result), events }
    }

    /// The request was refused; nobody else is told.
    pub fn refuse(id: u64, error: RpcError) -> (r: Self)
        ensures
            r.response.id == id,
            r.response.result is None,
            r.response.error == Some(error),
            events_view(r.events@) == Seq::<DaemonEventView>::empty(),
    {
        let r = Outcome { response: DaemonResponse::err(id, error), events: Vec::new() };
        assert(events_view(r.events@) =~= Seq::empty());
        r
    }

    /// The request was refused, and clients are told of it.
    pub fn refuse_and_tell(id: u64, error: RpcError, event: DaemonEvent) -> (r: Self)
        ensures
            r.response.id == id,
            r.response.result is None,
            r.response.error == Some(error),
            events_view(r.events@) == seq![event@],
    {
        let mut events: Vec<DaemonEvent> = Vec::new();
        events.push(event);
        assert(events_view(events@) =~= seq![event@]);
        Outcome { response: DaemonResponse::err(id, error), events }
    }

    /// The request was carried out and left nothing to tell.
    pub fn null(id: u64) -> (r: Self)
        ensures
            r.response.id == id,
            r.response.result is None,
            r.response.error is None,
            events_view(r.events@) == Seq::<DaemonEventView>::empty(),
    {
        let r = Outcome { response: DaemonResponse::null(id), events: Vec::new() };
        assert(events_view(r.events@) =~= Seq::empty());
        r
    }
}

/// Each kind of refusal has a code of its own and says what it is about.
pub proof fn refusals_are_told_apart(a: Seq<char>, b: Seq<char>)
    ensures
        transition_rejected(a).code == -32000 && transition_rejected(a).message == a,
        not_found(a, b).code == -32001 && a.is_prefix_of(not_found(a, b).message),
        not_found(a, b).message == a + " not found: "@ + b,
        precondition_failed(a).code == -32005 && precondition_failed(a).message == a,
        method_not_found(a).code == -32601 && method_not_found(a).message == "method not found: "@
            + a,
        invalid_params(a).code == -32602 && invalid_params(a).message == a,
        internal(a).code == -32603 && internal(a).message == a,
{
    assert(a =~= not_found(a, b).message.take(a.len() as int));
}

/// An answer has a result or an error, never both, and bears the id of its
/// request.
pub proof fn answers_have_one_side<T: View>(
    o: Outcome<T>,
    id: u64,
    reply: Reply<<T as View>::V>,
    events: Seq<DaemonEventView>,
)
    requires
        answers(o, id, reply, events),
    ensures
        o.response.id == id,
        !(o.response.result is Some && o.response.error is Some),
        o.response.error is Some <==> reply is Refused,
        o.response.result is Some <==> reply is Value,
        reply matches Reply::Value(v) ==> o.response.result->0@ == v,
        reply matches Reply::Refused(e) ==> o.response.error->0@ == e,
        o.events@.len() == events.len(),
        forall|i: int| 0 <= i < events.len() ==> o.events@[i]@ == #[trigger] events[i],
{
    assert(events_view(o.events@).len() == events.len());
    assert forall|i: int| 0 <= i < events.len() implies o.events@[i]@ == #[trigger] events[i] by {
        assert(events_view(o.events@)[i] == o.events@[i]@);
    }
}

/// Events go by what happened, whatever it happened to.
pub proof fn events_go_by_what_happened(
    a: Seq<char>,
    b: Seq<char>,
    from: Seq<char>,
    to: Seq<char>,
    by: Actor,
    reason: Seq<char>,
)
    ensures
        (DaemonEventView::RecordCreated { collection: a, id: b }).title() == "record.created"@,
        (DaemonEventView::RecordUpdated { collection: a, id: b }).title() == "record.updated"@,
        (DaemonEventView::TransitionCompleted { collection: a, id: b, from, to, by }).title()
            == "transition.completed"@,
        (DaemonEventView::TransitionRejected { collection: a, id: b, from, to, by, reason }).title()
            == "transition.rejected"@,
        (DaemonEventView::WorkOverridden { work_id: a, from, to, reason }).title()
            == "work.override_transition"@,
        (DaemonEventView::WorktreeCreated { work_id: a, path: b }).title() == "worktree.created"@,
        (DaemonEventView::WorktreeCleaned { work_id: a, path: b }).title() == "worktree.cleaned"@,
        DaemonEventView::ShutdownRequested.title() == "system.shutdown"@,
        DaemonEventView::ShuttingDown.title() == "system.shutting_down"@,
{
}

} // verus!
