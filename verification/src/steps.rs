//! The steps between a request and its answer: what has to be written to the
//! record store first, and what the store has to say.
//!
//! The record store is kept outside this library. A step that needs it names
//! the record to write; the answer follows once the outcome of the write is
//! known. Where the daemon runs without a record store every write counts as
//! done.

use crate::params::text_of;
use crate::protocol::{
    answers, events_view, internal, invalid_params, not_found, DaemonEvent, DaemonEventView,
    DaemonRequest, DaemonResponse, Outcome, Reply, RpcError,
};
use crate::records::{Phase, PhaseView, Spec, SpecView, Work, WorkView};
use crate::table::{
    distinct, filter_holds_those, full_filter, holds_those, lookup, put, put_then_lookup, Keyed,
    Record, Table,
};
use crate::text::same;
use vstd::prelude::*;

verus! {

/// A record that has to be written before the request is answered.
#[derive(Debug)]
pub struct Pending<R> {
    /// The id of the request.
    pub request: u64,
    /// The record to write.
    pub record: R,
    /// What clients are told once it is written.
    pub events: Vec<DaemonEvent>,
}

/// The next step of a request.
#[derive(Debug)]
pub enum Step<R> {
    /// The request is answered.
    Reply(Outcome<R>),
    /// A record has to be written first.
    Persist(Pending<R>),
}

/// The next step of a request.
pub enum StepView<V> {
    Reply(Reply<V>, Seq<DaemonEventView>),
    Persist(V, Seq<DaemonEventView>),
}

/// Whether the request `id` takes the step `v`.
pub open spec fn takes<R: View>(s: Step<R>, id: u64, v: StepView<<R as View>::V>) -> bool {
    match v {
        StepView::Reply(reply, events) => s is Reply && answers(s->Reply_0, id, reply, events),
        StepView::Persist(rec, events) => s is Persist && s->Persist_0.request == id
            && s->Persist_0.record@ == rec && events_view(s->Persist_0.events@) == events,
    }
}

/// Whether the request is refused at once with an error of the code, and nobody
/// else is told.
pub open spec fn is_refused_with<V>(step: StepView<V>, code: int) -> bool {
    match step {
        StepView::Reply(Reply::Refused(e), told) => e.code == code && told.len() == 0,
        _ => false,
    }
}

/// The answer once a write has come to an end.
pub open spec fn settled<V>(rec: V, written: Result<(), Seq<char>>) -> Reply<V> {
    match written {
        Ok(_) => Reply::Value(rec),
        Err(e) => Reply::Refused(internal(e)),
    }
}

/// What clients are told once a write has come to an end.
pub open spec fn settled_events(
    events: Seq<DaemonEventView>,
    written: Result<(), Seq<char>>,
) -> Seq<DaemonEventView> {
    match written {
        Ok(_) => events,
        Err(_) => Seq::empty(),
    }
}

/// The outcome of a write, its error by its text.
pub open spec fn write_view(written: Result<(), String>) -> Result<(), Seq<char>> {
    match written {
        Ok(_) => Ok(()),
        Err(e) => Err(e@),
    }
}

/// A step that refuses the request.
pub fn refuse<R: View>(id: u64, error: RpcError) -> (r: Step<R>)
    ensures
        takes(r, id, StepView::Reply(Reply::Refused(error@), Seq::empty())),
{
    Step::Reply(Outcome::refuse(id, error))
}

/// A step that writes a record and then tells of one event.
pub fn persist<R: View>(id: u64, record: R, event: DaemonEvent) -> (r: Step<R>)
    ensures
        takes(r, id, StepView::Persist(record@, seq![event@])),
{
    let mut events: Vec<DaemonEvent> = Vec::new();
    events.push(event);
    assert(events_view(events@) =~= seq![event@]);
    Step::Persist(Pending { request: id, record, events })
}

/// Answers a request that changed a record, once the record was written or not.
pub fn settle<R: View>(p: Pending<R>, written: Result<(), String>) -> (r: Outcome<R>)
    ensures
        answers(
            r,
            p.request,
            settled(p.record@, write_view(written)),
            settled_events(events_view(p.events@), write_view(written)),
        ),
{
    match written {
        Ok(_) => Outcome { response: DaemonResponse::ok(p.request, p.record), events: p.events },
        Err(e) => Outcome::refuse(p.request, RpcError::internal(e.as_str())),
    }
}

/// Answers a request that made a record, once the record was written or not:
/// only a record that was written joins the table.
pub fn settle_created<R: Record>(
    table: &mut Table<R>,
    p: Pending<R>,
    written: Result<(), String>,
) -> (r: Outcome<R>) where <R as View>::V: Keyed
    ensures
        answers(
            r,
            p.request,
            settled(p.record@, write_view(written)),
            settled_events(events_view(p.events@), write_view(written)),
        ),
        final(table)@ == (if written is Ok {
            put(old(table)@, p.record@)
        } else {
            old(table)@
        }),
{
    match written {
        Ok(_) => {
            table.put(p.record.copied());
            Outcome { response: DaemonResponse::ok(p.request, p.record), events: p.events }
        },
        Err(e) => Outcome::refuse(p.request, RpcError::internal(e.as_str())),
    }
}

/// What the record store has under an id.
#[derive(Debug)]
pub enum Stored<R> {
    /// There is no record store.
    NoStore,
    /// The record.
    Found(R),
    /// No record.
    Missing,
    /// The store could not be read.
    Failed(String),
}

/// The answer to a request for the record under the id that the parameters
/// give: the store's record if it has one, else the table's.
pub open spec fn fetched<R: Record>(
    kind: Seq<char>,
    rows: Seq<<R as View>::V>,
    id: Option<Seq<char>>,
    stored: Stored<R>,
) -> Reply<<R as View>::V> where <R as View>::V: Keyed {
    match id {
        None => Reply::Refused(invalid_params("id is required"@)),
        Some(id) => match stored {
            Stored::Found(rec) => Reply::Value(rec@),
            Stored::Failed(e) => Reply::Refused(internal(e@)),
            _ => match lookup(rows, id) {
                Some(rec) => Reply::Value(rec),
                None => Reply::Refused(not_found(kind, id)),
            },
        },
    }
}

/// Answers a request for one record of a kind.
pub fn fetch<R: Record>(
    kind: &str,
    table: &Table<R>,
    req: &DaemonRequest,
    stored: Stored<R>,
) -> (r: Outcome<R>) where <R as View>::V: Keyed
    ensures
        answers(
            r,
            req.id,
            fetched(kind@, table@, text_of(req.params@, "id"@), stored),
            Seq::empty(),
        ),
{
    let id: String = match req.params.text("id") {
        Some(id) => id,
        None => {
            return Outcome::refuse(req.id, RpcError::invalid_params("id is required"));
        },
    };
    match stored {
        Stored::Found(rec) => {
            return Outcome::ok(req.id, rec);
        },
        Stored::Failed(e) => {
            return Outcome::refuse(req.id, RpcError::internal(e.as_str()));
        },
        Stored::Missing => {},
        Stored::NoStore => {},
    }
    match table.get(id.as_str()) {
        Some(rec) => Outcome::ok(req.id, rec.copied()),
        None => Outcome::refuse(req.id, RpcError::not_found(kind, id.as_str())),
    }
}

/// What the record store lists.
#[derive(Debug)]
pub enum StoredList<R> {
    /// There is no record store.
    NoStore,
    /// The records that match.
    Listed(Vec<R>),
    /// The store could not be read.
    Failed(String),
}

/// A list of records.
#[derive(Debug)]
pub struct Listing<R> {
    pub rows: Vec<R>,
}

impl<R: View> View for Listing<R> {
    type V = Seq<<R as View>::V>;

    open spec fn view(&self) -> Seq<<R as View>::V> {
        self.rows@.map_values(|r: R| r@)
    }
}

/// The view of a record that stands under another one.
pub trait ChildView {
    /// The id of the record above.
    spec fn parent(self) -> Seq<char>;
}

/// A record that stands under another one.
pub trait Child: Record where <Self as View>::V: Keyed + ChildView {
    /// The id of the record above.
    fn parent_id(&self) -> (r: &str)
        ensures
            r@ == self@.parent(),
    ;
}

impl ChildView for SpecView {
    open spec fn parent(self) -> Seq<char> {
        self.parent_id
    }
}

impl Child for Spec {
    fn parent_id(&self) -> (r: &str) {
        self.parent_id.as_str()
    }
}

impl ChildView for PhaseView {
    open spec fn parent(self) -> Seq<char> {
        self.parent_id
    }
}

impl Child for Phase {
    fn parent_id(&self) -> (r: &str) {
        self.parent_id.as_str()
    }
}

impl ChildView for WorkView {
    open spec fn parent(self) -> Seq<char> {
        self.parent_id
    }
}

impl Child for Work {
    fn parent_id(&self) -> (r: &str) {
        self.parent_id.as_str()
    }
}

/// The rows under the given parent, or all of them, in their order.
pub open spec fn children<V: ChildView>(rows: Seq<V>, parent: Option<Seq<char>>) -> Seq<V> {
    rows.filter(|v: V| parent is None || v.parent() == parent->0)
}

/// The answer to a request for a list: what the store lists, else what the
/// table holds.
pub open spec fn listed<R: View>(
    rows: Seq<<R as View>::V>,
    stored: StoredList<R>,
) -> Reply<Seq<<R as View>::V>> {
    match stored {
        StoredList::Listed(v) => Reply::Value(v@.map_values(|r: R| r@)),
        StoredList::Failed(e) => Reply::Refused(internal(e@)),
        StoredList::NoStore => Reply::Value(rows),
    }
}

/// The rows of a table, in their order.
pub fn all_rows<R: Record>(table: &Table<R>) -> (r: Vec<R>) where <R as View>::V: Keyed
    ensures
        r@.map_values(|x: R| x@) == table@,
{
    let n: usize = table.len();
    let mut r: Vec<R> = Vec::new();
    let mut i: usize = 0;
    while i < n
        invariant
            n == table@.len(),
            i <= n,
            r@.len() == i,
            forall|j: int| 0 <= j < i ==> (#[trigger] r@[j])@ == table@[j],
        decreases n - i,
    {
        r.push(table.row(i).copied());
        i = i + 1;
    }
    assert(r@.map_values(|x: R| x@) =~= table@);
    r
}

/// The rows of a table under the given parent, or all of them.
pub fn rows_under<R: Child>(table: &Table<R>, parent: &Option<String>) -> (r: Vec<R>) where
    <R as View>::V: Keyed + ChildView,

    ensures
        r@.map_values(|x: R| x@) == children(table@, crate::text::opt_text(*parent)),
{
    let ghost p = crate::text::opt_text(*parent);
    let ghost keep = |v: <R as View>::V| p is None || v.parent() == p->0;
    let n: usize = table.len();
    let mut r: Vec<R> = Vec::new();
    let mut i: usize = 0;
    proof {
        reveal(Seq::filter);
        assert(table@.take(0) =~= Seq::empty());
        assert(r@.map_values(|x: R| x@) =~= Seq::empty());
    }
    while i < n
        invariant
            n == table@.len(),
            i <= n,
            p == crate::text::opt_text(*parent),
            keep == (|v: <R as View>::V| p is None || v.parent() == p->0),
            r@.map_values(|x: R| x@) == table@.take(i as int).filter(keep),
        decreases n - i,
    {
        let ghost before = r@.map_values(|x: R| x@);
        let rec: &R = table.row(i);
        let fits: bool = match parent {
            None => true,
            Some(id) => same(rec.parent_id(), id.as_str()),
        };
        proof {
            reveal(Seq::filter);
            assert(table@.take(i + 1).drop_last() =~= table@.take(i as int));
            assert(table@.take(i + 1).last() == rec@);
            assert(fits == keep(rec@));
        }
        if fits {
            r.push(rec.copied());
            assert(r@.map_values(|x: R| x@) =~= before.push(rec@));
        }
        i = i + 1;
    }
    assert(table@.take(n as int) =~= table@);
    r
}

/// Answers a request for the records under a parent, or all of a kind. The
/// parameter `parent_id` names the parent.
pub fn list_children<R: Child>(
    table: &Table<R>,
    req: &DaemonRequest,
    stored: StoredList<R>,
) -> (r: Outcome<Listing<R>>) where <R as View>::V: Keyed + ChildView
    ensures
        answers(
            r,
            req.id,
            listed(children(table@, text_of(req.params@, "parent_id"@)), stored),
            Seq::empty(),
        ),
{
    match stored {
        StoredList::Listed(rows) => Outcome::ok(req.id, Listing { rows }),
        StoredList::Failed(e) => Outcome::refuse(req.id, RpcError::internal(e.as_str())),
        StoredList::NoStore => {
            let parent: Option<String> = req.params.text("parent_id");
            Outcome::ok(req.id, Listing { rows: rows_under(table, &parent) })
        },
    }
}

/// A record that was made and written is found under its id afterwards, where
/// the record store has nothing else to say; records under other ids are as
/// they were.
pub proof fn created_record_is_fetched<R: Record>(
    kind: Seq<char>,
    rows: Seq<<R as View>::V>,
    rec: <R as View>::V,
    id: Seq<char>,
) where <R as View>::V: Keyed
    requires
        distinct(rows),
    ensures
        fetched::<R>(kind, put(rows, rec), Some(rec.key()), Stored::NoStore) == Reply::Value(rec),
        fetched::<R>(kind, put(rows, rec), Some(rec.key()), Stored::Missing) == Reply::Value(rec),
        id != rec.key() ==> fetched::<R>(kind, put(rows, rec), Some(id), Stored::NoStore)
            == fetched::<R>(kind, rows, Some(id), Stored::NoStore),
{
    put_then_lookup(rows, rec, rec.key());
    put_then_lookup(rows, rec, id);
}

/// A list under a parent holds exactly the records that stand under it; a list
/// that names no parent holds them all.
pub proof fn lists_hold_what_stands_under_the_parent<V: ChildView>(
    rows: Seq<V>,
    parent: Seq<char>,
)
    ensures
        holds_those(rows, |v: V| v.parent() == parent, children(rows, Some(parent))),
        children(rows, None) == rows,
{
    let p = Some(parent);
    filter_holds_those(
        rows,
        |v: V| p is None || v.parent() == p->0,
        |v: V| v.parent() == parent,
    );
    let none = Option::<Seq<char>>::None;
    full_filter(rows, |v: V| none is None || v.parent() == none->0);
}

/// What a spec, a phase or a work item stands under is the record whose id it
/// names.
pub proof fn records_stand_under_their_parents(s: SpecView, phase: PhaseView, w: WorkView)
    ensures
        s.parent() == s.parent_id,
        phase.parent() == phase.parent_id,
        w.parent() == w.parent_id,
{
}

/// The record store has the first word on a record: what it finds is the answer,
/// and where it fails there is none, whatever the table holds. Where it has
/// nothing, or there is no store, the table answers, and a record it does not
/// know is not found.
pub proof fn the_store_is_asked_before_the_table<R: Record>(
    kind: Seq<char>,
    rows: Seq<<R as View>::V>,
    id: Seq<char>,
    rec: R,
    failure: String,
) where <R as View>::V: Keyed
    ensures
        fetched::<R>(kind, rows, Some(id), Stored::Found(rec)) == Reply::Value(rec@),
        fetched::<R>(kind, rows, Some(id), Stored::Failed(failure)) matches Reply::Refused(e)
            && e.code == -32603 && e.message == failure@,
        forall|stored: Stored<R>|
            stored is NoStore || stored is Missing ==> match lookup(rows, id) {
                Some(row) => #[trigger] fetched::<R>(kind, rows, Some(id), stored) == Reply::Value(
                    row,
                ),
                None => fetched::<R>(kind, rows, Some(id), stored) matches Reply::Refused(e)
                    && e.code == -32001,
            },
        forall|stored: Stored<R>|
            (#[trigger] fetched::<R>(kind, rows, None, stored)) matches Reply::Refused(e) && e.code
                == -32602,
{
}

/// The record store has the first word on a list, too: what it lists is the
/// answer, and where it fails there is none; without a store the table answers.
pub proof fn the_store_lists_before_the_table<R: View>(
    rows: Seq<<R as View>::V>,
    found: Vec<R>,
    failure: String,
    i: int,
)
    requires
        0 <= i < found@.len(),
    ensures
        listed::<R>(rows, StoredList::NoStore) == Reply::Value(rows),
        listed::<R>(rows, StoredList::Listed(found)) matches Reply::Value(v) && v.len()
            == found@.len() && v[i] == found@[i]@,
        listed::<R>(rows, StoredList::Failed(failure)) matches Reply::Refused(e) && e.code == -32603
            && e.message == failure@,
{
}

/// What was written is answered with, and everybody is told. What could not be
/// written is an error, and nobody is told.
pub proof fn only_what_is_written_is_told<V>(
    rec: V,
    events: Seq<DaemonEventView>,
    failure: Seq<char>,
)
    ensures
        settled(rec, Ok(())) == Reply::Value(rec),
        settled_events(events, Ok(())) == events,
        settled(rec, Err(failure)) matches Reply::Refused(e) && e.code == -32603 && e.message
            == failure,
        settled_events(events, Err(failure)).len() == 0,
{
}

} // verus!
