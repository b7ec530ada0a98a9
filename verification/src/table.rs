//! Tables of records, each record under an id of its own.

use crate::text::same;
use vstd::prelude::*;

verus! {

/// What the view of a record tells about its identity.
pub trait Keyed: Sized {
    /// The id of the record.
    spec fn key(self) -> Seq<char>;
}

/// A record that a table can hold.
pub trait Record: View + Sized where <Self as View>::V: Keyed {
    /// The id of the record.
    fn id(&self) -> (r: &str)
        ensures
            r@ == self@.key(),
    ;

    /// Another record with the same contents.
    fn copied(&self) -> (r: Self)
        ensures
            r@ == self@,
    ;
}

/// Whether some row has the id.
pub open spec fn known<V: Keyed>(rows: Seq<V>, id: Seq<char>) -> bool {
    exists|i: int| 0 <= i < rows.len() && (#[trigger] rows[i]).key() == id
}

/// The index of a row that has the id.
pub open spec fn place<V: Keyed>(rows: Seq<V>, id: Seq<char>) -> int {
    choose|i: int| 0 <= i < rows.len() && (#[trigger] rows[i]).key() == id
}

/// No id occurs twice.
pub open spec fn distinct<V: Keyed>(rows: Seq<V>) -> bool {
    forall|i: int, j: int|
        0 <= i < j < rows.len() ==> (#[trigger] rows[i]).key() != (#[trigger] rows[j]).key()
}

/// The row under the id, if there is one.
pub open spec fn lookup<V: Keyed>(rows: Seq<V>, id: Seq<char>) -> Option<V> {
    if known(rows, id) {
        Some(rows[place(rows, id)])
    } else {
        None
    }
}

/// The rows once `v` stands under its id: in the place of the row that had the
/// id, else at the end.
pub open spec fn put<V: Keyed>(rows: Seq<V>, v: V) -> Seq<V> {
    if known(rows, v.key()) {
        rows.update(place(rows, v.key()), v)
    } else {
        rows.push(v)
    }
}

/// A row is found under its id, in its own place.
pub proof fn row_is_found<V: Keyed>(rows: Seq<V>, i: int)
    requires
        distinct(rows),
        0 <= i < rows.len(),
    ensures
        known(rows, rows[i].key()),
        place(rows, rows[i].key()) == i,
        lookup(rows, rows[i].key()) == Some(rows[i]),
{
    let p = place(rows, rows[i].key());
    assert(rows[p].key() == rows[i].key());
    if p < i {
    } else if i < p {
    }
}

/// Ids stay distinct whatever is put.
pub proof fn put_keeps_distinct<V: Keyed>(rows: Seq<V>, v: V)
    requires
        distinct(rows),
    ensures
        distinct(put(rows, v)),
{
    let after = put(rows, v);
    if known(rows, v.key()) {
        let p = place(rows, v.key());
        assert(rows[p].key() == v.key());
        assert forall|i: int, j: int| 0 <= i < j < after.len() implies (#[trigger] after[i]).key()
            != (#[trigger] after[j]).key() by {
            assert(rows[i].key() != rows[j].key());
        }
    }
}

/// What was put under an id is found there, and nothing else has moved.
pub proof fn put_then_lookup<V: Keyed>(rows: Seq<V>, v: V, id: Seq<char>)
    requires
        distinct(rows),
    ensures
        lookup(put(rows, v), id) == (if id == v.key() {
            Some(v)
        } else {
            lookup(rows, id)
        }),
        known(put(rows, v), id) == (id == v.key() || known(rows, id)),
{
    let after = put(rows, v);
    put_keeps_distinct(rows, v);
    let p = if known(rows, v.key()) {
        place(rows, v.key())
    } else {
        rows.len() as int
    };
    assert(after[p] == v);
    if id == v.key() {
        row_is_found(after, p);
    } else {
        if known(rows, id) {
            let q = place(rows, id);
            assert(rows[q].key() == id);
            assert(after[q] == rows[q]);
            row_is_found(after, q);
        }
        if known(after, id) {
            let q = place(after, id);
            assert(after[q].key() == id);
            assert(rows[q] == after[q]);
        }
    }
}

/// Whether `some` is what stands in the given places of `all`, in their order.
pub open spec fn stands_in<T>(all: Seq<T>, places: Seq<int>, some: Seq<T>) -> bool {
    &&& places.len() == some.len()
    &&& forall|i: int, j: int|
        0 <= i < j < places.len() ==> (#[trigger] places[i]) < (#[trigger] places[j])
    &&& forall|k: int|
        0 <= k < places.len() ==> 0 <= (#[trigger] places[k]) < all.len() && some[k]
            == all[places[k]]
}

/// Whether `some` holds exactly those of `all` that are meant: each of them as
/// often as it occurs, in the same order, and nothing else.
pub open spec fn holds_those<T>(all: Seq<T>, meant: spec_fn(T) -> bool, some: Seq<T>) -> bool {
    exists|places: Seq<int>|
        #[trigger] stands_in(all, places, some) && forall|i: int|
            0 <= i < all.len() ==> (places.contains(i) <==> meant(#[trigger] all[i]))
}

/// A filter holds exactly those that it keeps.
pub proof fn filter_holds_those<T>(
    all: Seq<T>,
    keep: spec_fn(T) -> bool,
    meant: spec_fn(T) -> bool,
)
    requires
        forall|i: int| 0 <= i < all.len() ==> keep(#[trigger] all[i]) == meant(all[i]),
    ensures
        holds_those(all, meant, all.filter(keep)),
    decreases all.len(),
{
    reveal(Seq::filter);
    if all.len() == 0 {
        let places = Seq::<int>::empty();
        assert(stands_in(all, places, all.filter(keep)));
    } else {
        let rest = all.drop_last();
        let n = all.len() - 1;
        assert forall|i: int| 0 <= i < rest.len() implies keep(#[trigger] rest[i]) == meant(
            rest[i],
        ) by {
            assert(rest[i] == all[i]);
        }
        filter_holds_those(rest, keep, meant);
        let before = choose|places: Seq<int>|
            #[trigger] stands_in(rest, places, rest.filter(keep)) && forall|i: int|
                0 <= i < rest.len() ==> (places.contains(i) <==> meant(#[trigger] rest[i]));
        let places = if keep(all.last()) {
            before.push(n)
        } else {
            before
        };
        assert(stands_in(all, places, all.filter(keep)));
        assert forall|i: int| 0 <= i < all.len() implies (places.contains(i) <==> meant(
            #[trigger] all[i],
        )) by {
            if i < n {
                assert(rest[i] == all[i]);
                if before.contains(i) {
                    let k = choose|k: int| 0 <= k < before.len() && before[k] == i;
                    assert(places[k] == i);
                }
                if places.contains(i) {
                    let k = choose|k: int| 0 <= k < places.len() && places[k] == i;
                    assert(before[k] == i);
                }
            } else {
                if keep(all.last()) {
                    assert(places[before.len() as int] == n);
                }
                if before.contains(n) {
                    let k = choose|k: int| 0 <= k < before.len() && before[k] == n;
                    assert(before[k] < rest.len());
                }
            }
        }
    }
}

/// A filter that keeps everything changes nothing.
pub proof fn full_filter<T>(all: Seq<T>, keep: spec_fn(T) -> bool)
    requires
        forall|i: int| 0 <= i < all.len() ==> keep(#[trigger] all[i]),
    ensures
        all.filter(keep) == all,
    decreases all.len(),
{
    reveal(Seq::filter);
    if all.len() > 0 {
        let rest = all.drop_last();
        assert forall|i: int| 0 <= i < rest.len() implies keep(#[trigger] rest[i]) by {
            assert(rest[i] == all[i]);
        }
        full_filter(rest, keep);
        assert(rest.push(all.last()) =~= all);
        assert(keep(all[all.len() - 1]));
    } else {
        assert(all.filter(keep) =~= all);
    }
}

/// Records in the order in which their ids were first put.
pub struct Table<R: Record> where <R as View>::V: Keyed {
    rows: Vec<R>,
}

impl<R: Record> View for Table<R> where <R as View>::V: Keyed {
    type V = Seq<<R as View>::V>;

    closed spec fn view(&self) -> Seq<<R as View>::V> {
        self.rows@.map_values(|r: R| r@)
    }
}

impl<R: Record> Table<R> where <R as View>::V: Keyed {
    #[verifier::type_invariant]
    spec fn unique(self) -> bool {
        distinct(self.view())
    }

    /// A table without rows.
    pub fn new() -> (r: Self)
        ensures
            r@ == Seq::<<R as View>::V>::empty(),
    {
        let r: Self = Table { rows: Vec::new() };
        r
    }

    /// The number of rows, whose ids are distinct.
    pub fn len(&self) -> (r: usize)
        ensures
            r == self@.len(),
            distinct(self@),
    {
        proof {
            use_type_invariant(self);
        }
        self.rows.len()
    }

    /// The row in the given place.
    pub fn row(&self, i: usize) -> (r: &R)
        requires
            i < self@.len(),
        ensures
            r@ == self@[i as int],
    {
        &self.rows[i]
    }

    fn find(&self, id: &str) -> (r: Option<usize>)
        ensures
            match r {
                Some(i) => i < self@.len() && known(self@, id@) && place(self@, id@) == i as int,
                None => !known(self@, id@),
            },
    {
        let mut i: usize = 0;
        while i < self.rows.len()
            invariant
                i <= self.rows@.len(),
                self@.len() == self.rows@.len(),
                forall|j: int| 0 <= j < i ==> (#[trigger] self@[j]).key() != id@,
            decreases self.rows@.len() - i,
        {
            if same(self.rows[i].id(), id) {
                proof {
                    use_type_invariant(self);
                    row_is_found(self@, i as int);
                }
                return Some(i);
            }
            i = i + 1;
        }
        None
    }

    /// The record under the id.
    pub fn get(&self, id: &str) -> (r: Option<&R>)
        ensures
            match r {
                Some(rec) => lookup(self@, id@) == Some(rec@) && rec@.key() == id@,
                None => lookup(self@, id@) is None,
            },
    {
        match self.find(id) {
            Some(i) => {
                let rec: &R = &self.rows[i];
                Some(rec)
            },
            None => None,
        }
    }

    /// Whether some record has the id.
    pub fn contains(&self, id: &str) -> (r: bool)
        ensures
            r == known(self@, id@),
    {
        self.find(id).is_some()
    }

    /// Puts a record in the place of the row that has its id.
    pub fn replace(&mut self, i: usize, rec: R)
        requires
            i < old(self)@.len(),
            rec@.key() == old(self)@[i as int].key(),
        ensures
            final(self)@ == old(self)@.update(i as int, rec@),
    {
        proof {
            use_type_invariant(&*self);
            row_is_found(self@, i as int);
            put_keeps_distinct(self@, rec@);
        }
        let mut rows: Vec<R> = Vec::new();
        std::mem::swap(&mut rows, &mut self.rows);
        rows.set(i, rec);
        assert(rows@.map_values(|r: R| r@) =~= old(self)@.update(i as int, rec@));
        self.rows = rows;
    }

    /// Puts a record under its id.
    pub fn put(&mut self, rec: R)
        ensures
            final(self)@ == put(old(self)@, rec@),
    {
        let found: Option<usize> = self.find(rec.id());
        proof {
            use_type_invariant(&*self);
            put_keeps_distinct(self@, rec@);
        }
        let mut rows: Vec<R> = Vec::new();
        std::mem::swap(&mut rows, &mut self.rows);
        match found {
            Some(i) => {
                rows.set(i, rec);
            },
            None => {
                rows.push(rec);
            },
        }
        assert(rows@.map_values(|r: R| r@) =~= put(old(self)@, rec@));
        self.rows = rows;
    }
}

} // verus!
