//! The choice of loops to run: what is deepest in the hierarchy comes first.

use crate::records::Loop;
use crate::status::{LoopStatus, LoopType};
use crate::table::stands_in;
use vstd::prelude::*;

verus! {

/// Selects loops to run given available slots.
#[derive(Debug, Clone)]
pub struct Scheduler {
    /// How many loops may run at once. It is a reference value: the slots that
    /// are free are handed in with each selection.
    pub max_concurrent: usize,
}

impl Default for Scheduler {
    fn default() -> (r: Self)
        ensures
            r.max_concurrent == 4,
    {
        Scheduler::new(4)
    }
}

/// The rank of a kind of loop. The lowest goes first.
pub open spec fn rank(t: LoopType) -> u8 {
    match t {
        LoopType::Code => 0,
        LoopType::Phase => 1,
        LoopType::Spec => 2,
        LoopType::Plan => 3,
    }
}

/// The loops of one rank, in their order.
pub open spec fn ranked(loops: Seq<Loop>, k: int) -> Seq<Loop> {
    loops.filter(|l: Loop| rank(l.loop_type) == k)
}

/// The loops by rank, those of one rank in their order.
pub open spec fn by_rank(loops: Seq<Loop>) -> Seq<Loop> {
    ranked(loops, 0) + ranked(loops, 1) + ranked(loops, 2) + ranked(loops, 3)
}

/// As many elements from the front as there are slots.
pub open spec fn first<T>(s: Seq<T>, slots: usize) -> Seq<T> {
    if slots < s.len() {
        s.take(slots as int)
    } else {
        s
    }
}

/// The loops that are selected.
pub open spec fn selected(pending: Seq<Loop>, slots: usize) -> Seq<Loop> {
    first(by_rank(pending), slots)
}

/// Whether a loop whose parent is `parent` can run.
pub open spec fn runs_under(parent: Option<Loop>) -> bool {
    match parent {
        None => true,
        Some(p) => p.status.is_over() || p.output_artifacts@.len() > 0,
    }
}

/// Whether `answer` is what the function may give for the parent id.
pub open spec fn answered<F: Fn(&str) -> Option<Loop>>(
    get_parent: F,
    id: Seq<char>,
    answer: Option<Loop>,
) -> bool {
    exists|s: &str| s@ == id && #[trigger] call_ensures(get_parent, (s,), answer)
}

/// Whether `parents` holds the parent of each loop, as far as it has one and
/// the function knows it.
pub open spec fn parents_of<F: Fn(&str) -> Option<Loop>>(
    pending: Seq<Loop>,
    get_parent: F,
    parents: Seq<Option<Loop>>,
) -> bool {
    &&& parents.len() == pending.len()
    &&& forall|i: int|
        0 <= i < pending.len() ==> match pending[i].parent_id {
            None => (#[trigger] parents[i]) is None,
            Some(id) => answered(get_parent, id@, parents[i]),
        }
}

/// The loops that can run under their parents, in their order.
pub open spec fn runnable(pending: Seq<Loop>, parents: Seq<Option<Loop>>) -> Seq<Loop>
    decreases pending.len(),
{
    if pending.len() == 0 {
        Seq::empty()
    } else {
        let before = runnable(pending.drop_last(), parents.drop_last());
        if runs_under(parents.last()) {
            before.push(pending.last())
        } else {
            before
        }
    }
}

/// The loops from the last to the first.
fn reversed(loops: Vec<Loop>) -> (r: Vec<Loop>)
    ensures
        r@ == loops@.reverse(),
{
    let ghost all = loops@;
    let mut left: Vec<Loop> = loops;
    let mut r: Vec<Loop> = Vec::new();
    while left.len() > 0
        invariant
            left@.len() + r@.len() == all.len(),
            left@ == all.take(left@.len() as int),
            r@ == all.reverse().take(r@.len() as int),
        decreases left@.len(),
    {
        match left.pop() {
            Some(l) => {
                r.push(l);
                assert(r@ =~= all.reverse().take(r@.len() as int));
                assert(left@ =~= all.take(left@.len() as int));
            },
            None => {},
        }
    }
    assert(r@ =~= all.reverse());
    r
}

/// One more element at the end of a sequence that is filtered.
proof fn ranked_step(loops: Seq<Loop>, i: int, k: int)
    requires
        0 <= i < loops.len(),
    ensures
        ranked(loops.take(i + 1), k) == (if rank(loops[i].loop_type) == k {
            ranked(loops.take(i), k).push(loops[i])
        } else {
            ranked(loops.take(i), k)
        }),
{
    reveal(Seq::filter);
    assert(loops.take(i + 1).drop_last() =~= loops.take(i));
    assert(loops.take(i + 1).last() == loops[i]);
}

impl Scheduler {
    /// A scheduler with the given limit.
    pub fn new(max_concurrent: usize) -> (r: Self)
        ensures
            r.max_concurrent == max_concurrent,
    {
        Scheduler { max_concurrent }
    }

    /// The rank of a kind of loop.
    pub fn loop_priority(loop_type: &LoopType) -> (r: u8)
        ensures
            r == rank(*loop_type),
    {
        match loop_type {
            LoopType::Code => 0,
            LoopType::Phase => 1,
            LoopType::Spec => 2,
            LoopType::Plan => 3,
        }
    }

    /// The loops by rank.
    fn arranged(loops: Vec<Loop>) -> (r: Vec<Loop>)
        ensures
            r@ == by_rank(loops@),
    {
        let ghost all = loops@;
        let mut left: Vec<Loop> = reversed(loops);
        let mut code: Vec<Loop> = Vec::new();
        let mut phase: Vec<Loop> = Vec::new();
        let mut spec_loops: Vec<Loop> = Vec::new();
        let mut plan: Vec<Loop> = Vec::new();
        proof {
            reveal(Seq::filter);
            assert(all.take(0) =~= Seq::empty());
        }
        while left.len() > 0
            invariant
                left@.len() <= all.len(),
                left@ == all.reverse().take(left@.len() as int),
                code@ == ranked(all.take(all.len() - left@.len()), 0),
                phase@ == ranked(all.take(all.len() - left@.len()), 1),
                spec_loops@ == ranked(all.take(all.len() - left@.len()), 2),
                plan@ == ranked(all.take(all.len() - left@.len()), 3),
            decreases left@.len(),
        {
            let ghost i = all.len() - left@.len();
            match left.pop() {
                Some(l) => {
                    proof {
                        assert(l == all[i]);
                        assert(left@ =~= all.reverse().take(left@.len() as int));
                        ranked_step(all, i, 0);
                        ranked_step(all, i, 1);
                        ranked_step(all, i, 2);
                        ranked_step(all, i, 3);
                    }
                    match l.loop_type {
                        LoopType::Code => {
                            code.push(l);
                        },
                        LoopType::Phase => {
                            phase.push(l);
                        },
                        LoopType::Spec => {
                            spec_loops.push(l);
                        },
                        LoopType::Plan => {
                            plan.push(l);
                        },
                    }
                },
                None => {},
            }
        }
        assert(all.take(all.len() as int) =~= all);
        code.append(&mut phase);
        code.append(&mut spec_loops);
        code.append(&mut plan);
        code
    }

    /// Selects loops to run: as many as there are slots, by rank.
    pub fn select(&self, pending: Vec<Loop>, slots: usize) -> (r: Vec<Loop>)
        ensures
            r@ == selected(pending@, slots),
    {
        let mut r: Vec<Loop> = Self::arranged(pending);
        if slots < r.len() {
            r.truncate(slots);
        }
        r
    }

    /// Whether a loop can run given its parent: it has none, or the parent is
    /// over or has produced something.
    pub fn can_run(&self, _loop_record: &Loop, parent: Option<&Loop>) -> (r: bool)
        ensures
            r == runs_under(match parent {
                None => None,
                Some(p) => Some(*p),
            }),
    {
        match parent {
            None => true,
            Some(p) => p.status.is_terminal() || p.output_artifacts.len() > 0,
        }
    }

    /// Selects loops to run among those that can run under their parents.
    pub fn select_with_deps(
        &self,
        pending: Vec<Loop>,
        slots: usize,
        get_parent: impl Fn(&str) -> Option<Loop>,
    ) -> (r: Vec<Loop>)
        requires
            forall|s: &str| call_requires(get_parent, (s,)),
        ensures
            slots == 0 ==> r@.len() == 0,
            slots > 0 ==> exists|parents: Seq<Option<Loop>>|
                parents_of(pending@, get_parent, parents) && r@ == selected(
                    #[trigger] runnable(pending@, parents),
                    slots,
                ),
    {
        if slots == 0 {
            return Vec::new();
        }
        let ghost all = pending@;
        let ghost mut parents: Seq<Option<Loop>> = Seq::empty();
        let mut left: Vec<Loop> = reversed(pending);
        let mut kept: Vec<Loop> = Vec::new();
        while left.len() > 0
            invariant
                forall|s: &str| call_requires(get_parent, (s,)),
                left@.len() <= all.len(),
                left@ == all.reverse().take(left@.len() as int),
                parents_of(all.take(all.len() - left@.len()), get_parent, parents),
                kept@ == runnable(all.take(all.len() - left@.len()), parents),
            decreases left@.len(),
        {
            let ghost i = all.len() - left@.len();
            match left.pop() {
                Some(l) => {
                    let parent: Option<Loop> = match &l.parent_id {
                        Some(id) => get_parent(id.as_str()),
                        None => None,
                    };
                    let ghost before = parents;
                    proof {
                        assert(l == all[i]);
                        assert(left@ =~= all.reverse().take(left@.len() as int));
                        parents = parents.push(parent);
                        assert(all.take(i + 1).drop_last() =~= all.take(i));
                        assert(all.take(i + 1).last() == l);
                        assert(parents.drop_last() =~= before);
                        assert forall|j: int| 0 <= j < i + 1 implies match all.take(
                            i + 1,
                        )[j].parent_id {
                            None => (#[trigger] parents[j]) is None,
                            Some(id) => answered(get_parent, id@, parents[j]),
                        } by {
                            if j < i {
                                assert(parents[j] == before[j]);
                                assert(all.take(i + 1)[j] == all.take(i)[j]);
                            }
                        }
                    }
                    if self.can_run(&l, parent.as_ref()) {
                        kept.push(l);
                    }
                },
                None => {},
            }
        }
        assert(all.take(all.len() as int) =~= all);
        self.select(kept, slots)
    }
}

/// Arranging moves loops and does nothing else: no loop is lost or added, the
/// ranks ascend, and loops of one rank keep their order.
pub proof fn arranging_is_a_stable_sort(loops: Seq<Loop>)
    ensures
        by_rank(loops).len() == loops.len(),
        by_rank(loops).to_multiset() == loops.to_multiset(),
        forall|i: int, j: int|
            0 <= i <= j < loops.len() ==> rank((#[trigger] by_rank(loops)[i]).loop_type) <= rank(
                (#[trigger] by_rank(loops)[j]).loop_type,
            ),
        forall|k: int| 0 <= k <= 3 ==> #[trigger] ranked(by_rank(loops), k) == ranked(loops, k),
{
    let (a, b, c, d) = (ranked(loops, 0), ranked(loops, 1), ranked(loops, 2), ranked(loops, 3));
    ranks_make_up_all(loops);
    sum_as_multiset(a, b, c, d);
    ranked_holds_its_rank(loops, 0);
    ranked_holds_its_rank(loops, 1);
    ranked_holds_its_rank(loops, 2);
    ranked_holds_its_rank(loops, 3);
    assert forall|k: int| 0 <= k <= 3 implies #[trigger] ranked(by_rank(loops), k) == ranked(
        loops,
        k,
    ) by {
        ranked_of_sum(a + b + c, d, k);
        ranked_of_sum(a + b, c, k);
        ranked_of_sum(a, b, k);
        ranked_of_ranked(a, 0, k);
        ranked_of_ranked(b, 1, k);
        ranked_of_ranked(c, 2, k);
        ranked_of_ranked(d, 3, k);
        assert(by_rank(loops) == a + b + c + d);
        assert(ranked(a, k) + ranked(b, k) + ranked(c, k) + ranked(d, k) =~= ranked(loops, k));
    }
}

proof fn sum_as_multiset(a: Seq<Loop>, b: Seq<Loop>, c: Seq<Loop>, d: Seq<Loop>)
    ensures
        (a + b + c + d).to_multiset() == a.to_multiset().add(b.to_multiset()).add(
            c.to_multiset(),
        ).add(d.to_multiset()),
{
    vstd::seq_lib::lemma_multiset_commutative(a, b);
    vstd::seq_lib::lemma_multiset_commutative(a + b, c);
    vstd::seq_lib::lemma_multiset_commutative(a + b + c, d);
}

/// The loops of the four ranks are all loops.
proof fn ranks_make_up_all(loops: Seq<Loop>)
    ensures
        by_rank(loops).len() == loops.len(),
        ranked(loops, 0).to_multiset().add(ranked(loops, 1).to_multiset()).add(
            ranked(loops, 2).to_multiset(),
        ).add(ranked(loops, 3).to_multiset()) == loops.to_multiset(),
    decreases loops.len(),
{
    broadcast use vstd::seq_lib::group_to_multiset_ensures;

    reveal(Seq::filter);
    if loops.len() > 0 {
        let before = loops.drop_last();
        let l = loops.last();
        ranks_make_up_all(before);
        assert(loops =~= before.push(l));
        assert(loops.take(loops.len() as int) =~= loops);
        assert(loops.take(loops.len() - 1) =~= before);
        ranked_step(loops, loops.len() - 1, 0);
        ranked_step(loops, loops.len() - 1, 1);
        ranked_step(loops, loops.len() - 1, 2);
        ranked_step(loops, loops.len() - 1, 3);
        assert(ranked(loops, 0).to_multiset().add(ranked(loops, 1).to_multiset()).add(
            ranked(loops, 2).to_multiset(),
        ).add(ranked(loops, 3).to_multiset()) =~= loops.to_multiset());
    }
}

/// The loops of a rank have that rank.
proof fn ranked_holds_its_rank(loops: Seq<Loop>, k: int)
    ensures
        forall|i: int|
            0 <= i < ranked(loops, k).len() ==> rank((#[trigger] ranked(loops, k)[i]).loop_type)
                == k,
    decreases loops.len(),
{
    reveal(Seq::filter);
    if loops.len() > 0 {
        ranked_holds_its_rank(loops.drop_last(), k);
    }
}

/// The loops of a rank in a sum of sequences.
proof fn ranked_of_sum(a: Seq<Loop>, b: Seq<Loop>, k: int)
    ensures
        ranked(a + b, k) == ranked(a, k) + ranked(b, k),
    decreases b.len(),
{
    reveal(Seq::filter);
    if b.len() == 0 {
        assert(a + b =~= a);
        assert(ranked(a, k) + ranked(b, k) =~= ranked(a, k));
    } else {
        ranked_of_sum(a, b.drop_last(), k);
        assert((a + b).drop_last() =~= a + b.drop_last());
        assert((a + b).last() == b.last());
        assert(ranked(a + b, k) =~= ranked(a, k) + ranked(b, k));
    }
}

/// Among loops of rank `j`, those of rank `k` are all or none.
proof fn ranked_of_ranked(loops: Seq<Loop>, j: int, k: int)
    requires
        forall|i: int| 0 <= i < loops.len() ==> rank((#[trigger] loops[i]).loop_type) == j,
    ensures
        ranked(loops, k) == (if j == k {
            loops
        } else {
            Seq::empty()
        }),
    decreases loops.len(),
{
    reveal(Seq::filter);
    if loops.len() > 0 {
        assert(rank(loops.last().loop_type) == j);
        assert forall|i: int| 0 <= i < loops.drop_last().len() implies rank(
            (#[trigger] loops.drop_last()[i]).loop_type,
        ) == j by {
            assert(loops[i] == loops.drop_last()[i]);
        }
        ranked_of_ranked(loops.drop_last(), j, k);
        assert(loops.drop_last().push(loops.last()) =~= loops);
    } else {
        assert(loops =~= Seq::empty());
    }
}

/// A selection fills the slots as far as there are loops, and no loop that it
/// leaves out outranks one that it holds.
pub proof fn selection_is_full_and_best(pending: Seq<Loop>, slots: usize)
    ensures
        selected(pending, slots).len() == (if slots < pending.len() {
            slots as int
        } else {
            pending.len() as int
        }),
        selected(pending, slots).is_prefix_of(by_rank(pending)),
        forall|i: int, j: int|
            0 <= i < selected(pending, slots).len() <= j < pending.len() ==> rank(
                (#[trigger] selected(pending, slots)[i]).loop_type,
            ) <= rank((#[trigger] by_rank(pending)[j]).loop_type),
{
    arranging_is_a_stable_sort(pending);
    let s = selected(pending, slots);
    assert(s =~= by_rank(pending).take(s.len() as int));
    assert forall|i: int, j: int| 0 <= i < s.len() <= j < pending.len() implies rank(
        (#[trigger] s[i]).loop_type,
    ) <= rank((#[trigger] by_rank(pending)[j]).loop_type) by {
        assert(s[i] == by_rank(pending)[i]);
    }
}

/// Each loop selected under its parent is pending and can run.
pub proof fn selected_loops_can_run(
    pending: Seq<Loop>,
    parents: Seq<Option<Loop>>,
    slots: usize,
    n: int,
)
    requires
        parents.len() == pending.len(),
        0 <= n < selected(runnable(pending, parents), slots).len(),
    ensures
        exists|i: int|
            0 <= i < pending.len() && pending[i] == selected(
                runnable(pending, parents),
                slots,
            )[n] && runs_under(#[trigger] parents[i]),
{
    let runs = runnable(pending, parents);
    selection_is_full_and_best(runs, slots);
    let l = selected(runs, slots)[n];
    assert(l == by_rank(runs)[n]);
    arranging_is_a_stable_sort(runs);
    broadcast use vstd::seq_lib::group_to_multiset_ensures;

    assert(by_rank(runs).contains(l));
    assert(by_rank(runs).to_multiset().count(l) > 0);
    assert(runs.contains(l));
    let m = choose|m: int| 0 <= m < runs.len() && runs[m] == l;
    runnable_loops_can_run(pending, parents, m);
}

proof fn runnable_loops_can_run(pending: Seq<Loop>, parents: Seq<Option<Loop>>, m: int)
    requires
        parents.len() == pending.len(),
        0 <= m < runnable(pending, parents).len(),
    ensures
        exists|i: int|
            0 <= i < pending.len() && pending[i] == runnable(pending, parents)[m] && runs_under(
                #[trigger] parents[i],
            ),
    decreases pending.len(),
{
    let before = runnable(pending.drop_last(), parents.drop_last());
    if m < before.len() {
        runnable_loops_can_run(pending.drop_last(), parents.drop_last(), m);
        let i = choose|i: int|
            0 <= i < pending.drop_last().len() && pending.drop_last()[i] == before[m]
                && runs_under(#[trigger] parents.drop_last()[i]);
        assert(parents[i] == parents.drop_last()[i]);
    } else {
        assert(parents[pending.len() - 1] == parents.last());
    }
}

/// Where every loop can run under its parent, parents make no difference.
pub proof fn parents_that_hold_nothing_back(pending: Seq<Loop>, parents: Seq<Option<Loop>>)
    requires
        parents.len() == pending.len(),
        forall|i: int| 0 <= i < parents.len() ==> runs_under(#[trigger] parents[i]),
    ensures
        runnable(pending, parents) == pending,
    decreases pending.len(),
{
    if pending.len() > 0 {
        assert forall|i: int| 0 <= i < parents.drop_last().len() implies runs_under(
            #[trigger] parents.drop_last()[i],
        ) by {
            assert(parents[i] == parents.drop_last()[i]);
        }
        parents_that_hold_nothing_back(pending.drop_last(), parents.drop_last());
        assert(parents.last() == parents[parents.len() - 1]);
        assert(pending.drop_last().push(pending.last()) =~= pending);
    }
}

/// Whether a loop need not wait for its parent: it has none, or the parent has
/// come to an end, or the parent has at least one output artifact, whatever its
/// status.
pub open spec fn need_not_wait(parent: Option<Loop>) -> bool {
    match parent {
        None => true,
        Some(p) => p.status == LoopStatus::Complete || p.status == LoopStatus::Failed
            || p.output_artifacts@.len() > 0,
    }
}

/// A loop can run exactly if it need not wait for its parent. So a parent that
/// has produced something lets it run in any status, and one that has produced
/// nothing only once it is complete or has failed.
pub proof fn loops_run_unless_they_wait(parent: Option<Loop>)
    ensures
        runs_under(parent) == need_not_wait(parent),
        parent matches Some(p) && p.output_artifacts@.len() > 0 ==> runs_under(parent),
        parent matches Some(p) && p.output_artifacts@.len() == 0 && (p.status == LoopStatus::Pending
            || p.status == LoopStatus::Running) ==> !runs_under(parent),
{
}

/// The loops that can run are, in their order, exactly the pending ones that
/// need not wait for their parents.
pub proof fn exactly_the_loops_that_need_not_wait_can_run(
    pending: Seq<Loop>,
    parents: Seq<Option<Loop>>,
)
    requires
        parents.len() == pending.len(),
    ensures
        exists|places: Seq<int>|
            #[trigger] stands_in(pending, places, runnable(pending, parents)) && forall|i: int|
                0 <= i < pending.len() ==> (places.contains(i) <==> need_not_wait(
                    #[trigger] parents[i],
                )),
    decreases pending.len(),
{
    let runs = runnable(pending, parents);
    if pending.len() == 0 {
        assert(stands_in(pending, Seq::<int>::empty(), runs));
    } else {
        let n = pending.len() - 1;
        let (rest, above) = (pending.drop_last(), parents.drop_last());
        exactly_the_loops_that_need_not_wait_can_run(rest, above);
        let before = choose|places: Seq<int>|
            #[trigger] stands_in(rest, places, runnable(rest, above)) && forall|i: int|
                0 <= i < rest.len() ==> (places.contains(i) <==> need_not_wait(
                    #[trigger] above[i],
                ));
        loops_run_unless_they_wait(parents.last());
        let places = if runs_under(parents.last()) {
            before.push(n)
        } else {
            before
        };
        assert(stands_in(pending, places, runs));
        assert forall|i: int| 0 <= i < pending.len() implies (places.contains(i) <==> need_not_wait(
            #[trigger] parents[i],
        )) by {
            if i < n {
                assert(above[i] == parents[i]);
                if before.contains(i) {
                    let k = choose|k: int| 0 <= k < before.len() && before[k] == i;
                    assert(places[k] == i);
                }
                if places.contains(i) {
                    let k = choose|k: int| 0 <= k < places.len() && places[k] == i;
                    assert(before[k] == i);
                }
            } else {
                if runs_under(parents.last()) {
                    assert(places[before.len() as int] == n);
                }
                if before.contains(n) {
                    let k = choose|k: int| 0 <= k < before.len() && before[k] == n;
                    assert(before[k] < rest.len());
                }
            }
        }
    }
}

/// With slots for all, every pending loop that need not wait is selected.
pub proof fn with_slots_for_all_none_that_can_run_is_left_out(
    pending: Seq<Loop>,
    parents: Seq<Option<Loop>>,
    slots: usize,
    i: int,
)
    requires
        parents.len() == pending.len(),
        pending.len() <= slots,
        0 <= i < pending.len(),
        need_not_wait(parents[i]),
    ensures
        selected(runnable(pending, parents), slots).contains(pending[i]),
{
    let runs = runnable(pending, parents);
    exactly_the_loops_that_need_not_wait_can_run(pending, parents);
    let places = choose|places: Seq<int>|
        #[trigger] stands_in(pending, places, runs) && forall|i: int|
            0 <= i < pending.len() ==> (places.contains(i) <==> need_not_wait(
                #[trigger] parents[i],
            ));
    assert(places.contains(i));
    let k = choose|k: int| 0 <= k < places.len() && places[k] == i;
    assert(runs[k] == pending[i]);
    runnable_is_no_longer(pending, parents);
    arranging_is_a_stable_sort(runs);
    broadcast use vstd::seq_lib::group_to_multiset_ensures;

    assert(runs.contains(pending[i]));
    assert(runs.to_multiset().count(pending[i]) > 0);
    assert(by_rank(runs).contains(pending[i]));
    assert(selected(runs, slots) == by_rank(runs));
}

/// No more loops can run than are pending.
proof fn runnable_is_no_longer(pending: Seq<Loop>, parents: Seq<Option<Loop>>)
    ensures
        runnable(pending, parents).len() <= pending.len(),
    decreases pending.len(),
{
    if pending.len() > 0 {
        runnable_is_no_longer(pending.drop_last(), parents.drop_last());
    }
}

/// What each loop waits for is what the function gives for the id of its own
/// parent; a loop without a parent waits for nothing.
pub proof fn each_loop_has_its_own_parent<F: Fn(&str) -> Option<Loop>>(
    pending: Seq<Loop>,
    get_parent: F,
    parents: Seq<Option<Loop>>,
    i: int,
)
    requires
        parents_of(pending, get_parent, parents),
        0 <= i < pending.len(),
    ensures
        parents.len() == pending.len(),
        pending[i].parent_id is None ==> parents[i] is None,
        pending[i].parent_id matches Some(id) ==> exists|s: &str|
            s@ == id@ && #[trigger] call_ensures(get_parent, (s,), parents[i]),
{
    assert(parents[i] == parents[i]);
}

/// Code goes before phases, phases before specs, and specs before plans.
pub proof fn the_deepest_loops_go_first(loops: Seq<Loop>, i: int, j: int)
    requires
        0 <= i < j < loops.len(),
    ensures
        ({
            let (a, b) = (by_rank(loops)[i].loop_type, by_rank(loops)[j].loop_type);
            &&& b == LoopType::Code ==> a == LoopType::Code
            &&& b == LoopType::Phase ==> a == LoopType::Code || a == LoopType::Phase
            &&& a == LoopType::Spec ==> b == LoopType::Spec || b == LoopType::Plan
            &&& a == LoopType::Plan ==> b == LoopType::Plan
        }),
{
    arranging_is_a_stable_sort(loops);
    assert(rank(by_rank(loops)[i].loop_type) <= rank(by_rank(loops)[j].loop_type));
}

/// The loops of one kind, in their order.
pub open spec fn of_kind(loops: Seq<Loop>, kind: LoopType) -> Seq<Loop> {
    loops.filter(|l: Loop| l.loop_type == kind)
}

/// Loops of one kind keep the order in which they were pending.
pub proof fn loops_of_one_kind_keep_their_order(loops: Seq<Loop>, kind: LoopType)
    ensures
        of_kind(by_rank(loops), kind) == of_kind(loops, kind),
{
    arranging_is_a_stable_sort(loops);
    kinds_are_ranks(loops, kind);
    kinds_are_ranks(by_rank(loops), kind);
    let k = rank(kind) as int;
    assert(ranked(by_rank(loops), k) == ranked(loops, k));
}

proof fn kinds_are_ranks(loops: Seq<Loop>, kind: LoopType)
    ensures
        of_kind(loops, kind) == ranked(loops, rank(kind) as int),
    decreases loops.len(),
{
    reveal(Seq::filter);
    if loops.len() > 0 {
        kinds_are_ranks(loops.drop_last(), kind);
    }
}

/// A selection is as long as there are slots, or as there are loops to fill
/// them, and is what goes first.
pub proof fn a_selection_fills_the_slots(pending: Seq<Loop>, slots: usize, n: int)
    requires
        0 <= n < selected(pending, slots).len(),
    ensures
        selected(pending, slots).len() <= slots,
        selected(pending, slots).len() == slots || selected(pending, slots).len() == pending.len(),
        selected(pending, slots)[n] == by_rank(pending)[n],
        pending.contains(selected(pending, slots)[n]),
{
    selection_is_full_and_best(pending, slots);
    arranging_is_a_stable_sort(pending);
    broadcast use vstd::seq_lib::group_to_multiset_ensures;

    let l = by_rank(pending)[n];
    assert(by_rank(pending).contains(l));
    assert(by_rank(pending).to_multiset().count(l) > 0);
    assert(pending.contains(l));
}

} // verus!
