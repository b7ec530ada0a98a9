//! The graph of dependencies between work items.

use crate::records::{Work, WorkView};
use crate::table::{distinct, known, lookup, put, put_then_lookup, Keyed, Table};
use crate::text::{copy, lists, same, texts};
use vstd::prelude::*;

verus! {

/// Whether the work item `a` lists `b` among its dependencies.
pub open spec fn depends(works: Seq<WorkView>, a: Seq<char>, b: Seq<char>) -> bool {
    match lookup(works, a) {
        Some(w) => w.dependencies.contains(b),
        None => false,
    }
}

/// Whether the id in place `i` of `p` depends on the next one.
pub open spec fn link(works: Seq<WorkView>, p: Seq<Seq<char>>, i: int) -> bool {
    depends(works, p[i], p[i + 1])
}

/// A sequence of ids, each of which depends on the next.
pub open spec fn chain(works: Seq<WorkView>, p: Seq<Seq<char>>) -> bool {
    &&& p.len() > 0
    &&& forall|i: int| 0 <= i < p.len() - 1 ==> #[trigger] link(works, p, i)
}

/// Whether dependencies lead from `a` to `b`; `a` itself is reached at once.
pub open spec fn leads(works: Seq<WorkView>, a: Seq<char>, b: Seq<char>) -> bool {
    exists|p: Seq<Seq<char>>| #[trigger] chain(works, p) && p[0] == a && p.last() == b
}

/// Whether some of the ids `from` leads to `to`.
pub open spec fn any_leads(works: Seq<WorkView>, from: Seq<Seq<char>>, to: Seq<char>) -> bool {
    exists|d: Seq<char>| from.contains(d) && #[trigger] leads(works, d, to)
}

/// No chain of dependencies comes back to where it started.
pub open spec fn acyclic(works: Seq<WorkView>) -> bool {
    forall|p: Seq<Seq<char>>|
        (#[trigger] chain(works, p)) && p.len() >= 2 ==> p[0] != p.last()
}

/// An id leads to itself.
proof fn leads_to_itself(works: Seq<WorkView>, a: Seq<char>)
    ensures
        leads(works, a, a),
{
    let p = seq![a];
    assert(chain(works, p));
}

/// One more dependency leads one step further.
proof fn leads_further(works: Seq<WorkView>, a: Seq<char>, b: Seq<char>, c: Seq<char>)
    requires
        leads(works, a, b),
        depends(works, b, c),
    ensures
        leads(works, a, c),
{
    let p = choose|p: Seq<Seq<char>>| #[trigger] chain(works, p) && p[0] == a && p.last() == b;
    let q = p.push(c);
    assert forall|i: int| 0 <= i < q.len() - 1 implies #[trigger] link(works, q, i) by {
        if i < p.len() - 1 {
            assert(link(works, p, i));
        }
    }
    assert(chain(works, q));
}

/// The number of work items whose id is not among `seen`.
spec fn unseen(works: Seq<WorkView>, seen: Seq<Seq<char>>) -> nat
    decreases works.len(),
{
    if works.len() == 0 {
        0
    } else {
        unseen(works.drop_last(), seen) + if seen.contains(works.last().key()) {
            0nat
        } else {
            1nat
        }
    }
}

/// Seeing one id more leaves no more work items unseen, and fewer if it is the
/// id of one that was.
proof fn unseen_shrinks(works: Seq<WorkView>, seen: Seq<Seq<char>>, x: Seq<char>)
    ensures
        unseen(works, seen.push(x)) <= unseen(works, seen),
        known(works, x) && !seen.contains(x) ==> unseen(works, seen.push(x)) < unseen(works, seen),
    decreases works.len(),
{
    if works.len() > 0 {
        let rest = works.drop_last();
        let last = works.last().key();
        unseen_shrinks(rest, seen, x);
        if seen.contains(last) {
            let k = choose|k: int| 0 <= k < seen.len() && seen[k] == last;
            assert(seen.push(x)[k] == last);
        }
        if last == x {
            assert(seen.push(x)[seen.len() as int] == x);
        } else if seen.push(x).contains(last) {
            let k = choose|k: int| 0 <= k < seen.push(x).len() && seen.push(x)[k] == last;
            assert(seen[k] == last);
        }
        if known(works, x) && last != x {
            let i = choose|i: int| 0 <= i < works.len() && (#[trigger] works[i]).key() == x;
            assert(rest[i].key() == x);
        }
    }
}

/// Seen already, or waiting in the queue from place `head` on.
spec fn covered(seen: Seq<Seq<char>>, queue: Seq<Seq<char>>, head: int, x: Seq<char>) -> bool {
    seen.contains(x) || exists|k: int| head <= k < queue.len() && #[trigger] queue[k] == x
}

/// Where every dependency of what is seen is seen, a chain never leaves it.
proof fn chain_stays(works: Seq<WorkView>, seen: Seq<Seq<char>>, p: Seq<Seq<char>>)
    requires
        chain(works, p),
        seen.contains(p[0]),
        forall|a: Seq<char>, b: Seq<char>|
            seen.contains(a) && #[trigger] depends(works, a, b) ==> seen.contains(b),
    ensures
        seen.contains(p.last()),
    decreases p.len(),
{
    if p.len() > 1 {
        let q = p.drop_last();
        assert forall|i: int| 0 <= i < q.len() - 1 implies #[trigger] link(works, q, i) by {
            assert(link(works, p, i));
        }
        chain_stays(works, seen, q);
        assert(link(works, p, p.len() - 2));
        assert(depends(works, q.last(), p.last()));
    }
}

/// Whether a work item under `new_id` with these dependencies would depend on
/// itself, directly or through others.
pub fn detect_dependency_cycle(
    works: &Table<Work>,
    new_id: &str,
    dependencies: &Vec<String>,
) -> (r: bool)
    ensures
        r == any_leads(works@, texts(dependencies@), new_id@),
{
    let mut seen: Vec<String> = Vec::new();
    let mut queue: Vec<String> = crate::text::copy_all(dependencies);
    let mut head: usize = 0;
    let ghost ws = works@;
    let ghost deps = texts(dependencies@);
    proof {
        assert(texts(queue@) == deps);
        assert forall|k: int| 0 <= k < queue@.len() implies any_leads(
            ws,
            deps,
            #[trigger] texts(queue@)[k],
        ) by {
            leads_to_itself(ws, texts(queue@)[k]);
            assert(deps.contains(deps[k]));
        }
        assert forall|d: Seq<char>| deps.contains(d) implies #[trigger] covered(
            texts(seen@),
            texts(queue@),
            0,
            d,
        ) by {
            let k = choose|k: int| 0 <= k < deps.len() && deps[k] == d;
            assert(texts(queue@)[k] == d);
        }
    }
    while head < queue.len()
        invariant
            ws == works@,
            deps == texts(dependencies@),
            head <= queue@.len(),
            forall|k: int|
                0 <= k < queue@.len() ==> any_leads(ws, deps, #[trigger] texts(queue@)[k]),
            forall|d: Seq<char>|
                deps.contains(d) ==> #[trigger] covered(
                    texts(seen@),
                    texts(queue@),
                    head as int,
                    d,
                ),
            forall|a: Seq<char>, b: Seq<char>|
                texts(seen@).contains(a) && #[trigger] depends(ws, a, b) ==> covered(
                    texts(seen@),
                    texts(queue@),
                    head as int,
                    b,
                ),
            !texts(seen@).contains(new_id@),
        decreases unseen(ws, texts(seen@)), queue@.len() - head,
    {
        let ghost seen0 = texts(seen@);
        let ghost queue0 = texts(queue@);
        let ghost head0 = head as int;
        let current: String = copy(queue[head].as_str());
        head = head + 1;
        assert(current@ == queue0[head0]);
        if same(current.as_str(), new_id) {
            return true;
        }
        if lists(&seen, current.as_str()) {
            proof {
                assert forall|x: Seq<char>| covered(seen0, queue0, head0, x) implies #[trigger] covered(
                    seen0,
                    queue0,
                    head0 + 1,
                    x,
                ) by {
                    covered_moves_on(seen0, queue0, head0, x);
                }
            }
        } else {
            let ghost cur = current@;
            let found: Option<&Work> = works.get(current.as_str());
            match found {
                Some(w) => {
                    let mut j: usize = 0;
                    while j < w.dependencies.len()
                        invariant
                            ws == works@,
                            deps == texts(dependencies@),
                            lookup(ws, cur) == Some(w@),
                            j <= w.dependencies@.len(),
                            head <= queue@.len(),
                            any_leads(ws, deps, cur),
                            forall|k: int|
                                0 <= k < queue@.len() ==> any_leads(
                                    ws,
                                    deps,
                                    #[trigger] texts(queue@)[k],
                                ),
                            queue0.len() <= queue@.len(),
                            forall|k: int|
                                0 <= k < queue0.len() ==> (#[trigger] texts(queue@)[k])
                                    == queue0[k],
                            forall|m: int|
                                0 <= m < j ==> covered(
                                    seen0,
                                    texts(queue@),
                                    head as int,
                                    #[trigger] texts(w.dependencies@)[m],
                                ),
                        decreases w.dependencies@.len() - j,
                    {
                        let ghost before = texts(queue@);
                        let dep: String = copy(w.dependencies[j].as_str());
                        proof {
                            assert(texts(w.dependencies@)[j as int] == dep@);
                            assert(w@.dependencies.contains(dep@));
                            assert(depends(ws, cur, dep@));
                            let d = choose|d: Seq<char>|
                                deps.contains(d) && #[trigger] leads(ws, d, cur);
                            leads_further(ws, d, cur, dep@);
                        }
                        let ghost dv = dep@;
                        queue.push(dep);
                        proof {
                            let after = texts(queue@);
                            assert(after =~= before.push(dv));
                            assert(after[before.len() as int] == dv);
                            assert forall|m: int| 0 <= m < j + 1 implies covered(
                                seen0,
                                after,
                                head as int,
                                #[trigger] texts(w.dependencies@)[m],
                            ) by {
                                if m < j {
                                    let x = texts(w.dependencies@)[m];
                                    assert(covered(seen0, before, head as int, x));
                                    if !seen0.contains(x) {
                                        let k = choose|k: int|
                                            head <= k < before.len() && #[trigger] before[k] == x;
                                        assert(after[k] == x);
                                    }
                                }
                            }
                        }
                        j = j + 1;
                    }
                },
                None => {},
            }
            seen.push(current);
            proof {
                let seen1 = texts(seen@);
                let queue1 = texts(queue@);
                assert(seen1 =~= seen0.push(cur));
                assert(seen1[seen0.len() as int] == cur);
                unseen_shrinks(ws, seen0, cur);
                assert forall|x: Seq<char>|
                    covered(seen0, queue0, head0, x) || covered(seen0, queue1, head0 + 1, x) implies #[trigger] covered(
                    seen1,
                    queue1,
                    head0 + 1,
                    x,
                ) by {
                    if seen0.contains(x) {
                        let k = choose|k: int| 0 <= k < seen0.len() && seen0[k] == x;
                        assert(seen1[k] == x);
                    } else if covered(seen0, queue0, head0, x) {
                        let k = choose|k: int|
                            head0 <= k < queue0.len() && #[trigger] queue0[k] == x;
                        assert(queue1[k] == queue0[k]);
                    }
                }
                assert forall|a: Seq<char>, b: Seq<char>|
                    seen1.contains(a) && #[trigger] depends(ws, a, b) implies covered(
                    seen1,
                    queue1,
                    head0 + 1,
                    b,
                ) by {
                    if a == cur {
                        let w = lookup(ws, cur)->0;
                        let m = choose|m: int|
                            0 <= m < w.dependencies.len() && w.dependencies[m] == b;
                        assert(covered(seen0, queue1, head0 + 1, w.dependencies[m]));
                    } else {
                        let k = choose|k: int| 0 <= k < seen1.len() && seen1[k] == a;
                        assert(seen0[k] == a);
                        assert(covered(seen0, queue0, head0, b));
                    }
                }
            }
        }
    }
    proof {
        let s = texts(seen@);
        assert forall|d: Seq<char>| deps.contains(d) implies s.contains(d) by {
            assert(covered(s, texts(queue@), head as int, d));
        }
        assert forall|a: Seq<char>, b: Seq<char>|
            s.contains(a) && #[trigger] depends(ws, a, b) implies s.contains(b) by {
            assert(covered(s, texts(queue@), head as int, b));
        }
        if any_leads(ws, deps, new_id@) {
            let d = choose|d: Seq<char>| deps.contains(d) && #[trigger] leads(ws, d, new_id@);
            let p = choose|p: Seq<Seq<char>>|
                #[trigger] chain(ws, p) && p[0] == d && p.last() == new_id@;
            chain_stays(ws, s, p);
        }
    }
    false
}

/// Taking a seen id off the queue uncovers nothing.
proof fn covered_moves_on(seen: Seq<Seq<char>>, queue: Seq<Seq<char>>, head: int, x: Seq<char>)
    requires
        0 <= head < queue.len(),
        seen.contains(queue[head]),
        covered(seen, queue, head, x),
    ensures
        covered(seen, queue, head + 1, x),
{
    if !seen.contains(x) {
        let k = choose|k: int| head <= k < queue.len() && #[trigger] queue[k] == x;
        assert(k != head);
    }
}

/// One dependency before leads from one step further back.
proof fn leads_from_before(works: Seq<WorkView>, a: Seq<char>, b: Seq<char>, c: Seq<char>)
    requires
        depends(works, a, b),
        leads(works, b, c),
    ensures
        leads(works, a, c),
{
    let p = choose|p: Seq<Seq<char>>| #[trigger] chain(works, p) && p[0] == b && p.last() == c;
    let q = seq![a] + p;
    assert forall|i: int| 0 <= i < q.len() - 1 implies #[trigger] link(works, q, i) by {
        if i > 0 {
            assert(link(works, p, i - 1));
        }
    }
    assert(chain(works, q));
    assert(q.last() == p.last());
}

/// Two sets of work items agree on every id but `id`.
pub open spec fn agree_but(a: Seq<WorkView>, b: Seq<WorkView>, id: Seq<char>) -> bool {
    forall|x: Seq<char>, y: Seq<char>|
        x != id ==> #[trigger] depends(a, x, y) == depends(b, x, y)
}

/// What leads to `id` does so without the dependencies of `id` itself.
proof fn leads_alike(a: Seq<WorkView>, b: Seq<WorkView>, id: Seq<char>, p: Seq<Seq<char>>)
    requires
        agree_but(a, b, id),
        chain(a, p),
        p.last() == id,
    ensures
        leads(b, p[0], id),
    decreases p.len(),
{
    if p[0] == id {
        leads_to_itself(b, id);
    } else {
        let q = p.skip(1);
        assert(link(a, p, 0));
        assert forall|i: int| 0 <= i < q.len() - 1 implies #[trigger] link(a, q, i) by {
            assert(link(a, p, i + 1));
        }
        leads_alike(a, b, id, q);
        assert(depends(a, p[0], p[1]) == depends(b, p[0], p[1]));
        leads_from_before(b, p[0], p[1], id);
    }
}

/// Whether dependencies lead to `id` does not hang on the dependencies that
/// `id` itself has.
pub proof fn own_dependencies_do_not_matter(
    a: Seq<WorkView>,
    b: Seq<WorkView>,
    from: Seq<Seq<char>>,
    id: Seq<char>,
)
    requires
        agree_but(a, b, id),
    ensures
        any_leads(a, from, id) == any_leads(b, from, id),
{
    assert(agree_but(b, a, id)) by {
        assert forall|x: Seq<char>, y: Seq<char>| x != id implies #[trigger] depends(b, x, y)
            == depends(a, x, y) by {
            assert(depends(a, x, y) == depends(b, x, y));
        }
    }
    if any_leads(a, from, id) {
        let d = choose|d: Seq<char>| from.contains(d) && #[trigger] leads(a, d, id);
        let p = choose|p: Seq<Seq<char>>| #[trigger] chain(a, p) && p[0] == d && p.last() == id;
        leads_alike(a, b, id, p);
    }
    if any_leads(b, from, id) {
        let d = choose|d: Seq<char>| from.contains(d) && #[trigger] leads(b, d, id);
        let p = choose|p: Seq<Seq<char>>| #[trigger] chain(b, p) && p[0] == d && p.last() == id;
        leads_alike(b, a, id, p);
    }
}

/// After `w` is put, an id other than its own depends on what it did before.
proof fn put_agrees(works: Seq<WorkView>, w: WorkView)
    requires
        distinct(works),
    ensures
        agree_but(put(works, w), works, w.id),
        forall|y: Seq<char>|
            (#[trigger] depends(put(works, w), w.id, y)) == w.dependencies.contains(y),
{
    assert forall|x: Seq<char>, y: Seq<char>| x != w.id implies #[trigger] depends(
        put(works, w),
        x,
        y,
    ) == depends(works, x, y) by {
        put_then_lookup(works, w, x);
    }
    assert forall|y: Seq<char>| (#[trigger] depends(put(works, w), w.id, y))
        == w.dependencies.contains(y) by {
        put_then_lookup(works, w, w.id);
    }
}

/// A work item whose dependencies do not lead back to it closes no cycle: a
/// graph without cycles stays without cycles.
pub proof fn put_keeps_acyclic(works: Seq<WorkView>, w: WorkView)
    requires
        distinct(works),
        acyclic(works),
        !any_leads(works, w.dependencies, w.id),
    ensures
        acyclic(put(works, w)),
{
    let after = put(works, w);
    put_agrees(works, w);
    assert forall|p: Seq<Seq<char>>| (#[trigger] chain(after, p)) && p.len() >= 2 implies p[0]
        != p.last() by {
        if p[0] == p.last() {
            if forall|i: int| 0 <= i < p.len() - 1 ==> (#[trigger] p[i]) != w.id {
                assert forall|i: int| 0 <= i < p.len() - 1 implies #[trigger] link(works, p, i) by {
                    assert(link(after, p, i));
                    assert(p[i] != w.id);
                }
                assert(chain(works, p));
            } else {
                let k = choose|k: int| 0 <= k < p.len() - 1 && (#[trigger] p[k]) == w.id;
                let n = p.len() as int;
                let q = p.subrange(k + 1, n) + p.subrange(1, k + 1);
                assert forall|i: int| 0 <= i < q.len() - 1 implies #[trigger] link(after, q, i) by {
                    if i < n - k - 2 {
                        assert(link(after, p, k + 1 + i));
                    } else {
                        assert(link(after, p, i - (n - k - 2)));
                    }
                }
                assert(chain(after, q));
                assert(q.last() == w.id);
                leads_alike(after, works, w.id, q);
                assert(link(after, p, k));
                assert(depends(after, w.id, q[0]));
                assert(w.dependencies.contains(q[0]));
                assert(leads(works, q[0], w.id));
            }
        }
    }
}

/// A work item whose dependencies lead back to it closes a cycle.
pub proof fn leading_back_closes_a_cycle(works: Seq<WorkView>, w: WorkView)
    requires
        distinct(works),
        any_leads(works, w.dependencies, w.id),
    ensures
        !acyclic(put(works, w)),
{
    let after = put(works, w);
    put_agrees(works, w);
    own_dependencies_do_not_matter(after, works, w.dependencies, w.id);
    let d = choose|d: Seq<char>| w.dependencies.contains(d) && #[trigger] leads(after, d, w.id);
    let p = choose|p: Seq<Seq<char>>| #[trigger] chain(after, p) && p[0] == d && p.last() == w.id;
    let q = seq![w.id] + p;
    assert forall|i: int| 0 <= i < q.len() - 1 implies #[trigger] link(after, q, i) by {
        if i == 0 {
            assert(depends(after, w.id, d));
        } else {
            assert(link(after, p, i - 1));
        }
    }
    assert(chain(after, q));
    assert(q[0] == q.last());
}

/// A work item depends on exactly the ids it lists.
pub proof fn dependencies_are_what_is_listed(works: Seq<WorkView>, i: int, b: Seq<char>)
    requires
        distinct(works),
        0 <= i < works.len(),
    ensures
        depends(works, works[i].id, b) <==> exists|k: int|
            0 <= k < works[i].dependencies.len() && #[trigger] works[i].dependencies[k] == b,
{
    crate::table::row_is_found(works, i);
    assert(works[i].key() == works[i].id);
    if works[i].dependencies.contains(b) {
        let k = choose|k: int|
            0 <= k < works[i].dependencies.len() && works[i].dependencies[k] == b;
        assert(works[i].dependencies[k] == b);
    }
}

/// Whether dependencies lead from one id to another goes step by step: an id
/// leads to itself, and else exactly where one of its dependencies leads.
pub proof fn dependencies_lead_step_by_step(works: Seq<WorkView>, a: Seq<char>, c: Seq<char>)
    ensures
        leads(works, a, c) <==> a == c || exists|b: Seq<char>| #[trigger]
            depends(works, a, b) && leads(works, b, c),
{
    if a == c {
        leads_to_itself(works, a);
    }
    if exists|b: Seq<char>| #[trigger] depends(works, a, b) && leads(works, b, c) {
        let b = choose|b: Seq<char>| #[trigger] depends(works, a, b) && leads(works, b, c);
        leads_from_before(works, a, b, c);
    }
    if leads(works, a, c) && a != c {
        let p = choose|p: Seq<Seq<char>>| #[trigger] chain(works, p) && p[0] == a && p.last() == c;
        let q = p.skip(1);
        assert(link(works, p, 0));
        assert forall|i: int| 0 <= i < q.len() - 1 implies #[trigger] link(works, q, i) by {
            assert(link(works, p, i + 1));
        }
        assert(chain(works, q));
        assert(q.last() == c && q[0] == p[1]);
        assert(leads(works, p[1], c));
        assert(depends(works, a, p[1]));
    }
}

} // verus!
