//! Level order of the elements below a root, to a depth of
//! `SEARCH_MAX_DEPTH`, and the proof that the stepwise breadth-first search
//! finds the first candidate in that order.

use vstd::prelude::*;

use crate::uia_service::{at_depth, bfs_first, queued_after, SEARCH_MAX_DEPTH};

verus! {

/// The children of an element (with its depth) that the search queues: one
/// level deeper, none at the depth limit.
pub open spec fn kids(item: (usize, usize), children: spec_fn(usize) -> Seq<usize>) -> Seq<
    (usize, usize),
> {
    if item.1 >= SEARCH_MAX_DEPTH {
        Seq::empty()
    } else {
        at_depth(children(item.0), (item.1 + 1) as usize)
    }
}

/// The queued children of every element of `items`, in order.
pub open spec fn expand_all(items: Seq<(usize, usize)>, children: spec_fn(usize) -> Seq<usize>) -> Seq<
    (usize, usize),
>
    decreases items.len(),
{
    if items.len() == 0 {
        Seq::empty()
    } else {
        expand_all(items.drop_last(), children) + kids(items.last(), children)
    }
}

/// The elements `depth` levels below the root whose children are `roots`.
pub open spec fn level(roots: Seq<usize>, children: spec_fn(usize) -> Seq<usize>, depth: nat) -> Seq<
    (usize, usize),
>
    decreases depth,
{
    if depth <= 1 {
        at_depth(roots, 1)
    } else {
        expand_all(level(roots, children, (depth - 1) as nat), children)
    }
}

/// Every element below the root, down to `SEARCH_MAX_DEPTH` levels, level by
/// level and in child order within a level.
pub open spec fn level_order(roots: Seq<usize>, children: spec_fn(usize) -> Seq<usize>) -> Seq<
    (usize, usize),
> {
    level(roots, children, 1) + level(roots, children, 2) + level(roots, children, 3) + level(
        roots,
        children,
        4,
    )
}

/// All elements of `s` have depth `d`.
pub open spec fn all_at(s: Seq<(usize, usize)>, d: int) -> bool {
    forall|i: int| 0 <= i < s.len() ==> #[trigger] s[i].1 == d
}

/// All elements of `s` have depth between `lo` and `SEARCH_MAX_DEPTH`.
pub open spec fn all_within(s: Seq<(usize, usize)>, lo: int) -> bool {
    forall|i: int| 0 <= i < s.len() ==> lo <= #[trigger] s[i].1 <= SEARCH_MAX_DEPTH
}

/// Expanding a concatenation expands each part.
pub proof fn lemma_expand_concat(
    a: Seq<(usize, usize)>,
    b: Seq<(usize, usize)>,
    children: spec_fn(usize) -> Seq<usize>,
)
    ensures
        expand_all(a + b, children) == expand_all(a, children) + expand_all(b, children),
    decreases b.len(),
{
    if b.len() == 0 {
        assert(a + b =~= a);
        assert(expand_all(a, children) + expand_all(b, children) =~= expand_all(a, children));
    } else {
        assert((a + b).drop_last() =~= a + b.drop_last());
        assert((a + b).last() == b.last());
        lemma_expand_concat(a, b.drop_last(), children);
        assert(expand_all(a + b, children) =~= expand_all(a, children) + expand_all(b, children));
    }
}

/// Expanding elements all at depth `d` gives elements all at depth `d + 1`,
/// and nothing when `d` is the limit.
pub proof fn lemma_expand_level(s: Seq<(usize, usize)>, d: int, children: spec_fn(usize) -> Seq<usize>)
    requires
        all_at(s, d),
        1 <= d <= SEARCH_MAX_DEPTH,
    ensures
        all_at(expand_all(s, children), d + 1),
        d == SEARCH_MAX_DEPTH ==> expand_all(s, children).len() == 0,
    decreases s.len(),
{
    if s.len() > 0 {
        let p = s.drop_last();
        assert forall|i: int| 0 <= i < p.len() implies #[trigger] p[i].1 == d by {
            assert(p[i] == s[i]);
        }
        lemma_expand_level(p, d, children);
        assert(s.last().1 == d);
        let k = kids(s.last(), children);
        let e = expand_all(s, children);
        assert forall|i: int| 0 <= i < e.len() implies #[trigger] e[i].1 == d + 1 by {
            let pe = expand_all(p, children);
            if i >= pe.len() {
                assert(e[i] == k[i - pe.len()]);
            } else {
                assert(e[i] == pe[i]);
            }
        }
    }
}

/// Expanding elements of depth at least `lo` gives elements of depth at
/// least `lo + 1`, still within the limit.
pub proof fn lemma_expand_deeper(s: Seq<(usize, usize)>, lo: int, children: spec_fn(usize) -> Seq<usize>)
    requires
        all_within(s, lo),
    ensures
        all_within(expand_all(s, children), lo + 1),
    decreases s.len(),
{
    if s.len() > 0 {
        let p = s.drop_last();
        assert forall|i: int| 0 <= i < p.len() implies lo <= #[trigger] p[i].1 <= SEARCH_MAX_DEPTH by {
            assert(p[i] == s[i]);
        }
        lemma_expand_deeper(p, lo, children);
        assert(lo <= s.last().1 <= SEARCH_MAX_DEPTH);
        let k = kids(s.last(), children);
        let e = expand_all(s, children);
        assert forall|i: int| 0 <= i < e.len() implies lo + 1 <= #[trigger] e[i].1
            <= SEARCH_MAX_DEPTH by {
            let pe = expand_all(p, children);
            if i >= pe.len() {
                assert(e[i] == k[i - pe.len()]);
            } else {
                assert(e[i] == pe[i]);
            }
        }
    }
}

/// A non-empty sequence of elements within the depth limit is never its own
/// expansion: expanding always goes one level deeper.
pub proof fn lemma_expansion_fixpoint_empty(s: Seq<(usize, usize)>, children: spec_fn(usize) -> Seq<usize>)
    requires
        all_within(s, 1),
        s == expand_all(s, children),
    ensures
        s.len() == 0,
{
    lemma_expand_deeper(s, 1, children);
    lemma_expand_deeper(s, 2, children);
    lemma_expand_deeper(s, 3, children);
    lemma_expand_deeper(s, 4, children);
    if s.len() > 0 {
        assert(5 <= s[0].1 <= SEARCH_MAX_DEPTH);
    }
}

/// Level `d` (for `d` from 1 to the limit) holds elements at depth `d`.
pub proof fn lemma_level_depths(roots: Seq<usize>, children: spec_fn(usize) -> Seq<usize>, d: nat)
    requires
        1 <= d <= SEARCH_MAX_DEPTH,
    ensures
        all_at(level(roots, children, d), d as int),
    decreases d,
{
    if d > 1 {
        lemma_level_depths(roots, children, (d - 1) as nat);
        lemma_expand_level(level(roots, children, (d - 1) as nat), d - 1, children);
    }
}

/// The level order is the first level followed by the expansion of the
/// whole order, and lies within the depth limit.
pub proof fn lemma_level_order_shape(roots: Seq<usize>, children: spec_fn(usize) -> Seq<usize>)
    ensures
        level_order(roots, children) == level(roots, children, 1) + expand_all(
            level_order(roots, children),
            children,
        ),
        all_within(level_order(roots, children), 1),
{
    let l1 = level(roots, children, 1);
    let l2 = level(roots, children, 2);
    let l3 = level(roots, children, 3);
    let l4 = level(roots, children, 4);
    lemma_level_depths(roots, children, 1);
    lemma_level_depths(roots, children, 2);
    lemma_level_depths(roots, children, 3);
    lemma_level_depths(roots, children, 4);
    lemma_expand_level(l4, 4, children);
    lemma_expand_concat(l1 + l2 + l3, l4, children);
    lemma_expand_concat(l1 + l2, l3, children);
    lemma_expand_concat(l1, l2, children);
    assert(expand_all(l4, children) =~= Seq::<(usize, usize)>::empty());
    assert(level_order(roots, children) =~= l1 + expand_all(level_order(roots, children), children));
    let o = level_order(roots, children);
    assert forall|i: int| 0 <= i < o.len() implies 1 <= #[trigger] o[i].1 <= SEARCH_MAX_DEPTH by {
        if i < l1.len() {
            assert(o[i] == l1[i]);
        } else if i < l1.len() + l2.len() {
            assert(o[i] == l2[i - l1.len()]);
        } else if i < l1.len() + l2.len() + l3.len() {
            assert(o[i] == l3[i - l1.len() - l2.len()]);
        } else {
            assert(o[i] == l4[i - l1.len() - l2.len() - l3.len()]);
        }
    }
}

/// The outcome of a search over `order`: the first candidate (with its
/// depth), or `None` when no element of `order` is a candidate.
pub open spec fn is_first_candidate(
    order: Seq<(usize, usize)>,
    candidate: spec_fn(usize) -> bool,
    result: Option<(usize, usize)>,
) -> bool {
    match result {
        Some(x) => exists|k: int|
            0 <= k < order.len() && order[k] == x && candidate(x.0) && forall|j: int|
                0 <= j < k ==> !candidate(#[trigger] order[j].0),
        None => forall|k: int| 0 <= k < order.len() ==> !candidate(#[trigger] order[k].0),
    }
}

/// What the search has queued after visiting the first `i` elements of the
/// level order: the root's children and the queued children of those `i`.
pub open spec fn frontier(roots: Seq<usize>, children: spec_fn(usize) -> Seq<usize>, i: nat) -> Seq<
    (usize, usize),
> {
    level(roots, children, 1) + expand_all(level_order(roots, children).take(i as int), children)
}

/// What has been queued is a prefix of the level order, and the rest of the
/// order is the expansion of the elements not yet visited.
proof fn lemma_frontier_prefix(roots: Seq<usize>, children: spec_fn(usize) -> Seq<usize>, i: nat)
    requires
        i <= level_order(roots, children).len(),
    ensures
        level_order(roots, children) == frontier(roots, children, i) + expand_all(
            level_order(roots, children).skip(i as int),
            children,
        ),
        frontier(roots, children, i).len() <= level_order(roots, children).len(),
        forall|j: int|
            0 <= j < frontier(roots, children, i).len() ==> #[trigger] frontier(roots, children, i)[j]
                == level_order(roots, children)[j],
{
    let o = level_order(roots, children);
    let t = frontier(roots, children, i);
    let rest = o.skip(i as int);
    lemma_level_order_shape(roots, children);
    assert(o.take(i as int) + rest =~= o);
    lemma_expand_concat(o.take(i as int), rest, children);
    assert(o =~= t + expand_all(rest, children));
    assert forall|j: int| 0 <= j < t.len() implies #[trigger] t[j] == o[j] by {
        assert(o[j] == (t + expand_all(rest, children))[j]);
    }
}

/// When nothing queued is left after `i` visits, the order has no more
/// elements.
proof fn lemma_frontier_exhausted(roots: Seq<usize>, children: spec_fn(usize) -> Seq<usize>, i: nat)
    requires
        i <= level_order(roots, children).len(),
        frontier(roots, children, i).len() == i,
    ensures
        i == level_order(roots, children).len(),
{
    let o = level_order(roots, children);
    let rest = o.skip(i as int);
    lemma_frontier_prefix(roots, children, i);
    lemma_level_order_shape(roots, children);
    assert(o.take(i as int) =~= frontier(roots, children, i));
    assert(o =~= o.take(i as int) + expand_all(rest, children));
    assert(rest =~= expand_all(rest, children));
    assert forall|k: int| 0 <= k < rest.len() implies 1 <= #[trigger] rest[k].1
        <= SEARCH_MAX_DEPTH by {
        assert(rest[k] == o[i + k]);
    }
    lemma_expansion_fixpoint_empty(rest, children);
}

/// Visiting a non-candidate adds its queued children at the back.
proof fn lemma_frontier_step(roots: Seq<usize>, children: spec_fn(usize) -> Seq<usize>, i: nat)
    requires
        i < frontier(roots, children, i).len(),
        i < level_order(roots, children).len(),
    ensures
        ({
            let o = level_order(roots, children);
            let q = frontier(roots, children, i).skip(i as int);
            &&& q[0] == o[i as int]
            &&& queued_after(q.drop_first(), o[i as int].1, children(o[i as int].0))
                == frontier(roots, children, i + 1).skip((i + 1) as int)
            &&& frontier(roots, children, i + 1).len() >= frontier(roots, children, i).len()
        }),
{
    let o = level_order(roots, children);
    let t = frontier(roots, children, i);
    let t2 = frontier(roots, children, i + 1);
    let q = t.skip(i as int);
    lemma_frontier_prefix(roots, children, i);
    assert(q[0] == t[i as int]);
    assert(o.take((i + 1) as int).drop_last() =~= o.take(i as int));
    assert(o.take((i + 1) as int).last() == o[i as int]);
    assert(t2 =~= t + kids(o[i as int], children));
    assert(queued_after(q.drop_first(), o[i as int].1, children(o[i as int].0)) =~= t2.skip(
        (i + 1) as int,
    ));
}

/// The search from the state reached after visiting the first `i` elements
/// of the level order (none of them a candidate).
proof fn lemma_bfs_from(
    roots: Seq<usize>,
    children: spec_fn(usize) -> Seq<usize>,
    candidate: spec_fn(usize) -> bool,
    i: nat,
    fuel: nat,
)
    requires
        i <= frontier(roots, children, i).len(),
        i <= level_order(roots, children).len(),
        fuel >= level_order(roots, children).len() - i,
        forall|j: int| 0 <= j < i ==> !candidate(#[trigger] level_order(roots, children)[j].0),
    ensures
        is_first_candidate(
            level_order(roots, children),
            candidate,
            bfs_first(frontier(roots, children, i).skip(i as int), children, candidate, fuel),
        ),
    decreases level_order(roots, children).len() - i,
{
    let o = level_order(roots, children);
    let t = frontier(roots, children, i);
    let q = t.skip(i as int);
    lemma_frontier_prefix(roots, children, i);
    if t.len() == i {
        lemma_frontier_exhausted(roots, children, i);
        assert(q.len() == 0);
    } else {
        lemma_frontier_step(roots, children, i);
        let id = o[i as int].0;
        let d = o[i as int].1;
        if candidate(id) {
            assert(bfs_first(q, children, candidate, fuel) == Some((id, d)));
            assert(o[i as int] == (id, d));
        } else {
            lemma_bfs_from(roots, children, candidate, i + 1, (fuel - 1) as nat);
        }
    }
}

/// The search finds the first candidate in level order: started from the
/// root's children and given enough steps, it returns the first element of
/// `level_order` (down to `SEARCH_MAX_DEPTH` levels) that is a candidate, or
/// `None` exactly when none of those elements is a candidate.
pub proof fn law_search_finds_first_in_level_order(
    roots: Seq<usize>,
    children: spec_fn(usize) -> Seq<usize>,
    candidate: spec_fn(usize) -> bool,
    fuel: nat,
)
    requires
        fuel >= level_order(roots, children).len(),
    ensures
        is_first_candidate(
            level_order(roots, children),
            candidate,
            bfs_first(at_depth(roots, 1), children, candidate, fuel),
        ),
{
    let o = level_order(roots, children);
    assert(o.take(0) =~= Seq::<(usize, usize)>::empty());
    assert(expand_all(o.take(0), children) =~= Seq::<(usize, usize)>::empty());
    assert(frontier(roots, children, 0).skip(0) =~= at_depth(roots, 1));
    lemma_bfs_from(roots, children, candidate, 0, fuel);
}

} // verus!
