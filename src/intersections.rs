use vstd::prelude::*;

verus! {

/// `eligible` gives one answer for each index.
pub open spec fn decides_each<E: Fn(usize) -> bool>(eligible: E, n: usize) -> bool {
    forall|i: usize| i < n ==> !(eligible.ensures((i,), true) && eligible.ensures((i,), false))
}

/// `less` gives one answer for each pair of indices, and is a strict order:
/// irreflexive and transitive.
pub open spec fn orders_strictly<L: Fn(usize, usize) -> bool>(less: L, n: usize) -> bool {
    &&& forall|i: usize, j: usize|
        i < n && j < n ==> !(less.ensures((i, j), true) && less.ensures((i, j), false))
    &&& forall|i: usize| i < n ==> !less.ensures((i, i), true)
    &&& forall|i: usize, j: usize, k: usize|
        i < n && j < n && k < n && #[trigger] less.ensures((i, j), true) && #[trigger] less.ensures((j, k), true)
            ==> less.ensures((i, k), true)
}

/// The hit among `n` intersections: an eligible one (in front of the ray's
/// origin) that no eligible one lies nearer than, where `less(i, j)` says
/// whether intersection `i` lies nearer than `j`. `None` when no intersection
/// is eligible.
pub fn hit_index<E: Fn(usize) -> bool, L: Fn(usize, usize) -> bool>(n: usize, eligible: E, less: L) -> (r: Option<usize>)
    requires
        forall|i: usize| i < n ==> eligible.requires((i,)),
        forall|i: usize, j: usize| i < n && j < n ==> less.requires((i, j)),
        decides_each(eligible, n),
        orders_strictly(less, n),
    ensures
        r is None ==> forall|i: usize| i < n ==> eligible.ensures((i,), false),
        r matches Some(k) ==> {
            &&& k < n
            &&& eligible.ensures((k,), true)
            &&& forall|j: usize| j < n && eligible.ensures((j,), true) ==> !less.ensures((j, k), true)
        },
{
    let mut best: Option<usize> = None;
    let mut i: usize = 0;
    while i < n
        invariant
            i <= n,
            forall|i: usize| i < n ==> eligible.requires((i,)),
            forall|i: usize, j: usize| i < n && j < n ==> less.requires((i, j)),
            decides_each(eligible, n),
            orders_strictly(less, n),
            best is None ==> forall|j: usize| j < i ==> eligible.ensures((j,), false),
            best matches Some(k) ==> {
                &&& k < i
                &&& eligible.ensures((k,), true)
                &&& forall|j: usize| j < i && eligible.ensures((j,), true) ==> !less.ensures((j, k), true)
            },
        decreases n - i,
    {
        if eligible(i) {
            match best {
                None => {
                    best = Some(i);
                },
                Some(k) => {
                    if less(i, k) {
                        proof {
                            assert forall|j: usize| j < i + 1 && eligible.ensures((j,), true)
                                implies !less.ensures((j, i), true) by {
                                if j < i && less.ensures((j, i), true) {
                                    assert(less.ensures((j, k), true));
                                }
                            }
                        }
                        best = Some(i);
                    }
                },
            }
        }
        i = i + 1;
    }
    best
}

/// `order` lists each of the indices `0..n` once.
pub open spec fn is_arrangement(order: Seq<usize>, n: usize) -> bool {
    &&& order.len() == n
    &&& forall|a: int| 0 <= a < n ==> order[a] < n
    &&& forall|a: int, b: int| 0 <= a < b < n ==> order[a] != order[b]
}

/// The `n` intersections in ascending order: the indices `0..n`, each once, so
/// that none lies nearer than one listed before it, where `less(i, j)` says
/// whether intersection `i` lies nearer than `j`.
pub fn ascending_order<L: Fn(usize, usize) -> bool>(n: usize, less: L) -> (r: Vec<usize>)
    requires
        forall|i: usize, j: usize| i < n && j < n ==> less.requires((i, j)),
        orders_strictly(less, n),
    ensures
        is_arrangement(r@, n),
        forall|a: int, b: int| 0 <= a < b < n ==> !less.ensures((r@[b], r@[a]), true),
{
    let mut order: Vec<usize> = Vec::new();
    let mut x: usize = 0;
    while x < n
        invariant
            x <= n,
            forall|i: usize, j: usize| i < n && j < n ==> less.requires((i, j)),
            orders_strictly(less, n),
            order@.len() == x,
            forall|a: int| 0 <= a < x ==> order@[a] < x,
            forall|a: int, b: int| 0 <= a < b < x ==> order@[a] != order@[b],
            forall|a: int, b: int| 0 <= a < b < x ==> !less.ensures((order@[b], order@[a]), true),
        decreases n - x,
    {
        let mut p: usize = 0;
        while p < order.len() && !less(x, order[p])
            invariant
                x < n,
                p <= order@.len(),
                order@.len() == x,
                forall|i: usize, j: usize| i < n && j < n ==> less.requires((i, j)),
                orders_strictly(less, n),
                forall|a: int| 0 <= a < x ==> order@[a] < x,
                forall|q: int| 0 <= q < p ==> less.ensures((x, order@[q]), false),
            decreases x - p,
        {
            p = p + 1;
        }
        let ghost before = order@;
        proof {
            assert(p < before.len() ==> less.ensures((x, before[p as int]), true));
        }
        order.insert(p, x);
        proof {
            let now = order@;
            assert(now =~= before.insert(p as int, x));
            assert forall|a: int, b: int| 0 <= a < b < x + 1 implies !less.ensures((now[b], now[a]), true) by {
                if b < p {
                } else if b == p {
                    assert(less.ensures((x, before[a]), false));
                } else if a < p {
                    // now[a] = before[a], now[b] = before[b - 1]
                } else if a == p {
                    // now[a] = x, now[b] = before[b - 1], with b - 1 >= p
                    if less.ensures((before[b - 1], x), true) {
                        if b - 1 > p {
                            assert(!less.ensures((before[b - 1], before[p as int]), true));
                        }
                        assert(less.ensures((before[b - 1], before[p as int]), true));
                    }
                } else {
                }
            }
        }
        x = x + 1;
    }
    order
}

} // verus!
