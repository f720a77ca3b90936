use vstd::arithmetic::power2::lemma2_to64;
use vstd::arithmetic::power2::lemma_pow2_strictly_increases;
use vstd::arithmetic::power2::lemma_pow2_unfold;
use vstd::arithmetic::power2::pow2;
use vstd::multiset::Multiset;
use vstd::prelude::*;

use crate::arith::pow2_u64;
use crate::shape::Order;

verus! {

/// The complexity after clamping into the binary tree's safe recursion
/// range, which keeps the chart's point count bounded for any request.
pub open spec fn clamped_complexity(c: u64) -> int {
    if c < 2 {
        2
    } else if c > 10 {
        10
    } else {
        c as int
    }
}

/// The number of points a binary tree chart holds: `2^(clamp(c, 2, 10) + 1)`.
pub open spec fn binarytree_point_count(c: u64) -> int {
    pow2((clamped_complexity(c) + 1) as nat) as int
}

proof fn lemma_binarytree_point_count_bounds(c: u64)
    ensures
        8 <= binarytree_point_count(c) <= 2048,
{
    lemma2_to64();
    let k = (clamped_complexity(c) + 1) as nat;
    if k < 11 {
        lemma_pow2_strictly_increases(k, 11);
    }
    if 3 < k {
        lemma_pow2_strictly_increases(3, k);
    }
}

/// Whether heap index `k` lies in the subtree rooted at index `d` of the
/// implicit binary heap (root 1; children of `i` at `2 i` and `2 i + 1`,
/// hence parent of `k` at `k / 2`).
pub open spec fn in_subtree(d: u64, k: u64) -> bool
    decreases k,
{
    if d < 1 || k < d {
        false
    } else if k == d {
        true
    } else {
        in_subtree(d, (k / 2) as u64)
    }
}

/// The heap indices that the subdivision emits below node `d`, in emission
/// order: each visited node emits its two child indices, then everything
/// below its left child, then everything below its right child.  Nodes at or
/// beyond `threshold` are not visited.  Thresholds beyond any chart's range
/// (the point count is clamped to 2048, so the threshold is at most 1024)
/// emit nothing; the cap keeps the index arithmetic within `u64`.
pub open spec fn emitted_indices(threshold: u64, d: u64) -> Seq<u64>
    decreases 2 * threshold - d,
{
    if d < 1 || d >= threshold || threshold > 0x1000 {
        Seq::empty()
    } else {
        seq![(2 * d) as u64, (2 * d + 1) as u64] + emitted_indices(threshold, (2 * d) as u64)
            + emitted_indices(threshold, (2 * d + 1) as u64)
    }
}

/// The binary tree chart: a branching structure over an implicit binary
/// heap, whose parent/child edges are recovered from index arithmetic alone.
pub struct BinaryTree;

impl BinaryTree {
    /// The number of points the chart holds for the given complexity.
    pub fn point_count(complexity: u64) -> (r: u64)
        ensures
            r == binarytree_point_count(complexity),
            8 <= r <= 2048,
    {
        let limited: u64 = if complexity < 2 {
            2
        } else if complexity > 10 {
            10
        } else {
            complexity
        };
        proof {
            lemma_binarytree_point_count_bounds(complexity);
        }
        pow2_u64(limited + 1)
    }

    /// The heap indices of the subdivision below node `d`, in emission order.
    fn divide_indices(threshold: u64, d: u64) -> (r: Vec<u64>)
        requires
            1 <= d,
            threshold <= 0x1000,
        ensures
            r@ == emitted_indices(threshold, d),
        decreases 2 * threshold - d,
    {
        let mut r: Vec<u64> = Vec::new();
        if d >= threshold {
            proof {
                assert(r@ =~= emitted_indices(threshold, d));
            }
            return r;
        }
        r.push(2 * d);
        r.push(2 * d + 1);
        let mut left = Self::divide_indices(threshold, 2 * d);
        let mut right = Self::divide_indices(threshold, 2 * d + 1);
        r.append(&mut left);
        r.append(&mut right);
        proof {
            assert(r@ =~= emitted_indices(threshold, d));
        }
        r
    }

    /// The heap indices of the whole chart in emission order: the two seed
    /// points at indices 0 and 1, then everything the subdivision emits
    /// below node 1.  Every index below the point count occurs exactly once,
    /// so sorting the emitted points by index yields one point per position.
    pub fn base_point_indices(complexity: u64) -> (r: Vec<u64>)
        ensures
            r@.len() == binarytree_point_count(complexity),
            forall|k: u64|
                r@.to_multiset().count(k) == if (k as int) < binarytree_point_count(complexity) {
                    1nat
                } else {
                    0nat
                },
            forall|j: int|
                0 <= j < r@.len() ==> ((#[trigger] r@[j]) as int) < binarytree_point_count(
                    complexity,
                ),
    {
        let threshold = Self::point_count(complexity) / 2;
        let mut r: Vec<u64> = Vec::new();
        r.push(0);
        r.push(1);
        let mut rest = Self::divide_indices(threshold, 1);
        r.append(&mut rest);
        proof {
            assert(r@ =~= seq![0u64, 1u64] + emitted_indices(threshold, 1));
            lemma_base_point_indices_complete(r@, threshold, complexity);
        }
        r
    }

    /// The chart's connectivity: one edge per non-root point, linking each
    /// point to its parent in the implicit binary heap.
    pub fn generate_orders(&self, complexity: u64) -> (r: Vec<Order>)
        ensures
            r@.len() == binarytree_point_count(complexity) - 1,
            forall|i: int|
                0 <= i < r@.len() ==> {
                    &&& (#[trigger] r@[i]).link.0 as int == (i + 1) / 2
                    &&& r@[i].link.1 as int == i + 1
                },
    {
        let max_depth = Self::point_count(complexity) - 1;
        let mut orders: Vec<Order> = Vec::new();
        let mut i: u64 = 0;
        while i < max_depth
            invariant
                i <= max_depth,
                max_depth <= 2047,
                orders@.len() == i,
                forall|j: int|
                    0 <= j < orders@.len() ==> {
                        &&& (#[trigger] orders@[j]).link.0 as int == (j + 1) / 2
                        &&& orders@[j].link.1 as int == j + 1
                    },
            decreases max_depth - i,
        {
            orders.push(Order { link: ((i + 1) / 2, i + 1) });
            i = i + 1;
        }
        orders
    }
}

proof fn lemma_base_point_indices_complete(s: Seq<u64>, threshold: u64, c: u64)
    requires
        threshold == binarytree_point_count(c) / 2,
        8 <= binarytree_point_count(c) <= 2048,
        s == seq![0u64, 1u64] + emitted_indices(threshold, 1),
    ensures
        s.len() == binarytree_point_count(c),
        forall|k: u64|
            s.to_multiset().count(k) == if (k as int) < binarytree_point_count(c) {
                1nat
            } else {
                0nat
            },
        forall|j: int| 0 <= j < s.len() ==> ((#[trigger] s[j]) as int) < binarytree_point_count(c),
{
    broadcast use vstd::seq_lib::group_to_multiset_ensures;
    broadcast use vstd::multiset::group_multiset_axioms;

    let pc = binarytree_point_count(c);
    assert(pc == 2 * threshold) by {
        lemma_pow2_unfold((clamped_complexity(c) + 1) as nat);
        assert(pow2(clamped_complexity(c) as nat) as int == pc / 2);
    }
    let head = seq![0u64, 1u64];
    let tail = emitted_indices(threshold, 1);
    vstd::seq_lib::lemma_multiset_commutative(head, tail);
    assert(head =~= Seq::<u64>::empty().push(0u64).push(1u64));
    assert forall|k: u64|
        s.to_multiset().count(k) == if (k as int) < pc {
            1nat
        } else {
            0nat
        } by {
        lemma_emitted_count(threshold, 1, k);
        if k >= 2 {
            lemma_root_subtree(k);
        }
        assert(head.to_multiset().count(k) == if k == 0 || k == 1 {
            1nat
        } else {
            0nat
        });
    }
    lemma_indicator_len(s.to_multiset(), pc);
    assert(s.len() == s.to_multiset().len());
    assert forall|j: int| 0 <= j < s.len() implies ((#[trigger] s[j]) as int) < pc by {
        assert(s.to_multiset().count(s[j]) > 0);
    }
}

/// Every heap index of at least 1 lies in the root's subtree.
proof fn lemma_root_subtree(k: u64)
    requires
        k >= 1,
    ensures
        in_subtree(1, k),
    decreases k,
{
    if k > 1 {
        lemma_root_subtree(k / 2);
    }
}

/// A proper member of the subtree at `d` is at least `2 d`: it lies below
/// one of the two children of `d`.
proof fn lemma_subtree_proper_ge(d: u64, k: u64)
    requires
        in_subtree(d, k),
        k != d,
    ensures
        k >= 2 * d,
    decreases k,
{
    assert(in_subtree(d, (k / 2) as u64));
    assert(k / 2 >= d);
}

/// Membership in the subtree at `d`, other than `d` itself, splits exactly
/// into membership in the subtrees at the two children of `d`.
proof fn lemma_subtree_split(d: u64, k: u64)
    requires
        1 <= d,
        d <= 0x4000_0000_0000_0000,
    ensures
        (in_subtree(d, k) && k != d) <==> (in_subtree((2 * d) as u64, k) || in_subtree(
            (2 * d + 1) as u64,
            k,
        )),
    decreases k,
{
    let l = (2 * d) as u64;
    let rgt = (2 * d + 1) as u64;
    if in_subtree(d, k) && k != d {
        assert(k > d);
        assert(in_subtree(d, (k / 2) as u64));
        if k / 2 == d {
            assert(k == 2 * d || k == 2 * d + 1);
        } else {
            lemma_subtree_split(d, (k / 2) as u64);
            if in_subtree(l, (k / 2) as u64) {
                lemma_subtree_proper_ge(d, (k / 2) as u64);
                assert(k > l);
                assert(in_subtree(l, k));
            } else {
                lemma_subtree_proper_ge(d, (k / 2) as u64);
                assert(k / 2 >= 2 * d);
                assert(k > rgt);
                assert(in_subtree(rgt, k));
            }
        }
    }
    if in_subtree(l, k) {
        lemma_subtree_member_of_parent(d, l, k);
    }
    if in_subtree(rgt, k) {
        lemma_subtree_member_of_parent(d, rgt, k);
    }
}

/// A member of the subtree at a child of `d` is a proper member of the
/// subtree at `d`.
proof fn lemma_subtree_member_of_parent(d: u64, child: u64, k: u64)
    requires
        1 <= d,
        child == 2 * d || child == 2 * d + 1,
        in_subtree(child, k),
    ensures
        in_subtree(d, k),
        k != d,
    decreases k,
{
    assert(k >= child > d);
    if k == child {
        assert(k / 2 == d);
        assert(in_subtree(d, (k / 2) as u64));
    } else {
        lemma_subtree_member_of_parent(d, child, (k / 2) as u64);
        assert(k > d);
        assert(in_subtree(d, (k / 2) as u64));
    }
}

/// The subtrees at the two children of `d` are disjoint.
proof fn lemma_subtree_disjoint(d: u64, k: u64)
    requires
        1 <= d,
        d <= 0x4000_0000_0000_0000,
    ensures
        !(in_subtree((2 * d) as u64, k) && in_subtree((2 * d + 1) as u64, k)),
    decreases k,
{
    let l = (2 * d) as u64;
    let rgt = (2 * d + 1) as u64;
    if in_subtree(l, k) && in_subtree(rgt, k) {
        assert(k >= rgt);
        if k == rgt {
            assert(in_subtree(l, (k / 2) as u64));
            assert(k / 2 == d);
            assert(false);
        } else {
            assert(k > rgt > l);
            assert(in_subtree(l, (k / 2) as u64));
            assert(in_subtree(rgt, (k / 2) as u64));
            lemma_subtree_disjoint(d, (k / 2) as u64);
        }
    }
}

/// The subdivision below node `d` emits exactly the proper members of the
/// subtree at `d` that lie below `2 * threshold`, each exactly once.
proof fn lemma_emitted_count(threshold: u64, d: u64, k: u64)
    requires
        1 <= d,
        threshold <= 0x1000,
    ensures
        emitted_indices(threshold, d).to_multiset().count(k) == if in_subtree(d, k) && k != d
            && (k as int) < 2 * threshold {
            1nat
        } else {
            0nat
        },
    decreases 2 * threshold - d,
{
    broadcast use vstd::seq_lib::group_to_multiset_ensures;
    broadcast use vstd::multiset::group_multiset_axioms;

    let e = emitted_indices(threshold, d);
    if d >= threshold {
        assert(e =~= Seq::<u64>::empty());
        if in_subtree(d, k) && k != d {
            lemma_subtree_proper_ge(d, k);
        }
    } else {
        let l = (2 * d) as u64;
        let rgt = (2 * d + 1) as u64;
        let head = seq![l, rgt];
        let el = emitted_indices(threshold, l);
        let er = emitted_indices(threshold, rgt);
        assert(e == head + el + er);
        vstd::seq_lib::lemma_multiset_commutative(head + el, er);
        vstd::seq_lib::lemma_multiset_commutative(head, el);
        assert(head =~= Seq::<u64>::empty().push(l).push(rgt));
        assert(head.to_multiset().count(k) == if k == l || k == rgt {
            1nat
        } else {
            0nat
        });
        lemma_emitted_count(threshold, l, k);
        lemma_emitted_count(threshold, rgt, k);
        lemma_subtree_split(d, k);
        lemma_subtree_disjoint(d, k);
        if k == l || k == rgt {
            lemma_subtree_member_of_parent(d, k, k);
            if in_subtree(l, k) && k != l {
                lemma_subtree_proper_ge(l, k);
            }
            if in_subtree(rgt, k) && k != rgt {
                lemma_subtree_proper_ge(rgt, k);
            }
        } else {
            if in_subtree(l, k) {
                lemma_subtree_proper_ge(l, k);
            }
            if in_subtree(rgt, k) {
                lemma_subtree_proper_ge(rgt, k);
            }
        }
    }
}

/// The two derivations of the tree topology agree: a sequence that holds
/// each heap index below `n` exactly once — as `base_point_indices` emits
/// them — and that has been sorted ascending puts index `j` at position `j`.
/// The connectivity from `generate_orders` therefore links, at every
/// complexity, exactly the positions that are parent and child in the
/// implicit binary heap.
pub proof fn lemma_sorted_indices_are_positions(s: Seq<u64>, n: int)
    requires
        s.len() == n,
        forall|a: int, b: int| 0 <= a < b < n ==> (#[trigger] s[a]) <= (#[trigger] s[b]),
        forall|k: u64|
            s.to_multiset().count(k) == if (k as int) < n {
                1nat
            } else {
                0nat
            },
    ensures
        forall|j: int| 0 <= j < n ==> (#[trigger] s[j]) as int == j,
{
    broadcast use vstd::seq_lib::group_to_multiset_ensures;
    broadcast use vstd::multiset::group_multiset_axioms;

    s.lemma_multiset_has_no_duplicates_conv();
    assert forall|a: int, b: int| 0 <= a < b < n implies (#[trigger] s[a]) < (#[trigger] s[b]) by {
        assert(s[a] != s[b]);
    }
    assert forall|j: int| 0 <= j < n implies (#[trigger] s[j]) as int == j by {
        assert(s.contains(s[j]));
        let cj = s.to_multiset().count(s[j]);
        assert(cj > 0);
        assert((s[j] as int) < n);
        lemma_strictly_increasing_gap(s, 0, j);
        lemma_strictly_increasing_gap(s, j, n - 1);
        assert(s.contains(s[n - 1]));
        let cl = s.to_multiset().count(s[n - 1]);
        assert(cl > 0);
        assert((s[n - 1] as int) < n);
    }
}

/// In a strictly increasing sequence the values grow at least as fast as the
/// positions.
proof fn lemma_strictly_increasing_gap(s: Seq<u64>, a: int, b: int)
    requires
        forall|i: int, j: int| 0 <= i < j < s.len() ==> (#[trigger] s[i]) < (#[trigger] s[j]),
        0 <= a <= b < s.len(),
    ensures
        s[b] as int - s[a] as int >= b - a,
    decreases b - a,
{
    if a < b {
        lemma_strictly_increasing_gap(s, a, b - 1);
    }
}

/// A multiset holding each value below `n` exactly once has exactly `n`
/// elements.
proof fn lemma_indicator_len(m: Multiset<u64>, n: int)
    requires
        0 <= n <= 0x1_0000_0000,
        forall|k: u64|
            m.count(k) == if (k as int) < n {
                1nat
            } else {
                0nat
            },
    ensures
        m.len() == n,
    decreases n,
{
    broadcast use vstd::multiset::group_multiset_axioms;

    if n == 0 {
        assert(m =~= Multiset::<u64>::empty());
    } else {
        let v = (n - 1) as u64;
        let m2 = m.remove(v);
        assert(Multiset::<u64>::singleton(v).subset_of(m)) by {
            assert(forall|k: u64|
                Multiset::<u64>::singleton(v).count(k) <= m.count(k));
        }
        vstd::multiset::axiom_len_sub(m, Multiset::<u64>::singleton(v));
        assert(forall|k: u64|
            m2.count(k) == if (k as int) < n - 1 {
                1nat
            } else {
                0nat
            });
        lemma_indicator_len(m2, n - 1);
    }
}

} // verus!
