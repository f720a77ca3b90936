use vstd::arithmetic::mul::lemma_mul_inequality;
use vstd::arithmetic::mul::lemma_mul_is_distributive_add_other_way;
use vstd::arithmetic::mul::lemma_mul_is_distributive_sub_other_way;
use vstd::arithmetic::power::lemma_pow0;
use vstd::arithmetic::power::lemma_pow1;
use vstd::arithmetic::power::lemma_pow_adds;
use vstd::arithmetic::power::lemma_pow_increases;
use vstd::arithmetic::power::pow;
use vstd::prelude::*;

verus! {

/// The number of points the fold subdivision produces for a whole traversal:
/// a rule of `folds_per_rule` folds replaces each segment by
/// `folds_per_rule + 1` sub-segments per recursion level, the recursion runs
/// from depth 2 to `complexity`, and the traversal emits one point per final
/// segment boundary plus the single leading start point.
pub open spec fn fold_point_count(folds_per_rule: u64, complexity: u64) -> int {
    pow(folds_per_rule as int + 1, (complexity - 1) as nat) + 1
}

/// One unfolding of the power in the point-count formula:
/// `pow(b, e + 1) == b * pow(b, e)`.
proof fn lemma_pow_unfold(b: int, e: nat)
    requires
        b >= 1,
    ensures
        pow(b, (e + 1) as nat) == b * pow(b, e),
{
    lemma_pow1(b);
    lemma_pow_adds(b, 1nat, e);
}

/// The generic recursive fold engine.  Its index layer lives here: how many
/// points a subdivision emits, which pins the per-kind point-count formulas
/// to the recursion itself.  The coordinate layer (rotating scaled segment
/// vectors under mutated random draws) is floating-point and lives with the
/// embedding application.
pub struct FoldCurveGenerator;

impl FoldCurveGenerator {
    /// The number of points one branch of the subdivision emits.  A branch
    /// at the recursion floor emits its rule's derived points plus the
    /// segment end; the single leading start point of the whole traversal is
    /// emitted by branch 0 alone, so that consecutive segments share their
    /// boundary points.  Above the floor a branch splits into
    /// `folds_per_rule + 1` child branches, numbered left to right, and
    /// emits their concatenation.
    fn recursive_count(complexity: u64, depth: u64, div: u64, folds_per_rule: u64) -> (r: u64)
        requires
            1 <= folds_per_rule,
            2 <= depth <= complexity,
            div as int <= pow(folds_per_rule as int + 1, (depth - 2) as nat) - 1,
            pow(folds_per_rule as int + 1, (complexity - 1) as nat) + 1 <= u64::MAX,
        ensures
            r as int == (if div == 0 {
                1int
            } else {
                0int
            }) + pow(folds_per_rule as int + 1, (complexity - depth + 1) as nat),
        decreases complexity - depth,
    {
        let ghost bi = folds_per_rule as int + 1;
        proof {
            lemma_pow1(bi);
            lemma_pow_increases((folds_per_rule + 1) as nat, 1, (complexity - 1) as nat);
            assert(bi <= pow(bi, (complexity - 1) as nat));
        }
        let b = folds_per_rule + 1;
        if depth == complexity {
            proof {
                assert(pow(bi, (complexity - depth + 1) as nat) == bi);
            }
            if div == 0 {
                folds_per_rule + 2
            } else {
                folds_per_rule + 1
            }
        } else {
            let ghost p = pow(bi, (complexity - depth) as nat);
            proof {
                vstd::arithmetic::power::lemma_pow_positive(bi, (complexity - depth) as nat);
                lemma_pow_unfold(bi, (complexity - depth) as nat);
                assert(pow(bi, (complexity - depth + 1) as nat) == bi * p);
                lemma_pow_increases(
                    (folds_per_rule + 1) as nat,
                    (complexity - depth + 1) as nat,
                    (complexity - 1) as nat,
                );
            }
            let mut total: u64 = 0;
            let mut i: u64 = 0;
            while i < b
                invariant
                    1 <= folds_per_rule,
                    b == folds_per_rule + 1,
                    bi == b as int,
                    2 <= depth < complexity,
                    div as int <= pow(bi, (depth - 2) as nat) - 1,
                    pow(bi, (complexity - 1) as nat) + 1 <= u64::MAX,
                    p == pow(bi, (complexity - depth) as nat),
                    p >= 1,
                    bi * p == pow(bi, (complexity - depth + 1) as nat),
                    bi * p <= pow(bi, (complexity - 1) as nat),
                    i <= b,
                    total as int == (if div == 0 && i > 0 {
                        1int
                    } else {
                        0int
                    }) + i * p,
                decreases b - i,
            {
                let ghost pd = pow(bi, (depth - 2) as nat);
                proof {
                    lemma_pow_unfold(bi, (depth - 2) as nat);
                    assert(pow(bi, (depth - 1) as nat) == bi * pd);
                    lemma_mul_inequality(div as int, pd - 1, bi);
                    lemma_mul_is_distributive_sub_other_way(bi, pd, 1int);
                    assert(div as int * bi <= pd * bi - bi);
                    lemma_pow_increases(
                        (folds_per_rule + 1) as nat,
                        (depth - 1) as nat,
                        (complexity - 1) as nat,
                    );
                    assert(bi * div + i <= pow(bi, (depth - 1) as nat) - 1);
                }
                let child_div = b * div + i;
                proof {
                    lemma_mul_inequality(i as int + 1, bi, p);
                    lemma_mul_is_distributive_add_other_way(p, i as int, 1int);
                    assert((i as int + 1) * p == i * p + p);
                    assert((i as int + 1) * p <= bi * p);
                }
                let child = Self::recursive_count(complexity, depth + 1, child_div, folds_per_rule);
                proof {
                    if div != 0 {
                        lemma_mul_inequality(1int, div as int, bi);
                        assert(child_div != 0);
                    }
                    assert(child as int == (if div == 0 && i == 0 {
                        1int
                    } else {
                        0int
                    }) + p);
                }
                total = total + child;
                i = i + 1;
            }
            total
        }
    }

    /// The number of points a whole fold traversal emits, computed by the
    /// subdivision itself: it equals the closed form
    /// `(folds_per_rule + 1) ^ (complexity - 1) + 1`.
    pub fn point_count(folds_per_rule: u64, complexity: u64) -> (r: u64)
        requires
            1 <= folds_per_rule,
            2 <= complexity,
            fold_point_count(folds_per_rule, complexity) <= u64::MAX,
        ensures
            r as int == fold_point_count(folds_per_rule, complexity),
    {
        proof {
            lemma_pow0(folds_per_rule as int + 1);
        }
        Self::recursive_count(complexity, 2, 0, folds_per_rule)
    }
}

} // verus!
