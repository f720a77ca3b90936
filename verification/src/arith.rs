use vstd::arithmetic::power2::lemma2_to64;
use vstd::arithmetic::power2::lemma_pow2_strictly_increases;
use vstd::arithmetic::power2::lemma_pow2_unfold;
use vstd::arithmetic::power2::pow2;
use vstd::prelude::*;

verus! {

/// Every power of two up to `pow2(63)` fits in a `u64`.
pub proof fn lemma_pow2_fits_u64(e: nat)
    requires
        e <= 63,
    ensures
        pow2(e) <= 0x8000_0000_0000_0000,
{
    vstd::arithmetic::power2::lemma2_to64_rest();
    if e < 63 {
        lemma_pow2_strictly_increases(e, 63);
    }
}

/// Computes `pow2(e)` exactly, for exponents whose power fits in a `u64`.
pub fn pow2_u64(e: u64) -> (r: u64)
    requires
        pow2(e as nat) <= u64::MAX,
    ensures
        r == pow2(e as nat),
{
    proof {
        lemma2_to64();
    }
    let mut r: u64 = 1;
    let mut i: u64 = 0;
    while i < e
        invariant
            i <= e,
            r == pow2(i as nat),
            pow2(e as nat) <= u64::MAX,
        decreases e - i,
    {
        proof {
            lemma_pow2_unfold((i + 1) as nat);
            if i + 1 < e {
                lemma_pow2_strictly_increases((i + 1) as nat, e as nat);
            }
        }
        r = r * 2;
        i = i + 1;
    }
    r
}

} // verus!
