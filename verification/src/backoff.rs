//! Rests that double after each failure, up to a cap.

use vstd::arithmetic::power2::*;
use vstd::prelude::*;

verus! {

/// 100 ms doubled so many times, at most 5 s.
pub open spec fn capped(doublings: nat) -> nat {
    if 100 * pow2(doublings) <= 5000 {
        100 * pow2(doublings)
    } else {
        5000
    }
}

/// 100 ms doubled so many times, at most 5 s.
pub fn capped_backoff(doublings: u32) -> (ms: u64)
    ensures
        ms == capped(doublings as nat),
{
    proof {
        lemma2_to64();
        if doublings > 6 {
            lemma_pow2_strictly_increases(6, doublings as nat);
        }
    }
    if doublings >= 6 {
        return 5000;
    }
    let mut ms: u64 = 100;
    let mut n: u32 = 0;
    while n < doublings
        invariant
            n <= doublings < 6,
            ms == 100 * pow2(n as nat),
            ms <= 3200,
        decreases doublings - n,
    {
        proof {
            lemma_pow2_unfold((n + 1) as nat);
            lemma2_to64();
            if n + 1 < 5 {
                lemma_pow2_strictly_increases((n + 1) as nat, 5);
            }
        }
        ms = 2 * ms;
        n = n + 1;
    }
    ms
}

/// The rest grows with the number of doublings, until the cap is reached.
pub proof fn law_backoff_grows_to_cap(a: nat, b: nat)
    requires
        a <= b,
    ensures
        100 <= capped(a) <= capped(b) <= 5000,
        a < b && capped(a) < 5000 ==> capped(a) < capped(b),
        a >= 6 ==> capped(a) == 5000,
{
    lemma2_to64();
    if a < b {
        lemma_pow2_strictly_increases(a, b);
    }
    if a > 0 {
        lemma_pow2_strictly_increases(0, a);
    }
    if a > 6 {
        lemma_pow2_strictly_increases(6, a);
    }
}

/// The rest begins with 100 ms, and a further doubling doubles it, but never to
/// more than 5 s.
pub proof fn law_backoff_doubles(doublings: nat)
    ensures
        capped(0) == 100,
        capped(doublings + 1) == if 2 * capped(doublings) <= 5000 {
            2 * capped(doublings)
        } else {
            5000
        },
{
    lemma2_to64();
    lemma_pow2_unfold(doublings + 1);
}

} // verus!
