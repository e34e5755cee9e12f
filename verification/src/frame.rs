//! The 32-bit frame counter: arithmetic is modular, so wraparound is a
//! valid step, never an error or a discontinuity by itself.

use vstd::prelude::*;
use vstd::arithmetic::div_mod::{lemma_add_mod_noop, lemma_small_mod};

verus! {

/// The frame counter `n` steps ahead of `f`, modulo 2^32.
pub open spec fn spec_wrap_add(f: u32, n: int) -> u32
    recommends
        n >= 0,
{
    ((f + n) % 0x100000000) as u32
}

/// Zero steps ahead is the counter itself.
pub proof fn lemma_wrap_add_zero(f: u32)
    ensures
        spec_wrap_add(f, 0) == f,
{
    lemma_small_mod(f as nat, 0x100000000);
}

/// Stepping the counter once more advances the wrapped value by one, with
/// `u32::MAX` stepping to 0.
pub proof fn lemma_wrap_add_step(f: u32, n: int)
    requires
        n >= 0,
    ensures
        spec_wrap_add(f, n + 1) == (if spec_wrap_add(f, n) == u32::MAX {
            0u32
        } else {
            (spec_wrap_add(f, n) + 1) as u32
        }),
{
    let m = 0x100000000int;
    let a = f + n;
    lemma_add_mod_noop(a, 1, m);
    lemma_small_mod(1nat, m as nat);
    lemma_small_mod((a % m) as nat, m as nat);
    if a % m == m - 1 {
        assert((a % m + 1) % m == 0) by {
            assert(a % m + 1 == m);
            assert(m % m == 0) by (nonlinear_arith)
                requires
                    m > 0,
            ;
        }
    } else {
        lemma_small_mod((a % m + 1) as nat, m as nat);
    }
}

/// Stepping a wrapped counter once is the same as taking one more step
/// from the start.
pub proof fn lemma_wrap_add_assoc(f: u32, n: int)
    requires
        n >= 0,
    ensures
        spec_wrap_add(spec_wrap_add(f, n), 1) == spec_wrap_add(f, n + 1),
{
    let m = 0x100000000int;
    let a = f + n;
    lemma_add_mod_noop(a, 1, m);
    lemma_small_mod(1nat, m as nat);
    lemma_small_mod((a % m) as nat, m as nat);
    assert((a % m + 1) % m == (a + 1) % m);
}

/// Advances a frame counter by one, wrapping at `u32::MAX`.
pub fn next_frame(f: u32) -> (r: u32)
    ensures
        r == spec_wrap_add(f, 1),
{
    proof {
        lemma_wrap_add_zero(f);
        lemma_wrap_add_step(f, 0);
    }
    f.wrapping_add(1)
}

} // verus!
