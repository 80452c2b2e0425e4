//! Element lengths, from the keying speed.
//!
//! At `wpm` words per minute a dit lasts 1200 / `wpm` milliseconds, rounded
//! to the nearest whole millisecond. A dah lasts three dits, and one dit of
//! silence follows every element.

use vstd::prelude::*;

verus! {

/// `n / d` rounded to the nearest whole number, a half going upward.
pub open spec fn rounded_div(n: nat, d: nat) -> nat
    recommends
        d > 0,
{
    (2 * n + d) / (2 * d)
}

/// The length of a dit in milliseconds at `wpm` words per minute.
pub open spec fn dit_millis(wpm: nat) -> nat
    recommends
        wpm > 0,
{
    rounded_div(1200, wpm)
}

/// The length of a dah in milliseconds at `wpm` words per minute.
pub open spec fn dah_millis(wpm: nat) -> nat
    recommends
        wpm > 0,
{
    3 * dit_millis(wpm)
}

/// `rounded_div(n, d)` lies within one half of the exact quotient: it is at
/// least `n / d - 1/2` and less than `n / d + 1/2`, here multiplied out by
/// `2 * d`.
pub proof fn lemma_rounded_div_is_nearest(n: nat, d: nat)
    requires
        d > 0,
    ensures
        2 * n - d < 2 * d * rounded_div(n, d) <= 2 * n + d,
{
    let q = rounded_div(n, d);
    assert((2 * n + d) == (2 * d) * q + (2 * n + d) % (2 * d)) by {
        vstd::arithmetic::div_mod::lemma_fundamental_div_mod((2 * n + d) as int, (2 * d) as int);
    }
    assert(0 <= (2 * n + d) % (2 * d) < 2 * d) by {
        vstd::arithmetic::div_mod::lemma_mod_pos_bound((2 * n + d) as int, (2 * d) as int);
    }
    assert(2 * d * q == (2 * d) * q) by (nonlinear_arith);
}

/// No other whole number lies that close to the exact quotient.
pub proof fn lemma_nearest_is_rounded_div(n: nat, d: nat, q: nat)
    requires
        d > 0,
        2 * n - d < 2 * d * q <= 2 * n + d,
    ensures
        q == rounded_div(n, d),
{
    let r = rounded_div(n, d);
    lemma_rounded_div_is_nearest(n, d);
    if q < r {
        assert(2 * d * r >= 2 * d * q + 2 * d) by (nonlinear_arith)
            requires
                q + 1 <= r,
                d > 0,
        ;
    } else if r < q {
        assert(2 * d * q >= 2 * d * r + 2 * d) by (nonlinear_arith)
            requires
                r + 1 <= q,
                d > 0,
        ;
    }
}

/// At every speed a dit is 1200 / `wpm` milliseconds rounded to the nearest
/// whole one, and a dah is exactly three dits.
pub proof fn lemma_element_lengths(wpm: nat)
    requires
        wpm >= 1,
    ensures
        2 * 1200 - wpm < 2 * wpm * dit_millis(wpm) <= 2 * 1200 + wpm,
        dah_millis(wpm) == 3 * dit_millis(wpm),
{
    lemma_rounded_div_is_nearest(1200, wpm);
}

/// The length of a dit in milliseconds at `wpm` words per minute.
pub fn dit_length(wpm: u8) -> (ms: u64)
    requires
        wpm >= 1,
    ensures
        ms == dit_millis(wpm as nat),
        2 * 1200 - wpm < 2 * wpm * ms <= 2 * 1200 + wpm,
        4 < ms <= 1200,
{
    let speed: u64 = wpm as u64;
    let ms: u64 = (2400 + speed) / (2 * speed);
    proof {
        lemma_rounded_div_is_nearest(1200, wpm as nat);
        assert(2 * (wpm as nat) * (ms as nat) > 2400 - 255) by (nonlinear_arith)
            requires
                2 * 1200 - (wpm as nat) < 2 * (wpm as nat) * (ms as nat),
                wpm <= 255,
        ;
        assert(ms > 4) by (nonlinear_arith)
            requires
                2 * (wpm as nat) * (ms as nat) > 2145,
                1 <= wpm <= 255,
        ;
        assert(ms <= 1200) by (nonlinear_arith)
            requires
                2 * (wpm as nat) * (ms as nat) <= 2400 + (wpm as nat),
                1 <= wpm,
        ;
    }
    ms
}

} // verus!
