//! Deadline arithmetic for the timeout races. Deadlines are polled at a
//! fixed tick, so an enforced timeout can overshoot the configured one by
//! less than one tick and never undershoots it.

use vstd::prelude::*;

verus! {

/// The fixed polling interval of every timeout race, in milliseconds.
pub const TICK_MS: u64 = 10;

/// The number of whole ticks of `tick_ms` milliseconds after which a deadline
/// of `timeout_ms` milliseconds may fire: enough ticks to cover the timeout,
/// but less than one tick beyond it.
pub fn ticks_for(timeout_ms: u64, tick_ms: u64) -> (r: u64)
    requires
        tick_ms > 0,
    ensures
        r * tick_ms >= timeout_ms,
        r * tick_ms < timeout_ms + tick_ms,
{
    if timeout_ms == 0 {
        return 0;
    }
    let q = (timeout_ms - 1) / tick_ms;
    proof {
        let t = timeout_ms as int;
        let k = tick_ms as int;
        let qq = (t - 1) / k;
        let rem = (t - 1) % k;
        vstd::arithmetic::div_mod::lemma_fundamental_div_mod(t - 1, k);
        vstd::arithmetic::div_mod::lemma_mod_bound(t - 1, k);
        assert(t - 1 == k * qq + rem);
        assert((qq + 1) * k == k * qq + k) by (nonlinear_arith);
        assert(qq <= k * qq) by (nonlinear_arith)
            requires
                k >= 1,
                qq >= 0,
        ;
        assert(q + 1 <= t);
    }
    q + 1
}

} // verus!
