//! Workload generation: the ordered sequence of request values one client run
//! will send. Sequential mode takes the first `n` values of `[min, max)` in
//! ascending order, producing fewer when the range is shorter than `n`.
//! Random mode draws `n` independent values uniformly from `[min, max)`.

use vstd::prelude::*;

verus! {

/// Parameters of one workload: values are drawn from `[min, max)` and the run
/// asks for `n` of them.
pub struct Range {
    pub min: u64,
    pub max: u64,
    pub n: usize,
}

/// How many values sequential generation yields: the length of `[min, max)`,
/// clamped to at most `n`.
pub open spec fn sequential_len(min: u64, max: u64, n: usize) -> int {
    let avail = if min < max {
        max - min
    } else {
        0
    };
    if avail < n {
        avail
    } else {
        n as int
    }
}

/// Relies on rand::random_range on a `u64` range `min..max`: the sample is
/// uniform in `[min, max)`; the call panics on an empty range, which the
/// precondition rules out.
#[verifier::external_body]
fn sample_uniform(min: u64, max: u64) -> (r: u64)
    requires
        min < max,
    ensures
        min <= r < max,
{
    rand::random_range(min..max)
}

impl Range {
    /// The first `n` values of `[min, max)` in ascending order; if the range
    /// holds fewer than `n` values, all of them and no more.
    pub fn gen_sequential(&self) -> (r: Vec<u64>)
        ensures
            r@.len() == sequential_len(self.min, self.max, self.n),
            forall|i: int| 0 <= i < r@.len() ==> r@[i] == self.min + i,
    {
        let mut out: Vec<u64> = Vec::new();
        let mut v: u64 = self.min;
        while v < self.max && out.len() < self.n
            invariant
                self.min <= v,
                v <= self.max || v == self.min,
                out@.len() == v - self.min,
                out@.len() <= self.n,
                forall|i: int| 0 <= i < out@.len() ==> out@[i] == self.min + i,
            decreases self.max - v,
        {
            out.push(v);
            v = v + 1;
        }
        out
    }

    /// `n` independent draws, each uniform in `[min, max)`. The values vary
    /// from run to run; only the bounds and the count are promised.
    pub fn gen_random(&self) -> (r: Vec<u64>)
        requires
            self.min < self.max,
        ensures
            r@.len() == self.n,
            forall|i: int| 0 <= i < r@.len() ==> self.min <= #[trigger] r@[i] < self.max,
    {
        let mut out: Vec<u64> = Vec::new();
        let mut k: usize = 0;
        while k < self.n
            invariant
                self.min < self.max,
                out@.len() == k,
                k <= self.n,
                forall|i: int| 0 <= i < out@.len() ==> self.min <= #[trigger] out@[i] < self.max,
            decreases self.n - k,
        {
            let x = sample_uniform(self.min, self.max);
            out.push(x);
            k = k + 1;
        }
        out
    }
}

} // verus!
