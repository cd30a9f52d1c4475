use vstd::prelude::*;

use rand::Rng;

pub mod error;
pub mod matmul;
pub mod scope;

verus! {

/// Relies on `rand::Rng::gen_range` over a half-open `i64` range:
/// the sample always lies in `[lo, hi)`. `gen_range` panics only on an
/// empty range, which the precondition excludes.
#[verifier::external_body]
fn sample_i64(lo: i64, hi: i64) -> (r: i64)
    requires
        lo < hi,
    ensures
        lo <= r < hi,
{
    rand::thread_rng().gen_range(lo..hi)
}

/// Random host-side matrix data: `rows * cols` elements in row-major
/// order, each drawn independently from `[lo, hi)`.
pub fn gen(rows: usize, cols: usize, lo: i64, hi: i64) -> (m: Vec<i64>)
    requires
        lo < hi,
        rows * cols <= usize::MAX,
    ensures
        m@.len() == rows * cols,
        forall|t: int| 0 <= t < m@.len() ==> lo <= #[trigger] m@[t] < hi,
{
    let n: usize = rows * cols;
    let mut m: Vec<i64> = Vec::new();
    let mut i: usize = 0;
    while i < n
        invariant
            i <= n,
            m@.len() == i,
            forall|t: int| 0 <= t < m@.len() ==> lo <= #[trigger] m@[t] < hi,
            lo < hi,
        decreases n - i,
    {
        m.push(sample_i64(lo, hi));
        i = i + 1;
    }
    m
}

} // verus!
