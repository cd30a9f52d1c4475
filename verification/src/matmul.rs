use vstd::prelude::*;

use crate::scope::lemma_row_major_index_in_range;
use crate::scope::MMul;

verus! {

/// The mathematical values of a sequence of elements.
pub open spec fn svals<T: MMul>(s: Seq<T>) -> Seq<int> {
    s.map_values(|x: T| x.sval())
}

/// Sum of the first `t` products of row `i` of `a` (an `n x m` matrix,
/// row-major) with column `j` of `b` (an `m x k` matrix, row-major).
pub open spec fn dot_prefix(
    a: Seq<int>,
    b: Seq<int>,
    m: int,
    k: int,
    i: int,
    j: int,
    t: int,
) -> int
    decreases t,
{
    if t <= 0 {
        0
    } else {
        dot_prefix(a, b, m, k, i, j, t - 1) + a[i * m + (t - 1)] * b[(t - 1) * k + j]
    }
}

/// One summand of the multiply-accumulate: the product of `a[i][t]`
/// and `b[t][j]`.
pub open spec fn elem_product(a: Seq<int>, b: Seq<int>, m: int, k: int, i: int, j: int, t: int) -> int {
    a[i * m + t] * b[t * k + j]
}

/// Element `(i, j)` of the product of an `n x m` matrix `a` with an
/// `m x k` matrix `b`: the multiply-accumulate over the shared
/// dimension, exactly as matrix multiplication defines it.
pub open spec fn mat_mul_at(a: Seq<int>, b: Seq<int>, m: int, k: int, i: int, j: int) -> int {
    dot_prefix(a, b, m, k, i, j, m)
}

/// Host-side reference multiply, the oracle against which the device
/// path is checked: the exact product of an `n x m` matrix by an
/// `m x k` matrix, both row-major. The preconditions on `dot_prefix`
/// and `elem_product` say that no intermediate value overflows the
/// element type; within them every element of the result is the exact
/// multiply-accumulate.
pub fn mul_ref<T: MMul>(n: usize, m: usize, k: usize, a: &Vec<T>, b: &Vec<T>) -> (c: Vec<T>)
    requires
        a@.len() == n * m,
        b@.len() == m * k,
        n * k <= usize::MAX,
        forall|i: int, j: int, t: int|
            0 <= i < n && 0 <= j < k && 0 <= t <= m ==> T::min_val() <= #[trigger] dot_prefix(
                svals(a@),
                svals(b@),
                m as int,
                k as int,
                i,
                j,
                t,
            ) <= T::max_val(),
        forall|i: int, j: int, t: int|
            0 <= i < n && 0 <= j < k && 0 <= t < m ==> T::min_val() <= #[trigger] elem_product(
                svals(a@),
                svals(b@),
                m as int,
                k as int,
                i,
                j,
                t,
            ) <= T::max_val(),
    ensures
        c@.len() == n * k,
        forall|i: int, j: int|
            0 <= i < n && 0 <= j < k ==> svals(c@)[i * k + j] == #[trigger] mat_mul_at(
                svals(a@),
                svals(b@),
                m as int,
                k as int,
                i,
                j,
            ),
{
    let a_len: usize = a.len();
    let b_len: usize = b.len();
    proof {
        assert(n * m <= usize::MAX && m * k <= usize::MAX);
    }
    let mut c: Vec<T> = Vec::new();
    let mut i: usize = 0;
    while i < n
        invariant
            i <= n,
            a@.len() == n * m,
            b@.len() == m * k,
            n * m <= usize::MAX,
            m * k <= usize::MAX,
            n * k <= usize::MAX,
            c@.len() == i * k,
            forall|i2: int, j2: int|
                0 <= i2 < i && 0 <= j2 < k ==> svals(c@)[i2 * k + j2] == #[trigger] mat_mul_at(
                    svals(a@),
                    svals(b@),
                    m as int,
                    k as int,
                    i2,
                    j2,
                ),
            forall|i2: int, j2: int, t: int|
                0 <= i2 < n && 0 <= j2 < k && 0 <= t <= m ==> T::min_val() <= #[trigger] dot_prefix(
                    svals(a@),
                    svals(b@),
                    m as int,
                    k as int,
                    i2,
                    j2,
                    t,
                ) <= T::max_val(),
            forall|i2: int, j2: int, t: int|
                0 <= i2 < n && 0 <= j2 < k && 0 <= t < m ==> T::min_val()
                    <= #[trigger] elem_product(
                    svals(a@),
                    svals(b@),
                    m as int,
                    k as int,
                    i2,
                    j2,
                    t,
                ) <= T::max_val(),
        decreases n - i,
    {
        let mut j: usize = 0;
        proof {
            lemma_mul_bounds_step(i as int, k as int, n as int);
        }
        while j < k
            invariant
                i < n,
                j <= k,
                a@.len() == n * m,
                b@.len() == m * k,
                n * m <= usize::MAX,
                m * k <= usize::MAX,
                n * k <= usize::MAX,
                c@.len() == i * k + j,
                i * k + k <= n * k,
                forall|i2: int, j2: int|
                    0 <= i2 < i && 0 <= j2 < k ==> svals(c@)[i2 * k + j2] == #[trigger] mat_mul_at(
                        svals(a@),
                        svals(b@),
                        m as int,
                        k as int,
                        i2,
                        j2,
                    ),
                forall|j2: int|
                    0 <= j2 < j ==> svals(c@)[i * k + j2] == #[trigger] mat_mul_at(
                        svals(a@),
                        svals(b@),
                        m as int,
                        k as int,
                        i as int,
                        j2,
                    ),
                forall|i2: int, j2: int, t: int|
                    0 <= i2 < n && 0 <= j2 < k && 0 <= t <= m ==> T::min_val()
                        <= #[trigger] dot_prefix(
                        svals(a@),
                        svals(b@),
                        m as int,
                        k as int,
                        i2,
                        j2,
                        t,
                    ) <= T::max_val(),
                forall|i2: int, j2: int, t: int|
                    0 <= i2 < n && 0 <= j2 < k && 0 <= t < m ==> T::min_val()
                        <= #[trigger] elem_product(
                        svals(a@),
                        svals(b@),
                        m as int,
                        k as int,
                        i2,
                        j2,
                        t,
                    ) <= T::max_val(),
            decreases k - j,
        {
            let mut acc: T = T::zero();
            let mut t: usize = 0;
            while t < m
                invariant
                    i < n,
                    j < k,
                    t <= m,
                    a@.len() == n * m,
                    b@.len() == m * k,
                    n * m <= usize::MAX,
                    m * k <= usize::MAX,
                    acc.sval() == dot_prefix(
                        svals(a@),
                        svals(b@),
                        m as int,
                        k as int,
                        i as int,
                        j as int,
                        t as int,
                    ),
                    forall|i2: int, j2: int, t2: int|
                        0 <= i2 < n && 0 <= j2 < k && 0 <= t2 <= m ==> T::min_val()
                            <= #[trigger] dot_prefix(
                            svals(a@),
                            svals(b@),
                            m as int,
                            k as int,
                            i2,
                            j2,
                            t2,
                        ) <= T::max_val(),
                    forall|i2: int, j2: int, t2: int|
                        0 <= i2 < n && 0 <= j2 < k && 0 <= t2 < m ==> T::min_val()
                            <= #[trigger] elem_product(
                            svals(a@),
                            svals(b@),
                            m as int,
                            k as int,
                            i2,
                            j2,
                            t2,
                        ) <= T::max_val(),
                decreases m - t,
            {
                proof {
                    lemma_row_major_index_in_range(n as int, m as int, i as int, t as int);
                    lemma_row_major_index_in_range(m as int, k as int, t as int, j as int);
                }
                let av: T = a[i * m + t];
                let bv: T = b[t * k + j];
                proof {
                    assert(elem_product(
                        svals(a@),
                        svals(b@),
                        m as int,
                        k as int,
                        i as int,
                        j as int,
                        t as int,
                    ) == av.sval() * bv.sval());
                    assert(dot_prefix(
                        svals(a@),
                        svals(b@),
                        m as int,
                        k as int,
                        i as int,
                        j as int,
                        t as int + 1,
                    ) == dot_prefix(
                        svals(a@),
                        svals(b@),
                        m as int,
                        k as int,
                        i as int,
                        j as int,
                        t as int,
                    ) + av.sval() * bv.sval());
                }
                let p: T = av.mul_el(bv);
                acc = acc.add_el(p);
                t = t + 1;
            }
            let ghost pre = c@;
            c.push(acc);
            proof {
                assert(svals(c@) =~= svals(pre).push(acc.sval()));
                assert forall|i2: int, j2: int| 0 <= i2 < i && 0 <= j2 < k implies svals(c@)[i2 * k
                    + j2] == #[trigger] mat_mul_at(
                    svals(a@),
                    svals(b@),
                    m as int,
                    k as int,
                    i2,
                    j2,
                ) by {
                    lemma_row_major_prefix(i2, j2, i as int, j as int, k as int);
                    assert(svals(c@)[i2 * k + j2] == svals(pre)[i2 * k + j2]);
                }
                assert(svals(c@)[i * k + j] == acc.sval());
            }
            j = j + 1;
        }
        proof {
            assert((i + 1) * k == i * k + k) by (nonlinear_arith);
            assert forall|i2: int, j2: int| 0 <= i2 < i + 1 && 0 <= j2 < k implies svals(c@)[i2 * k
                + j2] == #[trigger] mat_mul_at(
                svals(a@),
                svals(b@),
                m as int,
                k as int,
                i2,
                j2,
            ) by {
            }
        }
        i = i + 1;
    }
    c
}

/// Law: the multiply-accumulate formula determines the product. Any
/// two row-major `n x k` outputs whose every element satisfies the
/// formula — such as the device kernel's output and the host
/// reference multiply — agree element-wise, exactly.
pub proof fn lemma_mul_result_unique(
    a: Seq<int>,
    b: Seq<int>,
    c1: Seq<int>,
    c2: Seq<int>,
    n: int,
    m: int,
    k: int,
)
    requires
        n >= 0,
        k >= 0,
        c1.len() == n * k,
        c2.len() == n * k,
        forall|i: int, j: int|
            0 <= i < n && 0 <= j < k ==> c1[i * k + j] == #[trigger] mat_mul_at(a, b, m, k, i, j),
        forall|i: int, j: int|
            0 <= i < n && 0 <= j < k ==> c2[i * k + j] == #[trigger] mat_mul_at(a, b, m, k, i, j),
    ensures
        c1 =~= c2,
{
    assert forall|t: int| 0 <= t < n * k implies c1[t] == c2[t] by {
        assert(k > 0) by (nonlinear_arith)
            requires
                0 <= t < n * k,
                k >= 0,
        ;
        let i = t / k;
        let j = t % k;
        assert(t == i * k + j && 0 <= j < k && 0 <= i < n) by (nonlinear_arith)
            requires
                0 <= t < n * k,
                k > 0,
                i == t / k,
                j == t % k,
        ;
        assert(c1[i * k + j] == mat_mul_at(a, b, m, k, i, j));
        assert(c2[i * k + j] == mat_mul_at(a, b, m, k, i, j));
    }
}

/// A position in an earlier row, or in an earlier column of the same
/// row, comes before position `(i, j)` in row-major order.
pub proof fn lemma_row_major_prefix(i2: int, j2: int, i: int, j: int, k: int)
    by (nonlinear_arith)
    requires
        0 <= j < k,
        0 <= i2 < i,
        0 <= j2 < k,
    ensures
        i2 * k + j2 < i * k + j,
{
}

/// With `i < n`, the first `i + 1` rows fit inside the `n`-row matrix.
pub proof fn lemma_mul_bounds_step(i: int, k: int, n: int)
    by (nonlinear_arith)
    requires
        0 <= i < n,
        0 <= k,
    ensures
        i * k + k <= n * k,
{
}

} // verus!
