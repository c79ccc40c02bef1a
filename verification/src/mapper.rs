//! The columnar driver: adapts a scalar distance kernel into a batch
//! operation over four paired coordinate columns.
//!
//! Values are carried as opaque 64-bit words (the bit patterns of the
//! host's float64 values); the driver never interprets them. The scalar
//! kernel is supplied by the caller as a function value, and everything
//! the driver promises about its output is stated through the kernel's
//! own contract (`call_requires` / `call_ensures`).

use vstd::prelude::*;

use crate::error::UdfError;

verus! {

/// The four input columns form a well-shaped batch exactly when they all
/// have the same length.
pub open spec fn lengths_match(x0: Seq<u64>, y0: Seq<u64>, x1: Seq<u64>, y1: Seq<u64>) -> bool {
    x0.len() == y0.len() && x0.len() == x1.len() && x0.len() == y1.len()
}

/// `out` is a row-aligned image of the four input columns under `kernel`:
/// it has the same length as the inputs, and each entry is a result the
/// kernel's contract admits for the corresponding input row.
pub open spec fn maps_rows<F: Fn(u64, u64, u64, u64) -> u64>(
    kernel: F,
    x0: Seq<u64>,
    y0: Seq<u64>,
    x1: Seq<u64>,
    y1: Seq<u64>,
    out: Seq<u64>,
) -> bool {
    &&& out.len() == x0.len()
    &&& forall|i: int|
        0 <= i < x0.len() ==> call_ensures(kernel, (x0[i], y0[i], x1[i], y1[i]), #[trigger] out[i])
}

/// A kernel is deterministic when its contract admits at most one output
/// for any given input row.
pub open spec fn deterministic<F: Fn(u64, u64, u64, u64) -> u64>(kernel: F) -> bool {
    forall|x0: u64, y0: u64, x1: u64, y1: u64, r1: u64, r2: u64|
        #[trigger] call_ensures(kernel, (x0, y0, x1, y1), r1)
            && #[trigger] call_ensures(kernel, (x0, y0, x1, y1), r2) ==> r1 == r2
}

/// A kernel's contract is symmetric in the two points when it admits
/// exactly the same outputs for a row and for that row with the two
/// points swapped.
pub open spec fn symmetric<F: Fn(u64, u64, u64, u64) -> u64>(kernel: F) -> bool {
    forall|x0: u64, y0: u64, x1: u64, y1: u64, r: u64|
        #[trigger] call_ensures(kernel, (x0, y0, x1, y1), r) <==> #[trigger] call_ensures(
            kernel,
            (x1, y1, x0, y0),
            r,
        )
}

/// Apply `kernel` once per row of four equal-length coordinate columns
/// (point 0 longitude, point 0 latitude, point 1 longitude, point 1
/// latitude) and collect the results, in row order, into a fresh output
/// column of the same length.
///
/// Columns of unequal length are rejected with `LengthMismatch` before
/// any row is read; that is the only failure, and it occurs exactly when
/// the lengths differ.
pub fn haversine_dist<F: Fn(u64, u64, u64, u64) -> u64>(
    x0: &Vec<u64>,
    y0: &Vec<u64>,
    x1: &Vec<u64>,
    y1: &Vec<u64>,
    kernel: F,
) -> (r: Result<Vec<u64>, UdfError>)
    requires
        lengths_match(x0@, y0@, x1@, y1@) ==> forall|i: int|
            0 <= i < x0@.len() ==> call_requires(
                kernel,
                (x0@[i], y0@[i], x1@[i], y1@[i]),
            ),
    ensures
        match r {
            Ok(out) => lengths_match(x0@, y0@, x1@, y1@) && maps_rows(
                kernel,
                x0@,
                y0@,
                x1@,
                y1@,
                out@,
            ),
            Err(e) => e == UdfError::LengthMismatch && !lengths_match(x0@, y0@, x1@, y1@),
        },
{
    let n = x0.len();
    if y0.len() != n || x1.len() != n || y1.len() != n {
        return Err(UdfError::LengthMismatch);
    }
    let mut out: Vec<u64> = Vec::with_capacity(n);
    let mut j: usize = 0;
    while j < n
        invariant
            n == x0@.len(),
            lengths_match(x0@, y0@, x1@, y1@),
            forall|i: int|
                0 <= i < n ==> call_requires(kernel, (x0@[i], y0@[i], x1@[i], y1@[i])),
            j <= n,
            out@.len() == j,
            forall|i: int|
                0 <= i < j ==> call_ensures(
                    kernel,
                    (x0@[i], y0@[i], x1@[i], y1@[i]),
                    #[trigger] out@[i],
                ),
        decreases n - j,
    {
        let d = kernel(x0[j], y0[j], x1[j], y1[j]);
        out.push(d);
        j += 1;
    }
    Ok(out)
}

/// Each output entry depends only on the corresponding input row: when a
/// deterministic kernel maps two batches and row `i` of the first batch
/// equals row `j` of the second, the two outputs agree at those
/// positions. There is no cross-row coupling.
pub proof fn lemma_row_independence<F: Fn(u64, u64, u64, u64) -> u64>(
    kernel: F,
    ax0: Seq<u64>,
    ay0: Seq<u64>,
    ax1: Seq<u64>,
    ay1: Seq<u64>,
    aout: Seq<u64>,
    bx0: Seq<u64>,
    by0: Seq<u64>,
    bx1: Seq<u64>,
    by1: Seq<u64>,
    bout: Seq<u64>,
    i: int,
    j: int,
)
    requires
        deterministic(kernel),
        maps_rows(kernel, ax0, ay0, ax1, ay1, aout),
        maps_rows(kernel, bx0, by0, bx1, by1, bout),
        0 <= i < ax0.len(),
        0 <= j < bx0.len(),
        ax0[i] == bx0[j],
        ay0[i] == by0[j],
        ax1[i] == bx1[j],
        ay1[i] == by1[j],
    ensures
        aout[i] == bout[j],
{
    assert(call_ensures(kernel, (ax0[i], ay0[i], ax1[i], ay1[i]), aout[i]));
    assert(call_ensures(kernel, (bx0[j], by0[j], bx1[j], by1[j]), bout[j]));
}

/// Swapping the two point columns of a batch leaves the output unchanged,
/// for any deterministic kernel whose contract is symmetric in the two
/// points.
pub proof fn lemma_swap_symmetry<F: Fn(u64, u64, u64, u64) -> u64>(
    kernel: F,
    x0: Seq<u64>,
    y0: Seq<u64>,
    x1: Seq<u64>,
    y1: Seq<u64>,
    out_a: Seq<u64>,
    out_b: Seq<u64>,
)
    requires
        deterministic(kernel),
        symmetric(kernel),
        lengths_match(x0, y0, x1, y1),
        maps_rows(kernel, x0, y0, x1, y1, out_a),
        maps_rows(kernel, x1, y1, x0, y0, out_b),
    ensures
        out_a == out_b,
{
    assert forall|i: int| 0 <= i < out_a.len() implies out_a[i] == out_b[i] by {
        assert(call_ensures(kernel, (x0[i], y0[i], x1[i], y1[i]), out_a[i]));
        assert(call_ensures(kernel, (x1[i], y1[i], x0[i], y0[i]), out_b[i]));
        assert(call_ensures(kernel, (x0[i], y0[i], x1[i], y1[i]), out_b[i]));
    }
    assert(out_a =~= out_b);
}

/// Permuting the input rows permutes the output identically: if batch `b`
/// lists the rows of batch `a` in the order given by `perm`, then the
/// output for `b` lists the output entries for `a` in that same order.
pub proof fn lemma_permutation_alignment<F: Fn(u64, u64, u64, u64) -> u64>(
    kernel: F,
    ax0: Seq<u64>,
    ay0: Seq<u64>,
    ax1: Seq<u64>,
    ay1: Seq<u64>,
    aout: Seq<u64>,
    bx0: Seq<u64>,
    by0: Seq<u64>,
    bx1: Seq<u64>,
    by1: Seq<u64>,
    bout: Seq<u64>,
    perm: Seq<int>,
)
    requires
        deterministic(kernel),
        maps_rows(kernel, ax0, ay0, ax1, ay1, aout),
        maps_rows(kernel, bx0, by0, bx1, by1, bout),
        bx0.len() == perm.len(),
        forall|i: int| 0 <= i < perm.len() ==> 0 <= #[trigger] perm[i] < ax0.len(),
        forall|i: int|
            0 <= i < perm.len() ==> bx0[i] == ax0[#[trigger] perm[i]] && by0[i] == ay0[perm[i]]
                && bx1[i] == ax1[perm[i]] && by1[i] == ay1[perm[i]],
    ensures
        forall|i: int| 0 <= i < perm.len() ==> bout[i] == aout[#[trigger] perm[i]],
{
    assert forall|i: int| 0 <= i < perm.len() implies bout[i] == aout[#[trigger] perm[i]] by {
        lemma_row_independence(
            kernel,
            ax0,
            ay0,
            ax1,
            ay1,
            aout,
            bx0,
            by0,
            bx1,
            by1,
            bout,
            perm[i],
            i,
        );
    }
}

} // verus!
