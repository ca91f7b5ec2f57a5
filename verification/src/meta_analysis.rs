//! Reshaping the result matrix for the statistics consumer.
//!
//! `pivot` turns a rows-by-columns matrix into one observation row per cell,
//! `[row_key, col_key, value]`, in row-major order: the shape the linear
//! model over `(model_depth, data_depth) -> loss` is fit on. The fit itself
//! is an external collaborator and out of this library's scope.

use crate::tensor_ops::tdata;
use vstd::prelude::*;

verus! {

/// A row-major index stays inside the block of full rows before it.
proof fn lemma_row_major_bound(a: int, b: int, r: int, cl: int)
    by (nonlinear_arith)
    requires
        0 <= a < r,
        0 <= b < cl,
    ensures
        0 <= a * cl + b,
        a * cl + b < r * cl,
{
}

/// Whether the matrix's shape disagrees with the key lists: `pivot` rejects
/// exactly these inputs.
pub open spec fn pivot_shape_error(
    cols: Seq<candle_core::Tensor>,
    rows: Seq<candle_core::Tensor>,
    matrix: Seq<Vec<candle_core::Tensor>>,
) -> bool {
    ||| rows.len() != matrix.len()
    ||| exists|ri: int| 0 <= ri < matrix.len() && (#[trigger] matrix[ri])@.len() != cols.len()
}

/// The observation at the row-major position of `(ri, ci)` is the triple
/// `[row key, column key, cell value]`.
pub open spec fn observation_ok(
    out: Seq<Vec<candle_core::Tensor>>,
    cols: Seq<candle_core::Tensor>,
    rows: Seq<candle_core::Tensor>,
    matrix: Seq<Vec<candle_core::Tensor>>,
    ri: int,
    ci: int,
) -> bool {
    &&& 0 <= ri * cols.len() + ci < out.len()
    &&& out[ri * cols.len() + ci]@.len() == 3
    &&& tdata(out[ri * cols.len() + ci]@[0]) == tdata(rows[ri])
    &&& tdata(out[ri * cols.len() + ci]@[1]) == tdata(cols[ci])
    &&& tdata(out[ri * cols.len() + ci]@[2]) == tdata(matrix[ri]@[ci])
}

/// Turns the matrix into one `[row_key, col_key, value]` observation per
/// cell, row-major. Fails exactly when the key lists do not match the
/// matrix's shape.
pub fn pivot(
    cols: &Vec<candle_core::Tensor>,
    rows: &Vec<candle_core::Tensor>,
    matrix: &Vec<Vec<candle_core::Tensor>>,
) -> (r: Result<Vec<Vec<candle_core::Tensor>>, &'static str>)
    ensures
        r is Err <==> pivot_shape_error(cols@, rows@, matrix@),
        r matches Ok(out) ==> {
            &&& out@.len() == rows@.len() * cols@.len()
            &&& forall|ri: int, ci: int|
                0 <= ri < rows@.len() && 0 <= ci < cols@.len() ==> #[trigger] observation_ok(
                    out@,
                    cols@,
                    rows@,
                    matrix@,
                    ri,
                    ci,
                )
        },
{
    if rows.len() != matrix.len() {
        return Err("Rows and matrix must have the same length");
    }
    let mut result: Vec<Vec<candle_core::Tensor>> = Vec::new();
    let mut ri: usize = 0;
    while ri < rows.len()
        invariant
            rows@.len() == matrix@.len(),
            ri <= rows@.len(),
            result@.len() == ri * cols@.len(),
            forall|a: int| 0 <= a < ri ==> (#[trigger] matrix@[a])@.len() == cols@.len(),
            forall|a: int, b: int|
                0 <= a < ri && 0 <= b < cols@.len() ==> #[trigger] observation_ok(
                    result@,
                    cols@,
                    rows@,
                    matrix@,
                    a,
                    b,
                ),
        decreases rows@.len() - ri,
    {
        if cols.len() != matrix[ri].len() {
            return Err("Columns and row must have the same length");
        }
        let mut ci: usize = 0;
        while ci < cols.len()
            invariant
                rows@.len() == matrix@.len(),
                0 <= ri < rows@.len(),
                matrix@[ri as int]@.len() == cols@.len(),
                ci <= cols@.len(),
                result@.len() == ri * cols@.len() + ci,
                forall|a: int| 0 <= a < ri ==> (#[trigger] matrix@[a])@.len() == cols@.len(),
                forall|a: int, b: int|
                    0 <= a < ri && 0 <= b < cols@.len() ==> #[trigger] observation_ok(
                        result@,
                        cols@,
                        rows@,
                        matrix@,
                        a,
                        b,
                    ),
                forall|b: int|
                    0 <= b < ci ==> #[trigger] observation_ok(
                        result@,
                        cols@,
                        rows@,
                        matrix@,
                        ri as int,
                        b,
                    ),
            decreases cols@.len() - ci,
        {
            let observation = vec![
                rows[ri].clone(),
                cols[ci].clone(),
                matrix[ri][ci].clone(),
            ];
            let ghost before = result@;
            result.push(observation);
            proof {
                let cl = cols@.len() as int;
                let r0 = ri as int;
                let c0 = ci as int;
                assert forall|a: int, b: int| 0 <= a < r0 && 0 <= b < cl implies #[trigger] observation_ok(
                    result@,
                    cols@,
                    rows@,
                    matrix@,
                    a,
                    b,
                ) by {
                    lemma_row_major_bound(a, b, r0, cl);
                    assert(a * cl + b < before.len());
                    assert(result@[a * cl + b] == before[a * cl + b]);
                    assert(observation_ok(before, cols@, rows@, matrix@, a, b));
                }
                assert forall|b: int| 0 <= b < c0 + 1 implies #[trigger] observation_ok(
                    result@,
                    cols@,
                    rows@,
                    matrix@,
                    r0,
                    b,
                ) by {
                    if b < c0 {
                        assert(result@[r0 * cl + b] == before[r0 * cl + b]);
                        assert(observation_ok(before, cols@, rows@, matrix@, r0, b));
                    } else {
                        assert(r0 * cl + b == before.len());
                        assert(result@[r0 * cl + b] == observation);
                        assert(tdata(observation@[0]) == tdata(rows@[r0]));
                        assert(tdata(observation@[1]) == tdata(cols@[b]));
                        assert(tdata(observation@[2]) == tdata(matrix@[r0]@[b]));
                    }
                }
            }
            ci = ci + 1;
        }
        proof {
            let cl = cols@.len() as int;
            let r0 = ri as int;
            assert((r0 + 1) * cl == r0 * cl + cl) by (nonlinear_arith);
            assert forall|a: int, b: int| 0 <= a < r0 + 1 && 0 <= b < cl implies #[trigger] observation_ok(
                result@,
                cols@,
                rows@,
                matrix@,
                a,
                b,
            ) by {
                if a < r0 {
                    assert(observation_ok(result@, cols@, rows@, matrix@, a, b));
                } else {
                    assert(observation_ok(result@, cols@, rows@, matrix@, r0, b));
                }
            }
        }
        ri = ri + 1;
    }
    Ok(result)
}

} // verus!
