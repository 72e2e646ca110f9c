//! Layout operations on 2×2 matrices that do not depend on the entries' arithmetic.

use vstd::prelude::*;

verus! {

/// The transpose of a 2×2 matrix: entry `(r, c)` of the result is entry `(c, r)` of `m`.
pub open spec fn transposed<T>(m: [[T; 2]; 2]) -> [[T; 2]; 2] {
    [[m[0][0], m[1][0]], [m[0][1], m[1][1]]]
}

/// Matrix transpose.
pub fn mat_transpose<T: Copy>(m: &[[T; 2]; 2]) -> (t: [[T; 2]; 2])
    ensures
        t == transposed(*m),
        forall|r: int, c: int| 0 <= r < 2 && 0 <= c < 2 ==> #[trigger] t[r][c] == m[c][r],
{
    [[m[0][0], m[1][0]], [m[0][1], m[1][1]]]
}

/// Transposing twice gives back the matrix.
pub proof fn lemma_transpose_involution<T>(m: [[T; 2]; 2])
    ensures
        transposed(transposed(m)) == m,
{
    let t = transposed(transposed(m));
    assert(t[0] =~= m[0]);
    assert(t[1] =~= m[1]);
    assert(t =~= m);
}

} // verus!
