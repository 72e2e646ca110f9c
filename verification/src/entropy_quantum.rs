//! Layout of a bipartite (two-qubit) density matrix stored as a flat,
//! row-major 4×4 array, in the basis |00⟩, |01⟩, |10⟩, |11⟩ (A is the
//! first qubit).

use vstd::prelude::*;

verus! {

/// Position of entry `(r, c)` of a 4×4 matrix in its row-major storage.
pub open spec fn row_major(r: int, c: int) -> int {
    4 * r + c
}

/// The two positions whose entries add up to entry `(r, c)` of ρ_A = Tr_B(ρ_AB):
/// `(2r, 2c)` and `(2r + 1, 2c + 1)`, i.e. B = |0⟩ and B = |1⟩ on both sides.
pub open spec fn trace_b_positions(r: int, c: int) -> (int, int) {
    (row_major(2 * r, 2 * c), row_major(2 * r + 1, 2 * c + 1))
}

/// The two positions whose entries add up to entry `(r, c)` of ρ_B = Tr_A(ρ_AB):
/// `(r, c)` and `(r + 2, c + 2)`, i.e. A = |0⟩ and A = |1⟩ on both sides.
pub open spec fn trace_a_positions(r: int, c: int) -> (int, int) {
    (row_major(r, c), row_major(r + 2, c + 2))
}

/// The diagonal of a 4×4 row-major matrix, from the top left.
pub fn diagonal_4x4<T: Copy>(data: &[T]) -> (diag: [T; 4])
    requires
        data@.len() >= 16,
    ensures
        forall|i: int| 0 <= i < 4 ==> #[trigger] diag[i] == data@[row_major(i, i)],
{
    [data[0], data[5], data[10], data[15]]
}

/// For each entry `(r, c)` of ρ_A = Tr_B(ρ_AB), the two entries of ρ_AB that
/// it is the sum of.
pub fn partial_trace_b_terms<T: Copy>(data: &[T]) -> (terms: [[(T, T); 2]; 2])
    requires
        data@.len() >= 16,
    ensures
        forall|r: int, c: int|
            0 <= r < 2 && 0 <= c < 2 ==> #[trigger] terms[r][c] == (
                data@[trace_b_positions(r, c).0],
                data@[trace_b_positions(r, c).1],
            ),
        forall|r: int, c: int|
            0 <= r < 2 && 0 <= c < 2 ==> #[trigger] terms[r][c] == (
                data@[row_major(2 * r, 2 * c)],
                data@[row_major(2 * r + 1, 2 * c + 1)],
            ),
{
    [[(data[0], data[5]), (data[2], data[7])], [(data[8], data[13]), (data[10], data[15])]]
}

/// For each entry `(r, c)` of ρ_B = Tr_A(ρ_AB), the two entries of ρ_AB that
/// it is the sum of.
pub fn partial_trace_a_terms<T: Copy>(data: &[T]) -> (terms: [[(T, T); 2]; 2])
    requires
        data@.len() >= 16,
    ensures
        forall|r: int, c: int|
            0 <= r < 2 && 0 <= c < 2 ==> #[trigger] terms[r][c] == (
                data@[trace_a_positions(r, c).0],
                data@[trace_a_positions(r, c).1],
            ),
        forall|r: int, c: int|
            0 <= r < 2 && 0 <= c < 2 ==> #[trigger] terms[r][c] == (
                data@[row_major(r, c)],
                data@[row_major(r + 2, c + 2)],
            ),
{
    [[(data[0], data[10]), (data[1], data[11])], [(data[4], data[14]), (data[5], data[15])]]
}

/// The diagonals of both reduced states are drawn from the diagonal of the
/// joint state, each diagonal entry of ρ_AB exactly once, so in exact
/// arithmetic Tr ρ_A = Tr ρ_B = Tr ρ_AB.
pub proof fn lemma_reduced_diagonals_cover_joint_diagonal()
    ensures
        seq![
            trace_b_positions(0, 0).0,
            trace_b_positions(0, 0).1,
            trace_b_positions(1, 1).0,
            trace_b_positions(1, 1).1,
        ].to_multiset() =~= seq![
            row_major(0, 0),
            row_major(1, 1),
            row_major(2, 2),
            row_major(3, 3),
        ].to_multiset(),
        seq![
            trace_a_positions(0, 0).0,
            trace_a_positions(0, 0).1,
            trace_a_positions(1, 1).0,
            trace_a_positions(1, 1).1,
        ].to_multiset() =~= seq![
            row_major(0, 0),
            row_major(1, 1),
            row_major(2, 2),
            row_major(3, 3),
        ].to_multiset(),
{
    broadcast use vstd::seq_lib::group_to_multiset_ensures;
    broadcast use vstd::multiset::group_multiset_axioms;

    let e = Seq::<int>::empty();
    assert(e.to_multiset() =~= vstd::multiset::Multiset::<int>::empty());
    let diag = e.push(0).push(5).push(10).push(15);
    let swapped = e.push(0).push(10).push(5).push(15);
    assert(seq![row_major(0, 0), row_major(1, 1), row_major(2, 2), row_major(3, 3)] =~= diag);
    assert(seq![
        trace_a_positions(0, 0).0,
        trace_a_positions(0, 0).1,
        trace_a_positions(1, 1).0,
        trace_a_positions(1, 1).1,
    ] =~= swapped);
    assert(seq![
        trace_b_positions(0, 0).0,
        trace_b_positions(0, 0).1,
        trace_b_positions(1, 1).0,
        trace_b_positions(1, 1).1,
    ] =~= diag);
    assert(diag.to_multiset() =~= swapped.to_multiset());
}

} // verus!
