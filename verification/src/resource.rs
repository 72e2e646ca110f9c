//! Quantum resource theories: which states are free, which conversions the
//! free operations allow, and the block that a local measurement keeps.

use crate::entropy_quantum::row_major;
use vstd::prelude::*;
use vstd::string::*;

verus! {

/// The type of resource theory.
#[derive(Clone, Copy, Debug, PartialEq, Eq, Structural)]
pub enum ResourceTheoryType {
    /// Entanglement theory: free states = separable, free ops = LOCC
    Entanglement,
    /// Thermal resource theory: free states = Gibbs states, free ops = thermal ops
    Athermality,
    /// Coherence theory: free states = diagonal, free ops = incoherent
    Coherence,
}

/// Result of a state conversion check.
#[derive(Debug, Clone)]
pub struct ConversionResult {
    /// Whether the conversion is possible
    pub possible: bool,
    /// Reason
    pub reason: String,
}

/// Whether a single-qubit state is free in `theory`, given whether both of its
/// off-diagonal entries vanish (up to the caller's tolerance).
///
/// A single qubit holds no entanglement, so every state is free there; in the
/// athermality and coherence theories the free states are the diagonal ones.
pub open spec fn free_state(theory: ResourceTheoryType, coherences_vanish: bool) -> bool {
    match theory {
        ResourceTheoryType::Entanglement => true,
        ResourceTheoryType::Athermality => coherences_vanish,
        ResourceTheoryType::Coherence => coherences_vanish,
    }
}

/// Decide whether a single-qubit state is a free state of `theory`.
///
/// `off_diagonal_01_vanishes` and `off_diagonal_10_vanishes` say whether the
/// entries ρ₀₁ and ρ₁₀ are negligible.
pub fn is_free_state(
    theory: ResourceTheoryType,
    off_diagonal_01_vanishes: bool,
    off_diagonal_10_vanishes: bool,
) -> (free: bool)
    ensures
        free == free_state(theory, off_diagonal_01_vanishes && off_diagonal_10_vanishes),
        theory == ResourceTheoryType::Entanglement ==> free,
        theory != ResourceTheoryType::Entanglement ==> (free <==> (off_diagonal_01_vanishes
            && off_diagonal_10_vanishes)),
{
    match theory {
        ResourceTheoryType::Entanglement => true,
        ResourceTheoryType::Athermality => off_diagonal_01_vanishes && off_diagonal_10_vanishes,
        ResourceTheoryType::Coherence => off_diagonal_01_vanishes && off_diagonal_10_vanishes,
    }
}

/// Whether the free operations of `theory` can turn ρ into σ, given whether the
/// theory's leading monotone does not increase from ρ to σ.
pub open spec fn conversion_possible(theory: ResourceTheoryType, monotone_not_increased: bool) -> bool {
    match theory {
        ResourceTheoryType::Entanglement => true,
        _ => monotone_not_increased,
    }
}

/// The explanation that accompanies a conversion verdict; `rho_value` and
/// `sigma_value` are the printed monotone values of ρ and σ.
pub open spec fn conversion_reason(
    theory: ResourceTheoryType,
    rho_value: Seq<char>,
    sigma_value: Seq<char>,
    monotone_not_increased: bool,
) -> Seq<char> {
    match theory {
        ResourceTheoryType::Entanglement =>
            "Single-qubit states are always interconvertible by LOCC (no entanglement)"@,
        ResourceTheoryType::Athermality => if monotone_not_increased {
            "Athermality decreases: "@ + rho_value + " → "@ + sigma_value
        } else {
            "Athermality would increase: "@ + rho_value + " → "@ + sigma_value
        },
        ResourceTheoryType::Coherence => if monotone_not_increased {
            "Coherence decreases: "@ + rho_value + " → "@ + sigma_value
        } else {
            "Coherence would increase: "@ + rho_value + " → "@ + sigma_value
        },
    }
}

/// Check whether ρ can be converted to σ by the free operations of `theory`.
///
/// For athermality and coherence a conversion is possible exactly when the
/// theory's leading monotone does not increase; `monotone_not_increased` says
/// whether monotone(ρ) ≥ monotone(σ), and `rho_value` / `sigma_value` are the two
/// values as printed in the reason. Single-qubit states carry no entanglement,
/// so in entanglement theory every conversion is possible.
pub fn can_convert(
    theory: ResourceTheoryType,
    rho_value: &str,
    sigma_value: &str,
    monotone_not_increased: bool,
) -> (result: ConversionResult)
    ensures
        result.possible == conversion_possible(theory, monotone_not_increased),
        result.reason@ == conversion_reason(theory, rho_value@, sigma_value@, monotone_not_increased),
        theory == ResourceTheoryType::Entanglement ==> result.possible,
        theory == ResourceTheoryType::Entanglement ==> result.reason@
            == "Single-qubit states are always interconvertible by LOCC (no entanglement)"@,
        theory != ResourceTheoryType::Entanglement ==> result.possible == monotone_not_increased,
        theory == ResourceTheoryType::Athermality && monotone_not_increased ==> result.reason@
            == "Athermality decreases: "@ + rho_value@ + " → "@ + sigma_value@,
        theory == ResourceTheoryType::Athermality && !monotone_not_increased ==> result.reason@
            == "Athermality would increase: "@ + rho_value@ + " → "@ + sigma_value@,
        theory == ResourceTheoryType::Coherence && monotone_not_increased ==> result.reason@
            == "Coherence decreases: "@ + rho_value@ + " → "@ + sigma_value@,
        theory == ResourceTheoryType::Coherence && !monotone_not_increased ==> result.reason@
            == "Coherence would increase: "@ + rho_value@ + " → "@ + sigma_value@,
{
    let mut reason = match theory {
        ResourceTheoryType::Entanglement => {
            return ConversionResult {
                possible: true,
                reason: String::from_str(
                    "Single-qubit states are always interconvertible by LOCC (no entanglement)",
                ),
            };
        },
        ResourceTheoryType::Athermality => if monotone_not_increased {
            String::from_str("Athermality decreases: ")
        } else {
            String::from_str("Athermality would increase: ")
        },
        ResourceTheoryType::Coherence => if monotone_not_increased {
            String::from_str("Coherence decreases: ")
        } else {
            String::from_str("Coherence would increase: ")
        },
    };
    reason.append(rho_value);
    reason.append(" → ");
    reason.append(sigma_value);
    ConversionResult { possible: monotone_not_increased, reason }
}

/// Entry `(r, c)` of the state kept when subsystem A of a two-qubit state
/// `data` is measured in the computational basis with result `outcome`, before
/// normalization: the 2×2 block of rows and columns `2·outcome`, `2·outcome + 1`
/// moves to the top left, and every other entry is `zero`.
pub open spec fn measured_entry<T>(data: Seq<T>, outcome: int, zero: T, r: int, c: int) -> T {
    if r < 2 && c < 2 {
        data[row_major(2 * outcome + r, 2 * outcome + c)]
    } else {
        zero
    }
}

/// The whole unnormalized post-measurement state, as a row-major 4×4 matrix.
pub open spec fn measured_block<T>(data: Seq<T>, outcome: int, zero: T) -> Seq<T> {
    Seq::new(16, |k: int| measured_entry(data, outcome, zero, k / 4, k % 4))
}

/// Select the block that survives a local measurement of subsystem A with
/// result `outcome` (0 or 1); the caller normalizes it.
pub fn locc_measure_block<T: Copy>(data: &[T], outcome: usize, zero: T) -> (block: Vec<T>)
    requires
        outcome < 2,
        row_major(2 * outcome + 1, 2 * outcome + 1) < data@.len(),
    ensures
        block@.len() == 16,
        forall|r: int, c: int|
            0 <= r < 4 && 0 <= c < 4 ==> #[trigger] block@[row_major(r, c)] == measured_entry(
                data@,
                outcome as int,
                zero,
                r,
                c,
            ),
        block@ == measured_block(data@, outcome as int, zero),
        forall|r: int, c: int|
            0 <= r < 2 && 0 <= c < 2 ==> #[trigger] block@[row_major(r, c)] == data@[row_major(
                2 * outcome + r,
                2 * outcome + c,
            )],
        forall|r: int, c: int|
            0 <= r < 4 && 0 <= c < 4 && !(r < 2 && c < 2) ==> #[trigger] block@[row_major(r, c)]
                == zero,
{
    let offset = 2 * outcome;
    let mut block: Vec<T> = Vec::new();
    let mut r: usize = 0;
    while r < 4
        invariant
            offset == 2 * outcome,
            outcome < 2,
            row_major(2 * outcome + 1, 2 * outcome + 1) < data@.len(),
            r <= 4,
            block@.len() == 4 * r,
            forall|r2: int, c2: int|
                0 <= r2 < r && 0 <= c2 < 4 ==> #[trigger] block@[row_major(r2, c2)]
                    == measured_entry(data@, outcome as int, zero, r2, c2),
        decreases 4 - r,
    {
        let mut c: usize = 0;
        while c < 4
            invariant
                offset == 2 * outcome,
                outcome < 2,
                row_major(2 * outcome + 1, 2 * outcome + 1) < data@.len(),
                r < 4,
                c <= 4,
                block@.len() == 4 * r + c,
                forall|r2: int, c2: int|
                    (0 <= r2 < r && 0 <= c2 < 4) || (r2 == r && 0 <= c2 < c)
                        ==> #[trigger] block@[row_major(r2, c2)]
                        == measured_entry(data@, outcome as int, zero, r2, c2),
            decreases 4 - c,
        {
            if r < 2 && c < 2 {
                block.push(data[4 * (offset + r) + offset + c]);
            } else {
                block.push(zero);
            }
            c += 1;
        }
        r += 1;
    }
    assert forall|k: int| 0 <= k < 16 implies block@[k] == measured_block(data@, outcome as int, zero)[k] by {
        assert(k == row_major(k / 4, k % 4));
    }
    assert(block@ =~= measured_block(data@, outcome as int, zero));
    block
}

/// In entanglement theory every conversion of single-qubit states is possible,
/// whatever the monotones say; in athermality and coherence theory a conversion
/// is possible exactly when the monotone does not increase.
pub proof fn lemma_conversion_verdict(theory: ResourceTheoryType, monotone_not_increased: bool)
    ensures
        conversion_possible(ResourceTheoryType::Entanglement, monotone_not_increased),
        theory != ResourceTheoryType::Entanglement ==> (conversion_possible(
            theory,
            monotone_not_increased,
        ) <==> monotone_not_increased),
{
}

/// A local measurement of A with result `outcome` keeps exactly the 2×2 block
/// of rows and columns `2·outcome`, `2·outcome + 1` of the joint state, all four
/// of its entries (coherences included), moved to the top left; every other
/// entry of the 4×4 result is `zero`.
pub proof fn lemma_measured_block_entries<T>(data: Seq<T>, outcome: int, zero: T)
    requires
        0 <= outcome < 2,
    ensures
        measured_block(data, outcome, zero).len() == 16,
        forall|r: int, c: int|
            0 <= r < 2 && 0 <= c < 2 ==> #[trigger] measured_block(data, outcome, zero)[row_major(r, c)]
                == data[row_major(2 * outcome + r, 2 * outcome + c)],
        forall|r: int, c: int|
            0 <= r < 4 && 0 <= c < 4 && !(r < 2 && c < 2) ==> #[trigger] measured_block(
                data,
                outcome,
                zero,
            )[row_major(r, c)] == zero,
{
    assert forall|r: int, c: int| 0 <= r < 4 && 0 <= c < 4 implies #[trigger] measured_block(
        data,
        outcome,
        zero,
    )[row_major(r, c)] == measured_entry(data, outcome, zero, r, c) by {
        assert(row_major(r, c) / 4 == r && row_major(r, c) % 4 == c);
    }
}

/// Measuring subsystem A again with result 0 on a state that a measurement has
/// already reduced to its top-left block leaves it unchanged: the measurement
/// is repeatable.
pub proof fn lemma_measurement_repeatable<T>(data: Seq<T>, outcome: int, zero: T)
    requires
        0 <= outcome < 2,
        data.len() >= 16,
    ensures
        measured_block(measured_block(data, outcome, zero), 0, zero) == measured_block(
            data,
            outcome,
            zero,
        ),
{
    let once = measured_block(data, outcome, zero);
    let twice = measured_block(once, 0, zero);
    assert forall|k: int| 0 <= k < 16 implies twice[k] == once[k] by {
        let r = k / 4;
        let c = k % 4;
        if r < 2 && c < 2 {
            assert(row_major(r, c) == k);
        }
    }
    assert(twice =~= once);
}

} // verus!
