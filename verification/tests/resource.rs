use quantum_thermo::resource::{
    can_convert, is_free_state, locc_measure_block, ConversionResult, ResourceTheoryType,
};

fn zero_state() -> [[f64; 2]; 2] {
    [[1.0, 0.0], [0.0, 0.0]]
}

fn plus_state() -> [[f64; 2]; 2] {
    let s = 1.0 / std::f64::consts::SQRT_2;
    [[s * s, s * s], [s * s, s * s]]
}

fn free(rho: [[f64; 2]; 2], theory: ResourceTheoryType) -> bool {
    is_free_state(theory, rho[0][1].abs() < 1e-10, rho[1][0].abs() < 1e-10)
}

fn l1_coherence(rho: [[f64; 2]; 2]) -> f64 {
    rho[0][1].abs() + rho[1][0].abs()
}

fn convert_by_coherence(rho: [[f64; 2]; 2], sigma: [[f64; 2]; 2]) -> ConversionResult {
    let a = l1_coherence(rho);
    let b = l1_coherence(sigma);
    can_convert(
        ResourceTheoryType::Coherence,
        &format!("{:.4}", a),
        &format!("{:.4}", b),
        a >= b,
    )
}

fn bell_state() -> Vec<f64> {
    vec![
        0.5, 0.0, 0.0, 0.5, 0.0, 0.0, 0.0, 0.0, 0.0, 0.0, 0.0, 0.0, 0.5, 0.0, 0.0, 0.5,
    ]
}

#[test]
fn test_free_state_entanglement() {
    assert!(free(zero_state(), ResourceTheoryType::Entanglement));
}

#[test]
fn test_free_state_coherence() {
    assert!(free(zero_state(), ResourceTheoryType::Coherence));
}

#[test]
fn test_not_free_coherence() {
    assert!(!free(plus_state(), ResourceTheoryType::Coherence));
}

#[test]
fn entanglement_frees_every_single_qubit_state() {
    assert!(is_free_state(ResourceTheoryType::Entanglement, false, false));
    assert!(free(plus_state(), ResourceTheoryType::Entanglement));
}

#[test]
fn athermality_frees_only_diagonal_states() {
    assert!(is_free_state(ResourceTheoryType::Athermality, true, true));
    assert!(!is_free_state(ResourceTheoryType::Athermality, true, false));
    assert!(!is_free_state(ResourceTheoryType::Athermality, false, true));
    assert!(!free(plus_state(), ResourceTheoryType::Athermality));
}

#[test]
fn coherence_needs_both_coherences_to_vanish() {
    assert!(!is_free_state(ResourceTheoryType::Coherence, true, false));
    assert!(!is_free_state(ResourceTheoryType::Coherence, false, true));
    assert!(is_free_state(ResourceTheoryType::Coherence, true, true));
}

#[test]
fn test_can_convert_coherence() {
    let result = convert_by_coherence(plus_state(), zero_state());
    assert!(result.possible);
    assert_eq!(result.reason, "Coherence decreases: 1.0000 → 0.0000");
}

#[test]
fn test_cannot_increase_coherence() {
    let result = convert_by_coherence(zero_state(), plus_state());
    assert!(!result.possible);
    assert_eq!(result.reason, "Coherence would increase: 0.0000 → 1.0000");
}

#[test]
fn converting_a_state_to_itself_is_allowed() {
    let result = convert_by_coherence(plus_state(), plus_state());
    assert!(result.possible);
    assert_eq!(result.reason, "Coherence decreases: 1.0000 → 1.0000");
}

#[test]
fn entanglement_conversion_always_possible() {
    let result = can_convert(ResourceTheoryType::Entanglement, "0.0000", "0.0000", false);
    assert!(result.possible);
    assert_eq!(
        result.reason,
        "Single-qubit states are always interconvertible by LOCC (no entanglement)"
    );
}

#[test]
fn athermality_verdicts_and_reasons() {
    let down = can_convert(ResourceTheoryType::Athermality, "0.6931", "0.0000", true);
    assert!(down.possible);
    assert_eq!(down.reason, "Athermality decreases: 0.6931 → 0.0000");
    let up = can_convert(ResourceTheoryType::Athermality, "0.0000", "0.6931", false);
    assert!(!up.possible);
    assert_eq!(up.reason, "Athermality would increase: 0.0000 → 0.6931");
}

#[test]
fn conversion_result_clones() {
    let r = can_convert(ResourceTheoryType::Coherence, "1.0000", "0.0000", true);
    let c = r.clone();
    assert_eq!(c.possible, r.possible);
    assert_eq!(c.reason, r.reason);
}

#[test]
fn resource_theory_type_equality() {
    assert_eq!(ResourceTheoryType::Coherence, ResourceTheoryType::Coherence);
    assert_ne!(ResourceTheoryType::Coherence, ResourceTheoryType::Athermality);
    let t = ResourceTheoryType::Entanglement;
    let u = t;
    assert_eq!(t, u);
}

#[test]
fn test_locc_measure() {
    let state = bell_state();
    let mut post = locc_measure_block(&state, 0, 0.0);
    let norm: f64 = post[0] + post[1] + post[4] + post[5];
    for v in post.iter_mut() {
        *v /= norm;
    }
    // After measuring A=0, B should be in |0⟩
    assert!((post[0] - 1.0).abs() < 1e-10);
}

#[test]
fn measured_block_moves_to_top_left() {
    let data: Vec<u32> = (1..=16).collect();
    let block = locc_measure_block(&data, 1, 0);
    assert_eq!(
        block,
        vec![11, 12, 0, 0, 15, 16, 0, 0, 0, 0, 0, 0, 0, 0, 0, 0]
    );
    let block0 = locc_measure_block(&data, 0, 0);
    assert_eq!(block0, vec![1, 2, 0, 0, 5, 6, 0, 0, 0, 0, 0, 0, 0, 0, 0, 0]);
}

#[test]
fn measurement_is_repeatable() {
    let data: Vec<i64> = (1..=16).map(|x| x * 3 - 7).collect();
    for outcome in 0..2 {
        let once = locc_measure_block(&data, outcome, 0);
        let twice = locc_measure_block(&once, 0, 0);
        assert_eq!(once, twice);
    }
}

#[test]
fn measuring_bell_state_on_one() {
    let post = locc_measure_block(&bell_state(), 1, 0.0);
    assert_eq!(post[5], 0.5);
    assert_eq!(post[0], 0.0);
    assert_eq!(post.len(), 16);
}
