use nexus_host::attestation::{
    evaluate_attestation, prove_reserves_multi_asset, MultiAssetProofInput, ValidationError,
    Verdict,
};

fn attestation(
    btc: Vec<u64>,
    eth: Vec<u64>,
    threshold_btc: u64,
    threshold_eth: u64,
    bank: &str,
    operator: &str,
) -> MultiAssetProofInput {
    MultiAssetProofInput::new(
        btc,
        eth,
        threshold_btc,
        threshold_eth,
        bank.to_string(),
        operator.to_string(),
    )
}

#[test]
fn operator_mismatch_beats_everything() {
    let mut a = attestation(vec![1_000, 2_000], vec![500], 1, 1, "bankA", "custodianB");
    assert_eq!(evaluate_attestation(&a), Ok(Verdict::OperatorMismatch));
    a.liabilities = Some(vec![1]);
    assert_eq!(evaluate_attestation(&a), Ok(Verdict::OperatorMismatch));
    let b = attestation(vec![u64::MAX, u64::MAX], vec![], 1, 1, "bankA", "custodianB");
    assert_eq!(evaluate_attestation(&b), Ok(Verdict::OperatorMismatch));
}

#[test]
fn solvency_compares_total_assets_to_total_liabilities() {
    let mut a = attestation(vec![40, 20], vec![], 0, 0, "bankA", "bankA");
    a.liabilities = Some(vec![30, 20]);
    assert_eq!(evaluate_attestation(&a), Ok(Verdict::Solvent));
    let mut b = attestation(vec![10, 20], vec![5], 0, 0, "bankA", "bankA");
    b.liabilities = Some(vec![30, 20]);
    assert_eq!(evaluate_attestation(&b), Ok(Verdict::Insolvent));
    let mut c = attestation(vec![25], vec![25], 0, 0, "bankA", "bankA");
    c.liabilities = Some(vec![50]);
    assert_eq!(evaluate_attestation(&c), Ok(Verdict::Solvent));
}

#[test]
fn thresholds_are_ignored_when_liabilities_are_present() {
    let mut a = attestation(vec![40, 20], vec![], u64::MAX, u64::MAX, "bankA", "bankA");
    a.liabilities = Some(vec![30, 20]);
    assert_eq!(evaluate_attestation(&a), Ok(Verdict::Solvent));
}

#[test]
fn thresholds_decide_without_liabilities() {
    let a = attestation(vec![60, 50], vec![200], 100, 150, "bankA", "bankA");
    assert_eq!(evaluate_attestation(&a), Ok(Verdict::Verified));
    let b = attestation(vec![40, 50], vec![], 100, 0, "bankA", "bankA");
    assert_eq!(evaluate_attestation(&b), Ok(Verdict::ThresholdFail));
    let c = attestation(vec![200], vec![10], 100, 150, "bankA", "bankA");
    assert_eq!(evaluate_attestation(&c), Ok(Verdict::ThresholdFail));
}

#[test]
fn empty_balances_meet_zero_thresholds() {
    let a = attestation(vec![], vec![], 0, 0, "bankA", "bankA");
    assert_eq!(evaluate_attestation(&a), Ok(Verdict::Verified));
}

#[test]
fn balance_overflow_is_a_validation_error() {
    let a = attestation(vec![u64::MAX, 1], vec![], 0, 0, "bankA", "bankA");
    assert_eq!(evaluate_attestation(&a), Err(ValidationError::SumOverflow));
    let b = attestation(vec![], vec![u64::MAX, u64::MAX], 0, 0, "bankA", "bankA");
    assert_eq!(evaluate_attestation(&b), Err(ValidationError::SumOverflow));
}

#[test]
fn liability_and_total_overflows_are_validation_errors() {
    let mut a = attestation(vec![1], vec![], 0, 0, "bankA", "bankA");
    a.liabilities = Some(vec![u64::MAX, 1]);
    assert_eq!(evaluate_attestation(&a), Err(ValidationError::SumOverflow));
    let mut b = attestation(vec![u64::MAX], vec![1], 0, 0, "bankA", "bankA");
    b.liabilities = Some(vec![0]);
    assert_eq!(evaluate_attestation(&b), Err(ValidationError::SumOverflow));
    let c = attestation(vec![u64::MAX], vec![1], 0, 0, "bankA", "bankA");
    assert_eq!(evaluate_attestation(&c), Ok(Verdict::Verified));
}

#[test]
fn proof_of_reserves_judgment() {
    let a = attestation(vec![60, 50], vec![200], 100, 150, "bankA", "bankA");
    assert_eq!(prove_reserves_multi_asset(&a), 1);
    let b = attestation(vec![40, 50], vec![], 100, 0, "bankA", "bankA");
    assert_eq!(prove_reserves_multi_asset(&b), 0);
    let c = attestation(vec![1_000], vec![1_000], 1, 1, "bankA", "custodianB");
    assert_eq!(prove_reserves_multi_asset(&c), 0);
}

#[test]
fn new_starts_without_liabilities() {
    let a = MultiAssetProofInput::new(
        vec![1, 2],
        vec![3],
        4,
        5,
        "bankA".to_string(),
        "bankA".to_string(),
    );
    assert_eq!(a.btc_balances, vec![1, 2]);
    assert_eq!(a.eth_balances, vec![3]);
    assert_eq!(a.threshold_btc, 4);
    assert_eq!(a.threshold_eth, 5);
    assert_eq!(a.bank_name, "bankA");
    assert_eq!(a.reserve_operator, "bankA");
    assert!(a.liabilities.is_none());
}
