//! The attestation evaluator: a pure judgment of a submitted reserve
//! attestation, with overflow-checked summation.

use vstd::prelude::*;

verus! {

/// Mathematical sum of a sequence of balances.
pub open spec fn sum_of(s: Seq<u64>) -> int
    decreases s.len(),
{
    if s.len() == 0 {
        0
    } else {
        sum_of(s.drop_last()) + s.last()
    }
}

/// The sum of a prefix never exceeds the sum of the whole sequence.
pub proof fn lemma_sum_of_prefix(s: Seq<u64>, i: int)
    requires
        0 <= i <= s.len(),
    ensures
        sum_of(s.subrange(0, i)) <= sum_of(s),
    decreases s.len() - i,
{
    if i == s.len() {
        assert(s.subrange(0, i) =~= s);
    } else {
        assert(s.subrange(0, i + 1).drop_last() =~= s.subrange(0, i));
        assert(s.subrange(0, i + 1).last() == s[i]);
        lemma_sum_of_prefix(s, i + 1);
    }
}

/// Overflow-checked summation of a balance list: `None` exactly when the
/// mathematical sum does not fit in a `u64`.
pub fn checked_sum(values: &Vec<u64>) -> (r: Option<u64>)
    ensures
        r matches Some(total) ==> total == sum_of(values@),
        r is Some <==> sum_of(values@) <= u64::MAX,
{
    let mut total: u64 = 0;
    let n = values.len();
    for i in 0..n
        invariant
            n == values@.len(),
            total == sum_of(values@.subrange(0, i as int)),
    {
        proof {
            assert(values@.subrange(0, i + 1).drop_last() =~= values@.subrange(0, i as int));
            assert(values@.subrange(0, i + 1).last() == values@[i as int]);
        }
        match total.checked_add(values[i]) {
            Some(t) => {
                total = t;
            },
            None => {
                proof {
                    lemma_sum_of_prefix(values@, i + 1);
                }
                return None;
            },
        }
    }
    proof {
        assert(values@.subrange(0, n as int) =~= values@);
    }
    Some(total)
}

/// A reserve attestation submitted for evaluation: per-asset balance lists,
/// per-asset thresholds, the claimed bank identity, the claimed
/// reserve-operator identity, and an optional liabilities list.
#[derive(Debug)]
pub struct MultiAssetProofInput {
    pub btc_balances: Vec<u64>,
    pub eth_balances: Vec<u64>,
    pub threshold_btc: u64,
    pub threshold_eth: u64,
    pub bank_name: String,
    pub reserve_operator: String,
    pub liabilities: Option<Vec<u64>>,
}

/// The evaluator's categorical judgment of an attestation.
#[derive(Debug, Clone, Copy, PartialEq, Eq, Structural)]
pub enum Verdict {
    /// All asset classes meet their thresholds (no liabilities supplied).
    Verified,
    /// Some asset class misses its threshold (no liabilities supplied).
    ThresholdFail,
    /// Total assets cover total liabilities.
    Solvent,
    /// Total assets do not cover total liabilities.
    Insolvent,
    /// The claimed reserve operator differs from the claimed bank.
    OperatorMismatch,
}

/// Malformed attestation input, rejected before any verdict is produced.
#[derive(Debug, Clone, Copy, PartialEq, Eq, Structural)]
pub enum ValidationError {
    /// A balance or liability summation does not fit in a `u64`.
    SumOverflow,
}

impl MultiAssetProofInput {
    /// The claimed reserve operator matches the claimed bank.
    pub open spec fn operator_matches(self) -> bool {
        self.reserve_operator@ == self.bank_name@
    }

    /// Combined balance over every asset class.
    pub open spec fn total_assets(self) -> int {
        sum_of(self.btc_balances@) + sum_of(self.eth_balances@)
    }

    /// Every asset class's summed balance meets that asset's threshold.
    pub open spec fn thresholds_met(self) -> bool {
        &&& sum_of(self.btc_balances@) >= self.threshold_btc
        &&& sum_of(self.eth_balances@) >= self.threshold_eth
    }

    /// Assets cover the supplied liabilities (non-strict).
    pub open spec fn covers_liabilities(self) -> bool {
        self.total_assets() >= sum_of(self.liabilities->Some_0@)
    }

    /// Some summation the evaluator must perform does not fit in a `u64`.
    /// An operator mismatch is decided before any summation, so nothing
    /// overflows on such an attestation.
    pub open spec fn sums_overflow(self) -> bool {
        self.operator_matches() && {
            ||| sum_of(self.btc_balances@) > u64::MAX
            ||| sum_of(self.eth_balances@) > u64::MAX
            ||| (self.liabilities is Some && {
                ||| sum_of(self.liabilities->Some_0@) > u64::MAX
                ||| self.total_assets() > u64::MAX
            })
        }
    }

    /// The verdict owed to this attestation, by precedence: an operator
    /// mismatch first; then, with liabilities present, solvency of total
    /// assets against total liabilities; otherwise the per-asset thresholds.
    pub open spec fn spec_verdict(self) -> Verdict {
        if !self.operator_matches() {
            Verdict::OperatorMismatch
        } else if self.liabilities is Some {
            if self.covers_liabilities() {
                Verdict::Solvent
            } else {
                Verdict::Insolvent
            }
        } else if self.thresholds_met() {
            Verdict::Verified
        } else {
            Verdict::ThresholdFail
        }
    }

    pub fn new(
        btc_balances: Vec<u64>,
        eth_balances: Vec<u64>,
        threshold_btc: u64,
        threshold_eth: u64,
        bank_name: String,
        reserve_operator: String,
    ) -> (r: MultiAssetProofInput)
        ensures
            r == (MultiAssetProofInput {
                btc_balances,
                eth_balances,
                threshold_btc,
                threshold_eth,
                bank_name,
                reserve_operator,
                liabilities: None,
            }),
    {
        MultiAssetProofInput {
            btc_balances,
            eth_balances,
            threshold_btc,
            threshold_eth,
            bank_name,
            reserve_operator,
            liabilities: None,
        }
    }
}

/// Evaluate an attestation to a verdict. The evaluation is pure: the result
/// is a function of the attestation alone. An overflowing summation is a
/// fatal input error, never a verdict.
pub fn evaluate_attestation(input: &MultiAssetProofInput) -> (r: Result<
    Verdict,
    ValidationError,
>)
    ensures
        r is Ok <==> !input.sums_overflow(),
        r matches Ok(v) ==> v == input.spec_verdict(),
        r is Err ==> r == Err::<Verdict, ValidationError>(ValidationError::SumOverflow),
{
    if !(input.reserve_operator == input.bank_name) {
        return Ok(Verdict::OperatorMismatch);
    }
    let sum_btc = match checked_sum(&input.btc_balances) {
        Some(s) => s,
        None => {
            return Err(ValidationError::SumOverflow);
        },
    };
    let sum_eth = match checked_sum(&input.eth_balances) {
        Some(s) => s,
        None => {
            return Err(ValidationError::SumOverflow);
        },
    };
    match &input.liabilities {
        Some(liabilities) => {
            let sum_liabilities = match checked_sum(liabilities) {
                Some(s) => s,
                None => {
                    return Err(ValidationError::SumOverflow);
                },
            };
            let total_assets = match sum_btc.checked_add(sum_eth) {
                Some(t) => t,
                None => {
                    return Err(ValidationError::SumOverflow);
                },
            };
            if total_assets >= sum_liabilities {
                Ok(Verdict::Solvent)
            } else {
                Ok(Verdict::Insolvent)
            }
        },
        None => {
            if sum_btc >= input.threshold_btc && sum_eth >= input.threshold_eth {
                Ok(Verdict::Verified)
            } else {
                Ok(Verdict::ThresholdFail)
            }
        },
    }
}

/// Whenever the claimed operator differs from the claimed bank, the verdict
/// is an operator mismatch — whatever the balances hold — and evaluation
/// succeeds, since the mismatch is decided before any summation.
pub proof fn lemma_operator_mismatch_wins(a: MultiAssetProofInput)
    requires
        !a.operator_matches(),
    ensures
        a.spec_verdict() == Verdict::OperatorMismatch,
        !a.sums_overflow(),
{
}

/// With liabilities present and the operator matching, the verdict is
/// solvency exactly when the total assets cover the total liabilities, and
/// insolvency otherwise; no other verdict can come out.
pub proof fn lemma_solvency_dichotomy(a: MultiAssetProofInput)
    requires
        a.operator_matches(),
        a.liabilities is Some,
    ensures
        a.spec_verdict() == Verdict::Solvent <==> a.total_assets() >= sum_of(
            a.liabilities->Some_0@,
        ),
        a.spec_verdict() == Verdict::Insolvent <==> a.total_assets() < sum_of(
            a.liabilities->Some_0@,
        ),
{
}

/// Without liabilities and with the operator matching, the verdict is
/// verified exactly when every asset class's summed balance meets that
/// asset's threshold, and a threshold failure otherwise.
pub proof fn lemma_threshold_dichotomy(a: MultiAssetProofInput)
    requires
        a.operator_matches(),
        a.liabilities is None,
    ensures
        a.spec_verdict() == Verdict::Verified <==> a.thresholds_met(),
        a.spec_verdict() == Verdict::ThresholdFail <==> !a.thresholds_met(),
{
}

/// With liabilities present, the verdict depends on the balance lists and the
/// liabilities alone: the threshold fields are ignored.
pub proof fn lemma_thresholds_ignored_with_liabilities(
    a: MultiAssetProofInput,
    b: MultiAssetProofInput,
)
    requires
        a.liabilities is Some,
        a == (MultiAssetProofInput {
            threshold_btc: a.threshold_btc,
            threshold_eth: a.threshold_eth,
            ..b
        }),
    ensures
        a.spec_verdict() == b.spec_verdict(),
{
}

/// The bare proof-of-reserves judgment: `1` exactly when the claimed operator
/// matches the bank and every asset class meets its threshold, else `0`.
/// Liabilities play no part here.
pub fn prove_reserves_multi_asset(input: &MultiAssetProofInput) -> (r: u8)
    requires
        sum_of(input.btc_balances@) <= u64::MAX,
        sum_of(input.eth_balances@) <= u64::MAX,
    ensures
        r == 1 <==> input.operator_matches() && input.thresholds_met(),
        r == 0 || r == 1,
{
    if !(input.reserve_operator == input.bank_name) {
        return 0;
    }
    let sum_btc = match checked_sum(&input.btc_balances) {
        Some(s) => s,
        None => {
            proof {
                assert(false);
            }
            0
        },
    };
    let sum_eth = match checked_sum(&input.eth_balances) {
        Some(s) => s,
        None => {
            proof {
                assert(false);
            }
            0
        },
    };
    if sum_btc >= input.threshold_btc && sum_eth >= input.threshold_eth {
        1
    } else {
        0
    }
}

} // verus!
