//! Compliance data model and the moderation policy engine: the deterministic
//! rules that turn a verdict into consequences for a participant.

use vstd::prelude::*;
use vstd::string::*;
use crate::attestation::{evaluate_attestation, MultiAssetProofInput, ValidationError, Verdict};
use crate::registry::Registry;

verus! {

/// One compliance record per participant (a bank or custodian), keyed by an
/// opaque string identity.
#[derive(Debug)]
pub struct Participant {
    pub id: String,
    pub strikes: u8,
    pub reputation: i32,
    pub blacklisted: bool,
    pub blacklist_reason: Option<String>,
    pub last_action: Option<String>,
}

impl Participant {
    /// A blacklisted record carries a reason; a clear record carries none.
    pub open spec fn wf(self) -> bool {
        self.blacklisted <==> self.blacklist_reason is Some
    }
}

impl Clone for Participant {
    fn clone(&self) -> (r: Participant)
        ensures
            r == *self,
    {
        Participant {
            id: self.id.clone(),
            strikes: self.strikes,
            reputation: self.reputation,
            blacklisted: self.blacklisted,
            blacklist_reason: clone_opt_string(&self.blacklist_reason),
            last_action: clone_opt_string(&self.last_action),
        }
    }
}

/// Copy an optional string, field for field.
fn clone_opt_string(s: &Option<String>) -> (r: Option<String>)
    ensures
        r == *s,
{
    match s {
        Some(t) => Some(t.clone()),
        None => None,
    }
}

/// The record a participant starts from on first submission.
pub open spec fn is_fresh_participant(p: Participant, id: Seq<char>) -> bool {
    &&& p.id@ == id
    &&& p.strikes == 0
    &&& p.reputation == 100
    &&& !p.blacklisted
    &&& p.blacklist_reason is None
    &&& p.last_action is None
}

/// Build the default record for a new participant.
pub fn fresh_participant(id: &str) -> (p: Participant)
    ensures
        is_fresh_participant(p, id@),
        p.wf(),
{
    Participant {
        id: String::from_str(id),
        strikes: 0,
        reputation: 100,
        blacklisted: false,
        blacklist_reason: None,
        last_action: None,
    }
}

/// A reinstated participant: blacklist lifted, strikes cleared, everything
/// else kept.
pub open spec fn reinstated(p: Participant) -> Participant {
    Participant { strikes: 0, blacklisted: false, blacklist_reason: None, ..p }
}

/// Reinstatement settles in one step: applying it twice changes nothing more,
/// and the result always shows zero strikes and no blacklist.
pub proof fn lemma_reinstate_idempotent(p: Participant)
    ensures
        reinstated(reinstated(p)) == reinstated(p),
        reinstated(p).strikes == 0,
        !reinstated(p).blacklisted,
        reinstated(p).wf(),
{
}

/// Policy knobs, immutable per evaluation cycle.
#[derive(Debug, Clone, Copy, PartialEq, Eq, Structural)]
pub struct PolicyConfig {
    /// Strike count at which a participant transitions to blacklisted.
    pub max_strikes: u8,
    /// Reserved secondary threshold for forward policy extension.
    pub blacklist_threshold: u8,
    /// Informational fee field; not enforced by the transition rules.
    pub penalty_fee: u64,
    /// Informational suspension field, in seconds; not enforced.
    pub suspension_duration: u64,
    /// Signed delta applied to reputation on every adverse verdict.
    pub reputation_penalty: i32,
}

impl Default for PolicyConfig {
    fn default() -> (r: PolicyConfig)
        ensures
            r.max_strikes == 3,
            r.blacklist_threshold == 5,
            r.penalty_fee == 1000,
            r.suspension_duration == 3600,
            r.reputation_penalty == -10,
    {
        PolicyConfig {
            max_strikes: 3,
            blacklist_threshold: 5,
            penalty_fee: 1000,
            suspension_duration: 3600,
            reputation_penalty: -10,
        }
    }
}

/// Append-only audit entry; never mutated after creation.
#[derive(Debug)]
pub struct ActionLog {
    pub participant_id: String,
    pub action: String,
    pub timestamp: u64,
    pub details: Option<String>,
}

impl Clone for ActionLog {
    fn clone(&self) -> (r: ActionLog)
        ensures
            r == *self,
    {
        ActionLog {
            participant_id: self.participant_id.clone(),
            action: self.action.clone(),
            timestamp: self.timestamp,
            details: clone_opt_string(&self.details),
        }
    }
}

/// One audit entry has exactly these fields.
pub open spec fn log_entry_is(
    entry: ActionLog,
    id: Seq<char>,
    action: Seq<char>,
    now: u64,
    details: Option<Seq<char>>,
) -> bool {
    &&& entry.participant_id@ == id
    &&& entry.action@ == action
    &&& entry.timestamp == now
    &&& (match details {
        Some(d) => entry.details matches Some(x) && x@ == d,
        None => entry.details is None,
    })
}

/// An adverse verdict draws consequences; a clean one does not.
pub open spec fn is_adverse(v: Verdict) -> bool {
    v == Verdict::OperatorMismatch || v == Verdict::ThresholdFail || v == Verdict::Insolvent
}

/// The audit-log label recorded for a verdict.
pub open spec fn action_label(v: Verdict) -> Seq<char> {
    match v {
        Verdict::Verified => "verified"@,
        Verdict::ThresholdFail => "threshold_fail"@,
        Verdict::Solvent => "solvent"@,
        Verdict::Insolvent => "insolvent"@,
        Verdict::OperatorMismatch => "reserve_operator_mismatch"@,
    }
}

/// The cause recorded when a verdict tips a participant onto the blacklist.
pub open spec fn blacklist_reason_text(v: Verdict) -> Seq<char> {
    match v {
        Verdict::ThresholdFail => "Too many threshold failures"@,
        Verdict::Insolvent => "Too many insolvency proofs"@,
        Verdict::OperatorMismatch => "Too many operator mismatches"@,
        Verdict::Verified => "Too many adverse verdicts"@,
        Verdict::Solvent => "Too many adverse verdicts"@,
    }
}

/// One more strike, held at the counter's ceiling.
pub open spec fn bumped_strikes(s: u8) -> u8 {
    if s == 255 {
        255u8
    } else {
        (s + 1) as u8
    }
}

/// Signed addition held inside the `i32` range.
pub open spec fn clamped_add_i32(a: int, b: int) -> int {
    if a + b > i32::MAX {
        i32::MAX as int
    } else if a + b < i32::MIN {
        i32::MIN as int
    } else {
        a + b
    }
}

/// The strike count after a verdict lands on a participant who is not
/// blacklisted: one more on an adverse verdict, unchanged otherwise.
pub open spec fn strikes_after_verdict(strikes: u8, v: Verdict) -> u8 {
    if is_adverse(v) {
        bumped_strikes(strikes)
    } else {
        strikes
    }
}

/// The reputation after a verdict lands: the policy's penalty is added on an
/// adverse verdict, nothing otherwise.
pub open spec fn reputation_after_verdict(rep: int, penalty: int, v: Verdict) -> int {
    if is_adverse(v) {
        clamped_add_i32(rep, penalty)
    } else {
        rep
    }
}

/// Whether a verdict tips a participant who is not yet blacklisted onto the
/// blacklist: only an adverse verdict can, and only once the strike count
/// reaches the policy limit.
pub open spec fn blacklisted_after_verdict(strikes: u8, max_strikes: u8, v: Verdict) -> bool {
    is_adverse(v) && strikes_after_verdict(strikes, v) >= max_strikes
}

/// No verdict lowers the strike counter. A non-adverse verdict leaves it
/// unchanged; an adverse one raises it by exactly one, up to the ceiling.
pub proof fn lemma_strikes_monotone(strikes: u8, v: Verdict)
    ensures
        strikes <= strikes_after_verdict(strikes, v),
        !is_adverse(v) ==> strikes_after_verdict(strikes, v) == strikes,
        is_adverse(v) && strikes < 255 ==> strikes_after_verdict(strikes, v) == strikes + 1,
{
}

/// A participant below the policy limit is blacklisted by one more verdict
/// exactly when that verdict is adverse and carries the strike count to the
/// limit — never earlier.
pub proof fn lemma_blacklist_trigger(strikes: u8, max_strikes: u8, v: Verdict)
    requires
        strikes < max_strikes,
    ensures
        blacklisted_after_verdict(strikes, max_strikes, v) <==> (is_adverse(v)
            && strikes_after_verdict(strikes, v) == max_strikes),
{
}

/// The full consequence of a verdict on the stored fields of a participant
/// who was not blacklisted: strikes, reputation, blacklist state, cause, and
/// the action label.
pub open spec fn consequences_applied(
    p2: Participant,
    id: Seq<char>,
    strikes0: u8,
    reputation0: int,
    policy: PolicyConfig,
    v: Verdict,
) -> bool {
    &&& p2.id@ == id
    &&& p2.strikes == strikes_after_verdict(strikes0, v)
    &&& p2.reputation as int == reputation_after_verdict(
        reputation0,
        policy.reputation_penalty as int,
        v,
    )
    &&& p2.blacklisted == blacklisted_after_verdict(strikes0, policy.max_strikes, v)
    &&& (if p2.blacklisted {
        p2.blacklist_reason matches Some(t) && t@ == blacklist_reason_text(v)
    } else {
        p2.blacklist_reason is None
    })
    &&& p2.last_action matches Some(a) && a@ == action_label(v)
}

/// The audit entries appended for a verdict on a participant who was not
/// blacklisted: one entry for the verdict, and a second one when the same
/// step tips the participant onto the blacklist, both under one timestamp.
pub open spec fn consequence_logs(
    entries: Seq<ActionLog>,
    id: Seq<char>,
    strikes0: u8,
    policy: PolicyConfig,
    v: Verdict,
    now: u64,
) -> bool {
    if blacklisted_after_verdict(strikes0, policy.max_strikes, v) {
        &&& entries.len() == 2
        &&& log_entry_is(entries[0], id, action_label(v), now, None)
        &&& log_entry_is(entries[1], id, "blacklisted"@, now, Some(blacklist_reason_text(v)))
    } else {
        &&& entries.len() == 1
        &&& log_entry_is(entries[0], id, action_label(v), now, None)
    }
}

/// Whether a verdict draws consequences.
fn verdict_is_adverse(v: Verdict) -> (b: bool)
    ensures
        b == is_adverse(v),
{
    match v {
        Verdict::Verified => false,
        Verdict::Solvent => false,
        Verdict::ThresholdFail => true,
        Verdict::Insolvent => true,
        Verdict::OperatorMismatch => true,
    }
}

/// The audit-log label for a verdict.
fn action_text(v: Verdict) -> (s: String)
    ensures
        s@ == action_label(v),
{
    match v {
        Verdict::Verified => String::from_str("verified"),
        Verdict::ThresholdFail => String::from_str("threshold_fail"),
        Verdict::Solvent => String::from_str("solvent"),
        Verdict::Insolvent => String::from_str("insolvent"),
        Verdict::OperatorMismatch => String::from_str("reserve_operator_mismatch"),
    }
}

/// The blacklist cause for a verdict.
fn blacklist_reason_string(v: Verdict) -> (s: String)
    ensures
        s@ == blacklist_reason_text(v),
{
    match v {
        Verdict::ThresholdFail => String::from_str("Too many threshold failures"),
        Verdict::Insolvent => String::from_str("Too many insolvency proofs"),
        Verdict::OperatorMismatch => String::from_str("Too many operator mismatches"),
        Verdict::Verified => String::from_str("Too many adverse verdicts"),
        Verdict::Solvent => String::from_str("Too many adverse verdicts"),
    }
}

/// Add the policy's reputation penalty, held inside the `i32` range.
fn apply_reputation_penalty(rep: i32, delta: i32) -> (r: i32)
    ensures
        r as int == clamped_add_i32(rep as int, delta as int),
{
    match rep.checked_add(delta) {
        Some(x) => x,
        None => {
            if delta < 0 {
                i32::MIN
            } else {
                i32::MAX
            }
        },
    }
}

/// What one moderation step produced: the updated record, the audit entries
/// to append, and whether the submission was accepted for evaluation at all.
pub struct ModerationOutcome {
    pub participant: Participant,
    pub logs: Vec<ActionLog>,
    pub accepted: bool,
}

/// Apply a verdict to a participant under a policy. Pure: no I/O, no store —
/// the caller persists the returned record and appends the returned entries.
///
/// A blacklisted participant is rejected outright: the record is returned
/// unchanged and a single rejection entry is produced. Otherwise the verdict's
/// consequences land on the record, with one audit entry for the verdict and
/// a second one when the same step tips the participant onto the blacklist.
pub fn apply_verdict(
    policy: &PolicyConfig,
    participant: &Participant,
    verdict: Verdict,
    now: u64,
) -> (out: ModerationOutcome)
    ensures
        out.accepted == !participant.blacklisted,
        participant.blacklisted ==> out.participant == *participant,
        participant.blacklisted ==> out.logs@.len() == 1 && log_entry_is(
            out.logs@[0],
            participant.id@,
            "attempted_action_while_blacklisted"@,
            now,
            None,
        ),
        !participant.blacklisted ==> consequences_applied(
            out.participant,
            participant.id@,
            participant.strikes,
            participant.reputation as int,
            *policy,
            verdict,
        ),
        !participant.blacklisted ==> consequence_logs(
            out.logs@,
            participant.id@,
            participant.strikes,
            *policy,
            verdict,
            now,
        ),
        participant.strikes <= out.participant.strikes,
        participant.wf() ==> out.participant.wf(),
{
    if participant.blacklisted {
        let mut logs: Vec<ActionLog> = Vec::new();
        logs.push(
            ActionLog {
                participant_id: participant.id.clone(),
                action: String::from_str("attempted_action_while_blacklisted"),
                timestamp: now,
                details: None,
            },
        );
        return ModerationOutcome { participant: participant.clone(), logs, accepted: false };
    }
    let adverse = verdict_is_adverse(verdict);
    let new_strikes: u8 = if adverse {
        if participant.strikes == 255 {
            255
        } else {
            participant.strikes + 1
        }
    } else {
        participant.strikes
    };
    let new_reputation: i32 = if adverse {
        apply_reputation_penalty(participant.reputation, policy.reputation_penalty)
    } else {
        participant.reputation
    };
    let action = action_text(verdict);
    let mut logs: Vec<ActionLog> = Vec::new();
    logs.push(
        ActionLog {
            participant_id: participant.id.clone(),
            action: action.clone(),
            timestamp: now,
            details: None,
        },
    );
    let updated: Participant;
    if adverse && new_strikes >= policy.max_strikes {
        let reason = blacklist_reason_string(verdict);
        logs.push(
            ActionLog {
                participant_id: participant.id.clone(),
                action: String::from_str("blacklisted"),
                timestamp: now,
                details: Some(reason.clone()),
            },
        );
        updated = Participant {
            id: participant.id.clone(),
            strikes: new_strikes,
            reputation: new_reputation,
            blacklisted: true,
            blacklist_reason: Some(reason),
            last_action: Some(action),
        };
    } else {
        updated = Participant {
            id: participant.id.clone(),
            strikes: new_strikes,
            reputation: new_reputation,
            blacklisted: false,
            blacklist_reason: None,
            last_action: Some(action),
        };
    }
    ModerationOutcome { participant: updated, logs, accepted: true }
}

/// Failure of a registry or appeal operation; the operation performed no
/// mutation.
#[derive(Debug, Clone, Copy, PartialEq, Eq, Structural)]
pub enum ModerationError {
    /// The operation referenced an unknown participant id.
    NotFound,
    /// The operation referenced an appeal index outside the queue.
    IndexOutOfRange,
}

/// What a blacklist lookup found.
#[derive(Debug)]
pub enum BlacklistStatus {
    /// No record carries the id.
    NotFound,
    /// The participant is in good standing.
    NotBlacklisted,
    /// The participant is barred, with the recorded cause.
    Blacklisted(Option<String>),
}

/// Report whether a participant is blacklisted, and for what cause.
pub fn check_blacklist(participants: &Registry, id: &str) -> (r: BlacklistStatus)
    requires
        participants.wf(),
    ensures
        !participants.contains_id(id@) ==> r is NotFound,
        participants.contains_id(id@) && !participants.get_spec(id@).blacklisted ==> r
            is NotBlacklisted,
        participants.contains_id(id@) && participants.get_spec(id@).blacklisted ==> (r matches
            BlacklistStatus::Blacklisted(reason) && reason == participants.get_spec(
            id@,
        ).blacklist_reason),
{
    match participants.get(id) {
        Some(p) => {
            if p.blacklisted {
                BlacklistStatus::Blacklisted(clone_opt_string(&p.blacklist_reason))
            } else {
                BlacklistStatus::NotBlacklisted
            }
        },
        None => BlacklistStatus::NotFound,
    }
}

/// Set a known participant's strike count to zero, touching nothing else —
/// an administrative override, independent of the appeal workflow.
pub fn reset_strikes(participants: &mut Registry, id: &str) -> (r: Result<(), ModerationError>)
    requires
        old(participants).wf(),
    ensures
        final(participants).wf(),
        !old(participants).contains_id(id@) ==> r == Err::<(), ModerationError>(
            ModerationError::NotFound,
        ) && *final(participants) == *old(participants),
        old(participants).contains_id(id@) ==> {
            &&& r is Ok
            &&& final(participants).contains_id(id@)
            &&& final(participants).get_spec(id@) == (Participant {
                strikes: 0,
                ..old(participants).get_spec(id@)
            })
            &&& (forall|x: Seq<char>|
                x != id@ ==> final(participants).contains_id(x) == old(participants).contains_id(
                    x,
                ))
            &&& (forall|x: Seq<char>|
                x != id@ && old(participants).contains_id(x) ==> final(participants).get_spec(x)
                    == old(participants).get_spec(x))
        },
{
    let found = match participants.get(id) {
        Some(p) => {
            let mut q = p.clone();
            q.strikes = 0;
            q
        },
        None => {
            return Err(ModerationError::NotFound);
        },
    };
    participants.upsert(found);
    Ok(())
}

/// Outcome of a direct appeal against a blacklist entry.
#[derive(Debug, Clone, Copy, PartialEq, Eq, Structural)]
pub enum ReinstatementOutcome {
    /// The participant was blacklisted and has been reinstated.
    Reinstated,
    /// The participant exists but is not blacklisted; nothing changed.
    NotBlacklisted,
    /// No record carries the id; nothing changed.
    NotFound,
}

/// Appeal a blacklist entry directly: a blacklisted participant is reinstated
/// on the spot, anyone else is left untouched.
#[allow(unused_variables)]
pub fn submit_appeal(participants: &mut Registry, id: &str, reason: &str) -> (r:
    ReinstatementOutcome)
    requires
        old(participants).wf(),
    ensures
        final(participants).wf(),
        !old(participants).contains_id(id@) ==> r == ReinstatementOutcome::NotFound
            && *final(participants) == *old(participants),
        old(participants).contains_id(id@) && !old(participants).get_spec(id@).blacklisted ==> r
            == ReinstatementOutcome::NotBlacklisted && *final(participants) == *old(participants),
        old(participants).contains_id(id@) && old(participants).get_spec(id@).blacklisted ==> {
            &&& r == ReinstatementOutcome::Reinstated
            &&& final(participants).contains_id(id@)
            &&& final(participants).get_spec(id@) == reinstated(old(participants).get_spec(id@))
            &&& (forall|x: Seq<char>|
                x != id@ ==> final(participants).contains_id(x) == old(participants).contains_id(
                    x,
                ))
            &&& (forall|x: Seq<char>|
                x != id@ && old(participants).contains_id(x) ==> final(participants).get_spec(x)
                    == old(participants).get_spec(x))
        },
{
    let cleared = match participants.get(id) {
        Some(p) => {
            if !p.blacklisted {
                return ReinstatementOutcome::NotBlacklisted;
            }
            let mut q = p.clone();
            q.blacklisted = false;
            q.strikes = 0;
            q.blacklist_reason = None;
            q
        },
        None => {
            return ReinstatementOutcome::NotFound;
        },
    };
    participants.upsert(cleared);
    ReinstatementOutcome::Reinstated
}

/// How a submission ended.
#[derive(Debug, Clone, Copy, PartialEq, Eq, Structural)]
pub enum SubmissionStatus {
    /// The attestation was evaluated and its verdict's consequences applied.
    Processed(Verdict),
    /// The participant is blacklisted; the attestation was never evaluated.
    RejectedBlacklisted,
}

/// One full submission: look the participant up (creating a fresh record on
/// first contact), reject a blacklisted participant outright, otherwise
/// evaluate the attestation, land the verdict's consequences on the record,
/// and append the audit entries. A malformed attestation is rejected before
/// evaluation: nothing is logged, no consequence lands, the registry keeps
/// its state.
pub fn process_submission(
    policy: &PolicyConfig,
    participants: &mut Registry,
    log: &mut Vec<ActionLog>,
    id: &str,
    attestation: &MultiAssetProofInput,
    now: u64,
) -> (r: Result<SubmissionStatus, ValidationError>)
    requires
        old(participants).wf(),
    ensures
        final(participants).wf(),
        old(participants).contains_id(id@) && old(participants).get_spec(id@).blacklisted ==> {
            &&& r == Ok::<SubmissionStatus, ValidationError>(SubmissionStatus::RejectedBlacklisted)
            &&& *final(participants) == *old(participants)
            &&& final(log)@.len() == old(log)@.len() + 1
            &&& final(log)@.subrange(0, old(log)@.len() as int) == old(log)@
            &&& log_entry_is(
                final(log)@.last(),
                id@,
                "attempted_action_while_blacklisted"@,
                now,
                None,
            )
        },
        !(old(participants).contains_id(id@) && old(participants).get_spec(id@).blacklisted)
            && attestation.sums_overflow() ==> {
            &&& r == Err::<SubmissionStatus, ValidationError>(ValidationError::SumOverflow)
            &&& *final(participants) == *old(participants)
            &&& final(log)@ == old(log)@
        },
        !(old(participants).contains_id(id@) && old(participants).get_spec(id@).blacklisted)
            && !attestation.sums_overflow() ==> {
            let v = attestation.spec_verdict();
            let strikes0 = if old(participants).contains_id(id@) {
                old(participants).get_spec(id@).strikes
            } else {
                0u8
            };
            let reputation0 = if old(participants).contains_id(id@) {
                old(participants).get_spec(id@).reputation as int
            } else {
                100
            };
            &&& r == Ok::<SubmissionStatus, ValidationError>(SubmissionStatus::Processed(v))
            &&& final(participants).contains_id(id@)
            &&& consequences_applied(
                final(participants).get_spec(id@),
                id@,
                strikes0,
                reputation0,
                *policy,
                v,
            )
            &&& (forall|x: Seq<char>|
                x != id@ ==> final(participants).contains_id(x) == old(participants).contains_id(
                    x,
                ))
            &&& (forall|x: Seq<char>|
                x != id@ && old(participants).contains_id(x) ==> final(participants).get_spec(x)
                    == old(participants).get_spec(x))
            &&& final(log)@.subrange(0, old(log)@.len() as int) == old(log)@
            &&& consequence_logs(
                final(log)@.subrange(old(log)@.len() as int, final(log)@.len() as int),
                id@,
                strikes0,
                *policy,
                v,
                now,
            )
        },
{
    let base: Participant = match participants.get(id) {
        Some(p) => {
            if p.blacklisted {
                log.push(
                    ActionLog {
                        participant_id: String::from_str(id),
                        action: String::from_str("attempted_action_while_blacklisted"),
                        timestamp: now,
                        details: None,
                    },
                );
                proof {
                    assert(log@.subrange(0, old(log)@.len() as int) =~= old(log)@);
                }
                return Ok(SubmissionStatus::RejectedBlacklisted);
            }
            p.clone()
        },
        None => fresh_participant(id),
    };
    let verdict = match evaluate_attestation(attestation) {
        Ok(v) => v,
        Err(e) => {
            return Err(e);
        },
    };
    let outcome = apply_verdict(policy, &base, verdict, now);
    let ModerationOutcome { participant: updated, logs: mut new_entries, accepted: _ } = outcome;
    let ghost appended = new_entries@;
    participants.upsert(updated);
    log.append(&mut new_entries);
    proof {
        assert(log@.subrange(0, old(log)@.len() as int) =~= old(log)@);
        assert(log@.subrange(old(log)@.len() as int, log@.len() as int) =~= appended);
    }
    Ok(SubmissionStatus::Processed(verdict))
}

} // verus!
