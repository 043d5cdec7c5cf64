//! The appeal workflow: an ordered queue of reinstatement requests, reviewed
//! by hand; approval reinstates the referenced participant.

use vstd::prelude::*;
use vstd::string::*;
use crate::moderation::{reinstated, ModerationError};
use crate::registry::Registry;

verus! {

/// A request to reverse a blacklist decision. Created unreviewed; the review
/// operation marks it reviewed, approved or not.
#[derive(Debug)]
pub struct Appeal {
    pub participant_id: String,
    pub reason: String,
    pub timestamp: i64,
    pub reviewed: bool,
    pub approved: bool,
}

impl Clone for Appeal {
    fn clone(&self) -> (r: Appeal)
        ensures
            r == *self,
    {
        Appeal {
            participant_id: self.participant_id.clone(),
            reason: self.reason.clone(),
            timestamp: self.timestamp,
            reviewed: self.reviewed,
            approved: self.approved,
        }
    }
}

/// Enqueue an appeal at a given time. Always enqueues: nothing checks that
/// the participant exists or is blacklisted. The queue position is the index
/// of insertion.
pub fn enqueue_appeal(appeals: &mut Vec<Appeal>, id: &str, reason: &str, now: i64)
    ensures
        final(appeals)@.len() == old(appeals)@.len() + 1,
        final(appeals)@.subrange(0, old(appeals)@.len() as int) == old(appeals)@,
        final(appeals)@.last().participant_id@ == id@,
        final(appeals)@.last().reason@ == reason@,
        final(appeals)@.last().timestamp == now,
        !final(appeals)@.last().reviewed,
        !final(appeals)@.last().approved,
{
    appeals.push(
        Appeal {
            participant_id: String::from_str(id),
            reason: String::from_str(reason),
            timestamp: now,
            reviewed: false,
            approved: false,
        },
    );
    proof {
        assert(appeals@.subrange(0, old(appeals)@.len() as int) =~= old(appeals)@);
    }
}

/// Relies on chrono's `Utc::now` and `DateTime::timestamp` for the current
/// Unix timestamp. Nothing is assumed about the returned value.
#[verifier::external_body]
fn now_timestamp() -> i64 {
    chrono::Utc::now().timestamp()
}

/// Enqueue an appeal stamped with the current wall-clock time. The stamp is
/// whatever the clock reported; everything else is as `enqueue_appeal` says.
pub fn submit_appeal_queue(appeals: &mut Vec<Appeal>, id: &str, reason: &str)
    ensures
        final(appeals)@.len() == old(appeals)@.len() + 1,
        final(appeals)@.subrange(0, old(appeals)@.len() as int) == old(appeals)@,
        final(appeals)@.last().participant_id@ == id@,
        final(appeals)@.last().reason@ == reason@,
        !final(appeals)@.last().reviewed,
        !final(appeals)@.last().approved,
{
    let now = now_timestamp();
    enqueue_appeal(appeals, id, reason, now);
}

/// Review the appeal at a queue index. An index outside the queue fails
/// without any mutation. Otherwise the entry is marked reviewed with the
/// given decision; on approval, a participant the registry still knows is
/// reinstated — blacklist lifted, strikes cleared.
pub fn review_appeal(
    appeals: &mut Vec<Appeal>,
    participants: &mut Registry,
    idx: usize,
    approve: bool,
) -> (r: Result<(), ModerationError>)
    requires
        old(participants).wf(),
    ensures
        final(participants).wf(),
        idx >= old(appeals)@.len() ==> r == Err::<(), ModerationError>(
            ModerationError::IndexOutOfRange,
        ) && final(appeals)@ == old(appeals)@ && *final(participants) == *old(participants),
        idx < old(appeals)@.len() ==> {
            &&& r is Ok
            &&& final(appeals)@.len() == old(appeals)@.len()
            &&& final(appeals)@[idx as int] == (Appeal {
                reviewed: true,
                approved: approve,
                ..old(appeals)@[idx as int]
            })
            &&& (forall|j: int|
                0 <= j < old(appeals)@.len() && j != idx
                    ==> final(appeals)@[j] == old(appeals)@[j])
            &&& {
                let aid = old(appeals)@[idx as int].participant_id@;
                if approve && old(participants).contains_id(aid) {
                    &&& final(participants).contains_id(aid)
                    &&& final(participants).get_spec(aid) == reinstated(
                        old(participants).get_spec(aid),
                    )
                    &&& (forall|x: Seq<char>|
                        x != aid ==> final(participants).contains_id(x)
                            == old(participants).contains_id(x))
                    &&& (forall|x: Seq<char>|
                        x != aid && old(participants).contains_id(x)
                            ==> final(participants).get_spec(x) == old(participants).get_spec(x))
                } else {
                    *final(participants) == *old(participants)
                }
            }
        },
{
    if idx >= appeals.len() {
        return Err(ModerationError::IndexOutOfRange);
    }
    let marked = Appeal {
        participant_id: appeals[idx].participant_id.clone(),
        reason: appeals[idx].reason.clone(),
        timestamp: appeals[idx].timestamp,
        reviewed: true,
        approved: approve,
    };
    appeals[idx] = marked;
    if approve {
        let cleared = match participants.get(appeals[idx].participant_id.as_str()) {
            Some(p) => {
                let mut q = p.clone();
                q.blacklisted = false;
                q.strikes = 0;
                q.blacklist_reason = None;
                q
            },
            None => {
                return Ok(());
            },
        };
        participants.upsert(cleared);
    }
    Ok(())
}

} // verus!
