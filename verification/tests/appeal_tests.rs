use nexus_host::appeals::{enqueue_appeal, review_appeal, submit_appeal_queue, Appeal};
use nexus_host::moderation::{ModerationError, Participant};
use nexus_host::registry::Registry;

fn barred(id: &str) -> Participant {
    Participant {
        id: id.to_string(),
        strikes: 3,
        reputation: 40,
        blacklisted: true,
        blacklist_reason: Some("Too many threshold failures".to_string()),
        last_action: None,
    }
}

#[test]
fn enqueue_records_every_field() {
    let mut appeals: Vec<Appeal> = Vec::new();
    enqueue_appeal(&mut appeals, "bank1", "We fixed our process", 1700000000);
    assert_eq!(appeals.len(), 1);
    assert_eq!(appeals[0].participant_id, "bank1");
    assert_eq!(appeals[0].reason, "We fixed our process");
    assert_eq!(appeals[0].timestamp, 1700000000);
    assert!(!appeals[0].reviewed);
    assert!(!appeals[0].approved);
}

#[test]
fn queueing_stamps_the_clock_and_keeps_order() {
    let mut appeals: Vec<Appeal> = Vec::new();
    enqueue_appeal(&mut appeals, "first", "a", 1);
    submit_appeal_queue(&mut appeals, "second", "b");
    assert_eq!(appeals.len(), 2);
    assert_eq!(appeals[0].participant_id, "first");
    assert_eq!(appeals[1].participant_id, "second");
    assert_eq!(appeals[1].reason, "b");
    assert!(!appeals[1].reviewed);
    assert!(!appeals[1].approved);
}

#[test]
fn review_out_of_range_fails_without_mutation() {
    let mut appeals: Vec<Appeal> = Vec::new();
    let mut participants = Registry::new();
    participants.upsert(barred("bank1"));
    assert_eq!(
        review_appeal(&mut appeals, &mut participants, 0, true),
        Err(ModerationError::IndexOutOfRange)
    );
    assert!(participants.get("bank1").unwrap().blacklisted);
}

#[test]
fn approved_review_reinstates() {
    let mut appeals: Vec<Appeal> = Vec::new();
    let mut participants = Registry::new();
    participants.upsert(barred("bank1"));
    enqueue_appeal(&mut appeals, "bank1", "We fixed our process", 5);
    review_appeal(&mut appeals, &mut participants, 0, true).expect("index in range");
    assert!(appeals[0].reviewed);
    assert!(appeals[0].approved);
    let p = participants.get("bank1").unwrap();
    assert!(!p.blacklisted);
    assert_eq!(p.strikes, 0);
    assert!(p.blacklist_reason.is_none());
    assert_eq!(p.reputation, 40);
}

#[test]
fn rejected_review_marks_the_appeal_only() {
    let mut appeals: Vec<Appeal> = Vec::new();
    let mut participants = Registry::new();
    participants.upsert(barred("bank1"));
    enqueue_appeal(&mut appeals, "bank1", "We fixed our process", 5);
    review_appeal(&mut appeals, &mut participants, 0, false).expect("index in range");
    assert!(appeals[0].reviewed);
    assert!(!appeals[0].approved);
    assert!(participants.get("bank1").unwrap().blacklisted);
}

#[test]
fn approval_for_a_missing_participant_still_marks_the_appeal() {
    let mut appeals: Vec<Appeal> = Vec::new();
    let mut participants = Registry::new();
    enqueue_appeal(&mut appeals, "ghost", "hello", 5);
    review_appeal(&mut appeals, &mut participants, 0, true).expect("index in range");
    assert!(appeals[0].reviewed);
    assert!(appeals[0].approved);
    assert!(participants.get("ghost").is_none());
}

#[test]
fn repeated_approval_changes_nothing_more() {
    let mut appeals: Vec<Appeal> = Vec::new();
    let mut participants = Registry::new();
    participants.upsert(barred("bank1"));
    enqueue_appeal(&mut appeals, "bank1", "We fixed our process", 5);
    review_appeal(&mut appeals, &mut participants, 0, true).expect("index in range");
    let first = participants.get("bank1").unwrap().clone();
    review_appeal(&mut appeals, &mut participants, 0, true).expect("index in range");
    let second = participants.get("bank1").unwrap();
    assert!(appeals[0].reviewed);
    assert_eq!(second.strikes, first.strikes);
    assert_eq!(second.strikes, 0);
    assert_eq!(second.blacklisted, first.blacklisted);
    assert!(!second.blacklisted);
    assert_eq!(second.reputation, first.reputation);
}
