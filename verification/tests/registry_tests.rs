use nexus_host::moderation::Participant;
use nexus_host::registry::Registry;
use nexus_host::text::str_eq;

#[test]
fn get_or_create_starts_fresh() {
    let mut registry = Registry::new();
    assert!(registry.get("bank1").is_none());
    let p = registry.get_or_create("bank1");
    assert_eq!(p.id, "bank1");
    assert_eq!(p.strikes, 0);
    assert_eq!(p.reputation, 100);
    assert!(!p.blacklisted);
    assert!(p.blacklist_reason.is_none());
    assert!(p.last_action.is_none());
    assert!(registry.get("bank1").is_some());
}

#[test]
fn get_or_create_returns_the_stored_record() {
    let mut registry = Registry::new();
    registry.upsert(Participant {
        id: "bank1".to_string(),
        strikes: 2,
        reputation: 80,
        blacklisted: false,
        blacklist_reason: None,
        last_action: Some("threshold_fail".to_string()),
    });
    let p = registry.get_or_create("bank1");
    assert_eq!(p.strikes, 2);
    assert_eq!(p.reputation, 80);
    assert_eq!(p.last_action.as_deref(), Some("threshold_fail"));
}

#[test]
fn upsert_replaces_wholesale_and_keeps_others() {
    let mut registry = Registry::new();
    registry.get_or_create("bank1");
    registry.get_or_create("bank2");
    registry.upsert(Participant {
        id: "bank1".to_string(),
        strikes: 5,
        reputation: -20,
        blacklisted: true,
        blacklist_reason: Some("Too many insolvency proofs".to_string()),
        last_action: None,
    });
    let p1 = registry.get("bank1").unwrap();
    assert_eq!(p1.strikes, 5);
    assert_eq!(p1.reputation, -20);
    assert!(p1.blacklisted);
    let p2 = registry.get("bank2").unwrap();
    assert_eq!(p2.strikes, 0);
    assert_eq!(p2.reputation, 100);
    assert_eq!(registry.participants().len(), 2);
}

#[test]
fn export_lists_every_record() {
    let mut registry = Registry::new();
    registry.get_or_create("bank1");
    registry.get_or_create("bank2");
    let all = registry.participants();
    let mut ids: Vec<&str> = all.iter().map(|p| p.id.as_str()).collect();
    ids.sort();
    assert_eq!(ids, vec!["bank1", "bank2"]);
}

#[test]
fn character_comparison_agrees_with_equality() {
    assert!(str_eq("bankA", "bankA"));
    assert!(!str_eq("bankA", "bankB"));
    assert!(!str_eq("bank", "bankA"));
    assert!(str_eq("", ""));
    assert!(str_eq("Ω mega", "Ω mega"));
    assert!(!str_eq("Ω mega", "O mega"));
}
