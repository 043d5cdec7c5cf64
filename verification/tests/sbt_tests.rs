use nexus_host::sbt::SBTRegistry;

#[test]
fn issue_then_has() {
    let mut registry = SBTRegistry::new();
    assert!(!registry.has("alice", "kyc"));
    registry.issue("alice".to_string(), "kyc".to_string(), "bankA".to_string());
    assert!(registry.has("alice", "kyc"));
    assert!(!registry.has("alice", "aml"));
    assert!(!registry.has("bob", "kyc"));
}

#[test]
fn tokens_for_filters_by_user_in_order() {
    let mut registry = SBTRegistry::new();
    registry.issue("alice".to_string(), "kyc".to_string(), "bankA".to_string());
    registry.issue("bob".to_string(), "kyc".to_string(), "bankA".to_string());
    registry.issue("alice".to_string(), "aml".to_string(), "bankB".to_string());
    let alice = registry.tokens_for("alice");
    assert_eq!(alice.len(), 2);
    assert_eq!(alice[0].attribute, "kyc");
    assert_eq!(alice[0].issuer, "bankA");
    assert_eq!(alice[1].attribute, "aml");
    assert_eq!(alice[1].issuer, "bankB");
    assert!(registry.tokens_for("carol").is_empty());
    assert_eq!(registry.tokens().len(), 3);
}

#[test]
fn same_attribute_from_two_issuers() {
    let mut registry = SBTRegistry::new();
    registry.issue("alice".to_string(), "kyc".to_string(), "bankA".to_string());
    registry.issue("alice".to_string(), "kyc".to_string(), "bankB".to_string());
    assert!(registry.has("alice", "kyc"));
    assert_eq!(registry.tokens_for("alice").len(), 2);
}
