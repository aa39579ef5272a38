use attestation::registry::NonceRegistry;

#[test]
fn issued_nonce_is_consumed_once() {
    let mut registry = NonceRegistry::new();
    let nonce = registry.issue();
    assert!(registry.is_outstanding(&nonce));
    assert!(registry.consume(&nonce));
    assert!(!registry.is_outstanding(&nonce));
    assert!(!registry.consume(&nonce));
}

#[test]
fn never_issued_value_is_not_consumed() {
    let mut registry = NonceRegistry::new();
    assert!(!registry.consume("never-issued"));
    let nonce = registry.issue();
    assert!(!registry.consume("never-issued"));
    assert!(!registry.consume(""));
    assert!(registry.is_outstanding(&nonce));
}

#[test]
fn two_consumes_of_one_nonce_have_one_winner() {
    let mut registry = NonceRegistry::new();
    let nonce = registry.issue();
    let first = registry.consume(&nonce);
    let second = registry.consume(&nonce);
    assert!(first);
    assert!(!second);
    assert_eq!([first, second].iter().filter(|won| **won).count(), 1);
}

#[test]
fn issued_nonces_are_distinct_identifiers() {
    let mut registry = NonceRegistry::new();
    let first = registry.issue();
    let second = registry.issue();
    assert_ne!(first, second);
    assert_eq!(first.chars().count(), 36);
    assert_eq!(second.chars().count(), 36);
    for (place, c) in first.chars().enumerate() {
        if place == 8 || place == 13 || place == 18 || place == 23 {
            assert_eq!(c, '-');
        } else {
            assert!(c.is_ascii_hexdigit());
        }
    }
    assert!(registry.is_outstanding(&first));
    assert!(registry.is_outstanding(&second));
}

#[test]
fn register_takes_a_value_in_once() {
    let mut registry = NonceRegistry::new();
    assert!(registry.register("chosen".to_string()));
    assert!(!registry.register("chosen".to_string()));
    assert!(registry.is_outstanding("chosen"));
    assert!(registry.consume("chosen"));
    assert!(!registry.consume("chosen"));
    assert!(registry.register("chosen".to_string()));
}

#[test]
fn consuming_one_nonce_leaves_the_others() {
    let mut registry = NonceRegistry::new();
    let first = registry.issue();
    let second = registry.issue();
    assert!(registry.consume(&first));
    assert!(registry.is_outstanding(&second));
    assert!(registry.consume(&second));
}

#[test]
fn new_registry_holds_nothing() {
    let registry = NonceRegistry::new();
    assert!(!registry.is_outstanding(""));
    assert!(!registry.is_outstanding("00000000-0000-4000-8000-000000000000"));
}

#[test]
fn new_candidate_is_issued_as_it_is() {
    let mut registry = NonceRegistry::new();
    assert_eq!(registry.issue_from("seed".to_string()), "seed");
    assert!(registry.is_outstanding("seed"));
    assert!(registry.consume("seed"));
    assert_eq!(registry.issue_from("seed".to_string()), "seed");
}

#[test]
fn outstanding_candidate_is_issued_longer() {
    let mut registry = NonceRegistry::new();
    assert!(registry.register("seed".to_string()));
    let nonce = registry.issue_from("seed".to_string());
    assert_ne!(nonce, "seed");
    assert!(nonce.starts_with("seed"));
    assert_eq!(nonce.chars().count(), 4 + 36);
    assert!(registry.is_outstanding("seed"));
    assert!(registry.is_outstanding(&nonce));
    assert!(registry.consume(&nonce));
    assert!(registry.consume("seed"));
    assert!(!registry.consume(&nonce));
}

#[test]
fn count_follows_issue_and_consume() {
    let mut registry = NonceRegistry::new();
    assert_eq!(registry.len(), 0);
    assert!(registry.is_empty());
    let first = registry.issue();
    assert_eq!(registry.len(), 1);
    assert!(!registry.is_empty());
    let second = registry.issue();
    assert_eq!(registry.len(), 2);
    assert!(!registry.register(first.clone()));
    assert_eq!(registry.len(), 2);
    assert!(!registry.consume("never-issued"));
    assert_eq!(registry.len(), 2);
    assert!(registry.consume(&first));
    assert_eq!(registry.len(), 1);
    assert!(!registry.consume(&first));
    assert_eq!(registry.len(), 1);
    assert!(registry.consume(&second));
    assert_eq!(registry.len(), 0);
    assert!(registry.is_empty());
}
