//! Account-identifier well-formedness and memo text handling.

use axis_membership::account::AccountId;
use axis_membership::account::is_valid_account_str;
use axis_membership::text::join_with_slash;
use axis_membership::text::split_on_newlines;

#[test]
fn accepts_ordinary_accounts() {
    assert!(is_valid_account_str("alice.near"));
    assert!(is_valid_account_str("bob.near"));
    assert!(is_valid_account_str("relay.intear.near"));
    assert!(is_valid_account_str("a-b_c.d2"));
    assert!(is_valid_account_str("ab"));
    assert!(is_valid_account_str("0x123"));
}

#[test]
fn rejects_bad_lengths() {
    assert!(!is_valid_account_str(""));
    assert!(!is_valid_account_str("a"));
    let long = "a".repeat(64);
    assert!(is_valid_account_str(&long));
    let too_long = "a".repeat(65);
    assert!(!is_valid_account_str(&too_long));
}

#[test]
fn rejects_bad_characters() {
    assert!(!is_valid_account_str("Alice.near"));
    assert!(!is_valid_account_str("alice near"));
    assert!(!is_valid_account_str("alice@near"));
    assert!(!is_valid_account_str("not valid!"));
}

#[test]
fn rejects_misplaced_separators() {
    assert!(!is_valid_account_str(".alice"));
    assert!(!is_valid_account_str("alice."));
    assert!(!is_valid_account_str("-alice"));
    assert!(!is_valid_account_str("alice_"));
    assert!(!is_valid_account_str("a..b"));
    assert!(!is_valid_account_str("a-.b"));
    assert!(!is_valid_account_str("a__b"));
}

#[test]
fn parse_keeps_the_text() {
    let a = AccountId::parse("alice.near").expect("well-formed");
    assert_eq!(a.as_str(), "alice.near");
    assert_eq!(a.to_text(), "alice.near".to_string());
    assert!(AccountId::parse("Not Valid").is_none());
}

#[test]
fn account_equality() {
    let a = AccountId::parse("alice.near").unwrap();
    let b = AccountId::parse("alice.near").unwrap();
    let c = AccountId::parse("bob.near").unwrap();
    assert!(a.same_as(&b));
    assert!(!a.same_as(&c));
    assert!(a.text_is(&"alice.near".to_string()));
    assert!(!a.text_is(&"bob.near".to_string()));
}

#[test]
fn splits_on_newlines() {
    let parts = split_on_newlines("alice.near\nM\n30\nengineer\nemail@x.com");
    assert_eq!(
        parts,
        vec![
            "alice.near".to_string(),
            "M".to_string(),
            "30".to_string(),
            "engineer".to_string(),
            "email@x.com".to_string(),
        ]
    );
}

#[test]
fn split_edge_cases() {
    assert_eq!(split_on_newlines(""), vec!["".to_string()]);
    assert_eq!(split_on_newlines("a"), vec!["a".to_string()]);
    assert_eq!(split_on_newlines("a\n"), vec!["a".to_string(), "".to_string()]);
    assert_eq!(
        split_on_newlines("\na"),
        vec!["".to_string(), "a".to_string()]
    );
    assert_eq!(
        split_on_newlines("a\n\nb"),
        vec!["a".to_string(), "".to_string(), "b".to_string()]
    );
}

#[test]
fn joins_with_slash() {
    let parts = vec!["a".to_string(), "b".to_string(), "c".to_string()];
    assert_eq!(join_with_slash(&parts), "a/b/c".to_string());
    assert_eq!(join_with_slash(&vec![]), "".to_string());
    assert_eq!(join_with_slash(&vec!["x".to_string()]), "x".to_string());
}

#[test]
fn split_then_join_swaps_the_separator() {
    let joined = join_with_slash(&split_on_newlines("a\nb\nc\nd\ne"));
    assert_eq!(joined, "a/b/c/d/e".to_string());
}
