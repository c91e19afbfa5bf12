//! End-to-end mint, sponsored-mint and transfer scenarios against the
//! contract state machine.

use axis_membership::account::AccountId;
use axis_membership::contract::Contract;
use axis_membership::error::AbortReason;
use axis_membership::metadata::ContractMetadata;
use axis_membership::metadata::derive_metadata;

const TS: u64 = 1_700_000_000_123_456_789;

fn account(s: &str) -> AccountId {
    AccountId::parse(s).expect("well-formed account")
}

/// A contract where `alice.near` already owns a token.
fn with_alice() -> Contract {
    let mut c = Contract::new();
    c.mint(account("alice.near"), "nobody.near\nF\n1\npriest\nx@y.z".to_string(), TS)
        .expect("bootstrap mint");
    c
}

#[test]
fn first_mint_needs_no_owning_referrer() {
    // Bootstrap: the referrer owns nothing, the supply is zero.
    let mut c = Contract::new();
    let r = c.mint(
        account("alice.near"),
        "nobody.near\nF\n1\npriest\nx@y.z".to_string(),
        TS,
    );
    assert!(r.is_ok());
    assert_eq!(c.total_supply(), 1);
    assert_eq!(
        c.nft_tokens_for_owner(&account("alice.near")),
        vec!["alice.near".to_string()]
    );
}

#[test]
fn referred_mint_succeeds() {
    let mut c = with_alice();
    let r = c.mint(
        account("bob.near"),
        "alice.near\nM\n30\nengineer\nemail@x.com".to_string(),
        TS,
    );
    assert!(r.is_ok());
    assert_eq!(c.total_supply(), 2);
    assert_eq!(
        c.nft_tokens_for_owner(&account("bob.near")),
        vec!["bob.near".to_string()]
    );
    let m = c
        .nft_token_metadata(&"bob.near".to_string())
        .expect("token exists");
    assert_eq!(m.title, Some("Axis Church Follower ID: bob.near".to_string()));
    assert_eq!(
        m.description,
        Some(
            "An official Axis Church identification document of bob.near. Referred by alice.near"
                .to_string()
        )
    );
    assert_eq!(
        m.media,
        Some("https://aqua.church/bob.near/alice.near/M/30/engineer/email@x.com".to_string())
    );
    assert_eq!(m.issued_at, Some(TS / 1_000_000));
    assert_eq!(m.starts_at, Some(TS / 1_000_000));
}

#[test]
fn mint_rejected_when_referrer_owns_nothing() {
    let mut c = with_alice();
    let r = c.mint(
        account("carol.near"),
        "dave.near\nM\n30\nengineer\nemail@x.com".to_string(),
        TS,
    );
    assert_eq!(r.err(), Some(AbortReason::ReferrerNotFound));
    assert_eq!(c.total_supply(), 1);
    assert!(c.nft_tokens_for_owner(&account("carol.near")).is_empty());
}

#[test]
fn malformed_memo_changes_nothing() {
    let mut c = with_alice();
    let r = c.mint(account("bob.near"), "a\nb\nc".to_string(), TS);
    assert_eq!(r.err(), Some(AbortReason::MalformedMemo));
    assert_eq!(c.total_supply(), 1);
    assert!(c.nft_token_metadata(&"bob.near".to_string()).is_none());
}

#[test]
fn second_token_for_one_account_is_rejected() {
    let mut c = with_alice();
    let r = c.mint(
        account("alice.near"),
        "alice.near\nF\n2\npriest\nx@y.z".to_string(),
        TS,
    );
    assert_eq!(r.err(), Some(AbortReason::DuplicateTokenId));
    assert_eq!(c.total_supply(), 1);
}

#[test]
fn rejection_keeps_existing_metadata() {
    let mut c = with_alice();
    let before = c
        .nft_token_metadata(&"alice.near".to_string())
        .expect("token exists");
    let _ = c.mint(account("bob.near"), "a\nb\nc".to_string(), TS);
    let after = c
        .nft_token_metadata(&"alice.near".to_string())
        .expect("token exists");
    assert_eq!(before.title, after.title);
    assert_eq!(before.description, after.description);
    assert_eq!(before.media, after.media);
    assert_eq!(before.issued_at, after.issued_at);
    assert_eq!(before.starts_at, after.starts_at);
}

#[test]
fn timestamps_truncate_to_milliseconds() {
    let mut c = Contract::new();
    c.mint(account("alice.near"), "nobody.near\nF\n1\npriest\nx@y.z".to_string(), 1_999_999)
        .expect("bootstrap mint");
    let m = c
        .nft_token_metadata(&"alice.near".to_string())
        .expect("token exists");
    // 1,999,999 ns truncate to 1 ms: floor division, no rounding.
    assert_eq!(m.issued_at, Some(1));
    assert_eq!(m.starts_at, Some(1));
}

#[test]
fn metadata_is_deterministic() {
    let fields: Vec<String> = vec!["alice.near", "M", "30", "engineer", "email@x.com"]
        .into_iter()
        .map(|s| s.to_string())
        .collect();
    let a = derive_metadata(&account("bob.near"), &account("alice.near"), &fields, TS);
    let b = derive_metadata(&account("bob.near"), &account("alice.near"), &fields, TS);
    assert_eq!(a.title, b.title);
    assert_eq!(a.description, b.description);
    assert_eq!(a.media, b.media);
    assert_eq!(a.issued_at, b.issued_at);
    assert_eq!(a.starts_at, b.starts_at);
    // A different block time moves only the timestamps.
    let c = derive_metadata(&account("bob.near"), &account("alice.near"), &fields, TS + 2_000_000);
    assert_eq!(a.title, c.title);
    assert_eq!(a.description, c.description);
    assert_eq!(a.media, c.media);
    assert_ne!(a.issued_at, c.issued_at);
}

#[test]
fn transfer_is_always_rejected() {
    let mut c = with_alice();
    let r = c.transfer(
        &account("alice.near"),
        &account("bob.near"),
        &"alice.near".to_string(),
    );
    assert_eq!(r.err(), Some(AbortReason::NonTransferrable));
    assert_eq!(c.total_supply(), 1);
    assert_eq!(
        c.nft_tokens_for_owner(&account("alice.near")),
        vec!["alice.near".to_string()]
    );
    assert!(c.nft_tokens_for_owner(&account("bob.near")).is_empty());
}

#[test]
fn sponsored_mint_requires_the_relayer() {
    let mut c = with_alice();
    c.register_storage_account(&account("eve.near"));
    let r = c.mint_for(
        account("mallory.near"),
        account("eve.near"),
        "alice.near\nF\n25\nnun\ne@x.com".to_string(),
        10,
        TS,
    );
    assert_eq!(r.err(), Some(AbortReason::Unauthorized));
    assert_eq!(c.total_supply(), 1);
    assert_eq!(c.storage_balance_of(&account("eve.near")), Some(0));
}

#[test]
fn sponsored_mint_credits_and_mints() {
    let mut c = with_alice();
    c.register_storage_account(&account("eve.near"));
    let r = c.mint_for(
        account("relay.intear.near"),
        account("eve.near"),
        "alice.near\nF\n25\nnun\ne@x.com".to_string(),
        1_000_000_000_000,
        TS,
    );
    assert!(r.is_ok());
    assert_eq!(c.total_supply(), 2);
    assert_eq!(
        c.nft_tokens_for_owner(&account("eve.near")),
        vec!["eve.near".to_string()]
    );
    assert_eq!(
        c.storage_balance_of(&account("eve.near")),
        Some(1_000_000_000_000)
    );
}

#[test]
fn sponsored_mint_fails_without_storage_account() {
    let mut c = with_alice();
    let r = c.mint_for(
        account("relay.intear.near"),
        account("eve.near"),
        "alice.near\nF\n25\nnun\ne@x.com".to_string(),
        10,
        TS,
    );
    assert_eq!(r.err(), Some(AbortReason::DepositFailed));
    assert_eq!(c.total_supply(), 1);
}

#[test]
fn failed_sponsored_mint_keeps_the_deposit_untouched() {
    let mut c = with_alice();
    c.register_storage_account(&account("eve.near"));
    // The referrer named in the memo owns nothing: the mint aborts and
    // the earlier deposit step is rolled back with it.
    let r = c.mint_for(
        account("relay.intear.near"),
        account("eve.near"),
        "dave.near\nF\n25\nnun\ne@x.com".to_string(),
        10,
        TS,
    );
    assert_eq!(r.err(), Some(AbortReason::ReferrerNotFound));
    assert_eq!(c.total_supply(), 1);
    assert_eq!(c.storage_balance_of(&account("eve.near")), Some(0));
}

#[test]
fn update_metadata_replaces_the_record() {
    let mut c = with_alice();
    c.update_metadata(ContractMetadata {
        name: "Axis Church".to_string(),
        symbol: "AXIS".to_string(),
        icon: None,
    });
    let m = c.contract_metadata();
    assert_eq!(m.name, "Axis Church".to_string());
    assert_eq!(m.symbol, "AXIS".to_string());
    assert!(m.icon.is_none());
    assert_eq!(c.total_supply(), 1);
}
