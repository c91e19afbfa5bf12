//! The storage-deposit ledger around the sponsored-mint path.

use axis_membership::account::AccountId;
use axis_membership::contract::Contract;

fn account(s: &str) -> AccountId {
    AccountId::parse(s).expect("well-formed account")
}

#[test]
fn fresh_contract_is_empty() {
    let c = Contract::new();
    assert_eq!(c.total_supply(), 0);
    assert!(c.nft_tokens_for_owner(&account("alice.near")).is_empty());
    assert!(c.nft_token_metadata(&"alice.near".to_string()).is_none());
    assert!(c.storage_balance_of(&account("alice.near")).is_none());
    assert_eq!(c.contract_metadata().name, "".to_string());
    assert_eq!(c.contract_metadata().symbol, "".to_string());
    assert!(c.contract_metadata().icon.is_none());
}

#[test]
fn registering_twice_changes_nothing() {
    let mut c = Contract::new();
    c.register_storage_account(&account("eve.near"));
    assert_eq!(c.storage_balance_of(&account("eve.near")), Some(0));
    c.register_storage_account(&account("eve.near"));
    assert_eq!(c.storage_balance_of(&account("eve.near")), Some(0));
    assert!(c.storage_balance_of(&account("frank.near")).is_none());
}

#[test]
fn deposits_accumulate() {
    let mut c = Contract::new();
    c.register_storage_account(&account("eve.near"));
    let relay = || account("relay.intear.near");
    c.mint(account("alice.near"), "nobody.near\nF\n1\npriest\nx@y.z".to_string(), 7)
        .expect("bootstrap mint");
    c.mint_for(
        relay(),
        account("eve.near"),
        "alice.near\nF\n25\nnun\ne@x.com".to_string(),
        40,
        7,
    )
    .expect("sponsored mint");
    assert_eq!(c.storage_balance_of(&account("eve.near")), Some(40));
    // A later sponsored mint for the same receiver fails on the duplicate
    // token id, and the fresh deposit is rolled back with it.
    let r = c.mint_for(
        relay(),
        account("eve.near"),
        "alice.near\nF\n25\nnun\ne@x.com".to_string(),
        2,
        7,
    );
    assert!(r.is_err());
    assert_eq!(c.storage_balance_of(&account("eve.near")), Some(40));
}
