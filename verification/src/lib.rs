//! Issuance rules for non-transferrable, identity-bound membership tokens.
//!
//! A token may only be minted when the request names an existing token
//! holder as referrer (except for the very first token, which bootstraps
//! the referral chain), and every token's identifier equals the textual
//! form of its owner's account. Token metadata is derived
//! deterministically from the minting inputs and the block time.

pub mod account;
pub mod contract;
pub mod error;
pub mod laws;
pub mod metadata;
pub mod text;
pub mod validator;
