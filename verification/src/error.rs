//! The reasons for which a call aborts.

use vstd::prelude::*;

verus! {

/// Why a mint, deposit or transfer call was rejected. Every rejection
/// aborts the whole call: no state written earlier in the call survives.
#[derive(Clone, Copy, Debug, PartialEq, Eq, Structural)]
pub enum AbortReason {
    /// The request did not ask for exactly one token.
    InvalidBatchSize,
    /// The requested token id is not the receiver's account identifier.
    TokenIdMismatch,
    /// The request carried no memo.
    MissingMemo,
    /// The memo did not split into at least five newline-separated fields.
    MalformedMemo,
    /// The memo's first field is not a well-formed account identifier.
    InvalidReferrer,
    /// The supply is positive and the named referrer owns no token.
    ReferrerNotFound,
    /// A privileged entry point was called by an unprivileged account.
    Unauthorized,
    /// The receiver's storage balance could not be credited.
    DepositFailed,
    /// Tokens of this class can never be transferred.
    NonTransferrable,
    /// The ledger already holds a token with the requested id.
    DuplicateTokenId,
}

impl AbortReason {
    /// The human-readable abort message observed by a caller.
    pub fn message(&self) -> (r: String)
        ensures
            self is InvalidBatchSize ==> r@ == "Only one token can be minted"@,
            self is TokenIdMismatch ==> r@
                == "Invalid token ID. It should be an account ID of the receiver"@,
            self is MissingMemo ==> r@
                == "Memo is required. It should be the account ID of the referrer and other data"@,
            self is MalformedMemo ==> r@
                == "Invalid memo. It should contain 5 parts separated by new lines: Recruited by, gender, age, profession, contact details"@,
            self is InvalidReferrer ==> r@
                == "Invalid first part of the memo. It should be the account ID of the referrer"@,
            self is ReferrerNotFound ==> r@ == "Referrer does not own a token"@,
            self is Unauthorized ==> r@ == "Only the minter can mint for others"@,
            self is DepositFailed ==> r@ == "Deposit failed"@,
            self is NonTransferrable ==> r@ == "Token is non-transferrable"@,
            self is DuplicateTokenId ==> r@ == "Token ID already exists"@,
    {
        match self {
            AbortReason::InvalidBatchSize => "Only one token can be minted".to_owned(),
            AbortReason::TokenIdMismatch => "Invalid token ID. It should be an account ID of the receiver".to_owned(),
            AbortReason::MissingMemo => "Memo is required. It should be the account ID of the referrer and other data".to_owned(),
            AbortReason::MalformedMemo => "Invalid memo. It should contain 5 parts separated by new lines: Recruited by, gender, age, profession, contact details".to_owned(),
            AbortReason::InvalidReferrer => "Invalid first part of the memo. It should be the account ID of the referrer".to_owned(),
            AbortReason::ReferrerNotFound => "Referrer does not own a token".to_owned(),
            AbortReason::Unauthorized => "Only the minter can mint for others".to_owned(),
            AbortReason::DepositFailed => "Deposit failed".to_owned(),
            AbortReason::NonTransferrable => "Token is non-transferrable".to_owned(),
            AbortReason::DuplicateTokenId => "Token ID already exists".to_owned(),
        }
    }
}

} // verus!
