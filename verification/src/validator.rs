//! The mint validator and the transfer blocker.
//!
//! A mint request is admitted only when it asks for exactly one token,
//! the token id is the receiver's own account identifier, a memo is
//! present and splits into at least five newline-separated fields, the
//! first field names a well-formed account identifier (the referrer),
//! and — once any token exists — the referrer owns a token. A transfer
//! is never admitted.

use vstd::prelude::*;

use crate::account::AccountId;
use crate::account::is_valid_account_seq;
use crate::account::is_valid_account_str;
use crate::error::AbortReason;
use crate::text::split_char;
use crate::text::split_on_newlines;

verus! {

/// A transient mint request: the token ids asked for, the receiver, and
/// the memo carrying the referral and profile data.
pub struct MintRequest {
    pub token_ids: Vec<String>,
    pub receiver_id: AccountId,
    pub memo: Option<String>,
}

/// The mathematical shape of a [`MintRequest`].
pub struct MintRequestView {
    pub token_ids: Seq<Seq<char>>,
    pub receiver_id: Seq<char>,
    pub memo: Option<Seq<char>>,
}

impl View for MintRequest {
    type V = MintRequestView;

    open spec fn view(&self) -> MintRequestView {
        MintRequestView {
            token_ids: self.token_ids.deep_view(),
            receiver_id: self.receiver_id@,
            memo: crate::metadata::opt_text_view(self.memo),
        }
    }
}

/// The request a self-minting caller makes: one token, whose id is the
/// caller's own account, with the given memo.
pub open spec fn self_mint_request(account: Seq<char>, memo: Seq<char>) -> MintRequestView {
    MintRequestView { token_ids: seq![account], receiver_id: account, memo: Some(memo) }
}

/// The memo of a request, where one is present.
pub open spec fn the_memo(req: MintRequestView) -> Seq<char> {
    match req.memo {
        Some(m) => m,
        None => Seq::<char>::empty(),
    }
}

/// The newline-separated fields of a memo.
pub open spec fn memo_fields(memo: Seq<char>) -> Seq<Seq<char>> {
    split_char(memo, '\n')
}

/// The first reason, if any, for which the request itself — before any
/// look at the ledger — is rejected.
pub open spec fn request_error(req: MintRequestView) -> Option<AbortReason> {
    if req.token_ids.len() != 1 {
        Some(AbortReason::InvalidBatchSize)
    } else if !(is_valid_account_seq(req.token_ids[0]) && req.token_ids[0] == req.receiver_id) {
        Some(AbortReason::TokenIdMismatch)
    } else {
        match req.memo {
            None => Some(AbortReason::MissingMemo),
            Some(m) => {
                if memo_fields(m).len() < 5 {
                    Some(AbortReason::MalformedMemo)
                } else if !is_valid_account_seq(memo_fields(m)[0]) {
                    Some(AbortReason::InvalidReferrer)
                } else {
                    None
                }
            },
        }
    }
}

/// The referral-chain rule: once any token exists, the referrer must own
/// one; the very first mint is exempt and bootstraps the chain.
pub open spec fn referral_error(total_supply: nat, referrer_owns_token: bool) -> Option<
    AbortReason,
> {
    if total_supply > 0 && !referrer_owns_token {
        Some(AbortReason::ReferrerNotFound)
    } else {
        None
    }
}

/// A memo accepted by the validator: the referrer it names and all its
/// newline-separated fields, in order.
pub struct ReferralMemo {
    pub referrer: AccountId,
    pub fields: Vec<String>,
}

/// The interceptor that guards every mint with the referral rules.
pub struct ReferralHook;

impl ReferralHook {
    /// Checks the request itself: batch size, token id against receiver,
    /// memo presence, memo shape, and the referrer's well-formedness.
    /// Returns the parsed memo, or the first reason for rejection.
    pub fn validate(req: &MintRequest) -> (r: Result<ReferralMemo, AbortReason>)
        ensures
            r matches Err(e) ==> request_error(req@) == Some(e),
            r matches Ok(pm) ==> {
                &&& request_error(req@) is None
                &&& req@.memo is Some
                &&& pm.fields.deep_view() == memo_fields(the_memo(req@))
                &&& pm.referrer@ == memo_fields(the_memo(req@))[0]
            },
    {
        if req.token_ids.len() != 1 {
            return Err(AbortReason::InvalidBatchSize);
        }
        let token_id = &req.token_ids[0];
        if !is_valid_account_str(token_id.as_str()) || !req.receiver_id.text_is(token_id) {
            return Err(AbortReason::TokenIdMismatch);
        }
        match &req.memo {
            None => Err(AbortReason::MissingMemo),
            Some(memo) => {
                let fields = split_on_newlines(memo.as_str());
                if fields.len() < 5 {
                    return Err(AbortReason::MalformedMemo);
                }
                match AccountId::parse(fields[0].as_str()) {
                    None => Err(AbortReason::InvalidReferrer),
                    Some(referrer) => Ok(ReferralMemo { referrer, fields }),
                }
            },
        }
    }

    /// The referral-chain check against the ledger's state, handed in as
    /// the current total supply and whether the referrer owns a token.
    pub fn check_referral(total_supply: u64, referrer_owns_token: bool) -> (r: Result<
        (),
        AbortReason,
    >)
        ensures
            r matches Err(e) ==> referral_error(total_supply as nat, referrer_owns_token) == Some(
                e,
            ),
            r is Ok ==> referral_error(total_supply as nat, referrer_owns_token) is None,
    {
        if total_supply > 0 && !referrer_owns_token {
            Err(AbortReason::ReferrerNotFound)
        } else {
            Ok(())
        }
    }
}

/// The interceptor that rejects every transfer: tokens of this class are
/// bound to the account they were issued to.
pub struct NonTransferrableHook;

impl NonTransferrableHook {
    /// Intercepts a transfer attempt. Always rejects, whatever the
    /// sender, receiver or token.
    pub fn hook() -> (r: AbortReason)
        ensures
            r == AbortReason::NonTransferrable,
    {
        AbortReason::NonTransferrable
    }
}

} // verus!
