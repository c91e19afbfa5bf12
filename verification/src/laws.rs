//! The laws of the issuance rules, stated and proved once and for all.
//!
//! What a rejected call leaves unchanged, and that a transfer is always
//! rejected, are stated directly in the contracts of
//! [`crate::contract::Contract::mint`],
//! [`crate::contract::Contract::mint_for`] and
//! [`crate::contract::Contract::transfer`].

use vstd::prelude::*;

use crate::account::is_valid_account_seq;
use crate::contract::ContractView;
use crate::contract::TokenView;
use crate::contract::has_token;
use crate::contract::mint_for_outcome;
use crate::contract::mint_outcome;
use crate::contract::minted_token;
use crate::contract::owns_token;
use crate::contract::relay_account;
use crate::contract::wf_tokens;
use crate::error::AbortReason;
use crate::metadata::derived_metadata_view;
use crate::metadata::millis_of;
use crate::validator::MintRequestView;
use crate::validator::memo_fields;
use crate::validator::request_error;
use crate::validator::self_mint_request;
use crate::validator::the_memo;

verus! {

/// Bootstrap: while no token exists, a self-mint whose memo has at least
/// five fields and whose first field is any well-formed account
/// identifier is accepted — whether or not that account owns a token.
pub proof fn lemma_bootstrap_mint_accepted(caller: Seq<char>, memo: Seq<char>)
    requires
        is_valid_account_seq(caller),
        memo_fields(memo).len() >= 5,
        is_valid_account_seq(memo_fields(memo)[0]),
    ensures
        mint_outcome(Seq::<TokenView>::empty(), self_mint_request(caller, memo)) is None,
{
}

/// Referral requirement: once any token exists, a request that passes
/// the request checks and asks for a token id not yet taken is accepted
/// exactly when the referrer its memo names owns a token.
pub proof fn lemma_referral_required(tokens: Seq<TokenView>, req: MintRequestView)
    requires
        tokens.len() > 0,
        request_error(req) is None,
        !has_token(tokens, req.receiver_id),
    ensures
        (mint_outcome(tokens, req) is None) == owns_token(
            tokens,
            memo_fields(the_memo(req))[0],
        ),
        !owns_token(tokens, memo_fields(the_memo(req))[0]) ==> mint_outcome(tokens, req)
            == Some(AbortReason::ReferrerNotFound),
{
}

/// Token id / owner binding: in a well-formed ledger every token's id is
/// the textual form of its owner's account, and a successful mint only
/// ever appends such a token.
pub proof fn lemma_token_id_owner_binding(
    tokens: Seq<TokenView>,
    receiver: Seq<char>,
    memo: Seq<char>,
    block_timestamp_ns: u64,
)
    requires
        wf_tokens(tokens),
    ensures
        forall|i: int|
            0 <= i < tokens.len() ==> (#[trigger] tokens[i]).token_id == tokens[i].owner,
        minted_token(receiver, memo, block_timestamp_ns).token_id == minted_token(
            receiver,
            memo,
            block_timestamp_ns,
        ).owner,
{
}

/// Metadata determinism: identical token id, referrer and memo fields
/// give records that agree everywhere but in the timestamps, which
/// reflect each call's own block time; identical block times give the
/// identical record.
pub proof fn lemma_metadata_determinism(
    token_id: Seq<char>,
    referrer: Seq<char>,
    fields: Seq<Seq<char>>,
    ts1: u64,
    ts2: u64,
)
    ensures
        derived_metadata_view(token_id, referrer, fields, ts1).title == derived_metadata_view(
            token_id,
            referrer,
            fields,
            ts2,
        ).title,
        derived_metadata_view(token_id, referrer, fields, ts1).description
            == derived_metadata_view(token_id, referrer, fields, ts2).description,
        derived_metadata_view(token_id, referrer, fields, ts1).media == derived_metadata_view(
            token_id,
            referrer,
            fields,
            ts2,
        ).media,
        derived_metadata_view(token_id, referrer, fields, ts1).issued_at == Some(millis_of(ts1)),
        derived_metadata_view(token_id, referrer, fields, ts1).starts_at == Some(millis_of(ts1)),
        ts1 == ts2 ==> derived_metadata_view(token_id, referrer, fields, ts1)
            == derived_metadata_view(token_id, referrer, fields, ts2),
{
}

/// Sponsored-mint authorization: any caller other than the fixed relayer
/// is rejected as unauthorized, whatever the rest of the request.
pub proof fn lemma_sponsored_mint_authorization(
    c: ContractView,
    caller: Seq<char>,
    receiver: Seq<char>,
    memo: Seq<char>,
    deposit: u128,
)
    requires
        caller != relay_account(),
    ensures
        mint_for_outcome(c, caller, receiver, memo, deposit) == Some(AbortReason::Unauthorized),
{
}

} // verus!
