//! Per-token metadata and its deterministic derivation, and the
//! contract-level collection metadata.

use vstd::prelude::*;
use vstd::string::StringExecFns;

use crate::account::AccountId;
use crate::text::join_char;

verus! {

/// The immutable descriptive record of one token. Derived once when the
/// token is minted; no update path exists.
pub struct TokenMetadata {
    pub title: Option<String>,
    pub description: Option<String>,
    pub media: Option<String>,
    /// Milliseconds since the epoch.
    pub issued_at: Option<u64>,
    /// Milliseconds since the epoch.
    pub starts_at: Option<u64>,
}

/// The mathematical shape of a [`TokenMetadata`] record.
pub struct TokenMetadataView {
    pub title: Option<Seq<char>>,
    pub description: Option<Seq<char>>,
    pub media: Option<Seq<char>>,
    pub issued_at: Option<u64>,
    pub starts_at: Option<u64>,
}

/// The view of an optional piece of text.
pub open spec fn opt_text_view(o: Option<String>) -> Option<Seq<char>> {
    match o {
        Some(s) => Some(s@),
        None => None,
    }
}

impl View for TokenMetadata {
    type V = TokenMetadataView;

    open spec fn view(&self) -> TokenMetadataView {
        TokenMetadataView {
            title: opt_text_view(self.title),
            description: opt_text_view(self.description),
            media: opt_text_view(self.media),
            issued_at: self.issued_at,
            starts_at: self.starts_at,
        }
    }
}

/// Clones an optional piece of text, preserving its view.
pub fn clone_opt_text(o: &Option<String>) -> (r: Option<String>)
    ensures
        opt_text_view(r) == opt_text_view(*o),
{
    match o {
        Some(s) => Some(s.clone()),
        None => None,
    }
}

impl Clone for TokenMetadata {
    fn clone(&self) -> (r: Self)
        ensures
            r@ == self@,
    {
        TokenMetadata {
            title: clone_opt_text(&self.title),
            description: clone_opt_text(&self.description),
            media: clone_opt_text(&self.media),
            issued_at: self.issued_at,
            starts_at: self.starts_at,
        }
    }
}

/// The title of a token's record: a fixed template around the token id.
pub open spec fn title_text(token_id: Seq<char>) -> Seq<char> {
    "Axis Church Follower ID: "@ + token_id
}

/// The description of a token's record: a fixed template around the
/// token id and the referrer.
pub open spec fn description_text(token_id: Seq<char>, referrer: Seq<char>) -> Seq<char> {
    "An official Axis Church identification document of "@ + token_id + ". Referred by "@
        + referrer
}

/// The media URI of a token's record: a fixed base, the token id, and
/// every memo field as one path segment each.
pub open spec fn media_text(token_id: Seq<char>, fields: Seq<Seq<char>>) -> Seq<char> {
    "https://aqua.church/"@ + token_id + "/"@ + join_char(fields, '/')
}

/// A block time in nanoseconds truncated to milliseconds.
pub open spec fn millis_of(block_timestamp_ns: u64) -> u64 {
    (block_timestamp_ns / 1_000_000) as u64
}

/// The record derived for a mint of `token_id` referred by `referrer`,
/// with the memo's `fields` and the block time of the minting call.
pub open spec fn derived_metadata_view(
    token_id: Seq<char>,
    referrer: Seq<char>,
    fields: Seq<Seq<char>>,
    block_timestamp_ns: u64,
) -> TokenMetadataView {
    TokenMetadataView {
        title: Some(title_text(token_id)),
        description: Some(description_text(token_id, referrer)),
        media: Some(media_text(token_id, fields)),
        issued_at: Some(millis_of(block_timestamp_ns)),
        starts_at: Some(millis_of(block_timestamp_ns)),
    }
}

/// Builds the metadata record of a token deterministically from the
/// validated inputs and the block time of the call.
pub fn derive_metadata(
    token_id: &AccountId,
    referrer: &AccountId,
    fields: &Vec<String>,
    block_timestamp_ns: u64,
) -> (m: TokenMetadata)
    ensures
        m@ == derived_metadata_view(token_id@, referrer@, fields.deep_view(), block_timestamp_ns),
{
    let title = String::from_str("Axis Church Follower ID: ").concat(token_id.as_str());
    let description = String::from_str("An official Axis Church identification document of ")
        .concat(token_id.as_str())
        .concat(". Referred by ")
        .concat(referrer.as_str());
    let media = String::from_str("https://aqua.church/")
        .concat(token_id.as_str())
        .concat("/")
        .concat(crate::text::join_with_slash(fields).as_str());
    let ms = block_timestamp_ns / 1_000_000;
    TokenMetadata {
        title: Some(title),
        description: Some(description),
        media: Some(media),
        issued_at: Some(ms),
        starts_at: Some(ms),
    }
}

/// The contract-level collection metadata: a plain record replaced as a
/// whole by [`crate::contract::Contract::update_metadata`].
pub struct ContractMetadata {
    pub name: String,
    pub symbol: String,
    pub icon: Option<String>,
}

/// The mathematical shape of a [`ContractMetadata`] record.
pub struct ContractMetadataView {
    pub name: Seq<char>,
    pub symbol: Seq<char>,
    pub icon: Option<Seq<char>>,
}

impl View for ContractMetadata {
    type V = ContractMetadataView;

    open spec fn view(&self) -> ContractMetadataView {
        ContractMetadataView {
            name: self.name@,
            symbol: self.symbol@,
            icon: opt_text_view(self.icon),
        }
    }
}

impl Clone for ContractMetadata {
    fn clone(&self) -> (r: Self)
        ensures
            r@ == self@,
    {
        ContractMetadata {
            name: self.name.clone(),
            symbol: self.symbol.clone(),
            icon: clone_opt_text(&self.icon),
        }
    }
}

} // verus!
