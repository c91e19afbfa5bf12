//! The contract: one token ledger guarded by the referral rules.
//!
//! The ledger holds at most one token per account, and every token's id
//! is the textual form of its owner's account. A mint call runs the
//! validator, the referral check and the metadata derivation, and either
//! appends exactly one token or leaves the whole state unchanged. A
//! transfer call never changes anything.

use vstd::prelude::*;
use vstd::string::StringExecFns;

use crate::account::AccountId;
use crate::error::AbortReason;
use crate::metadata::ContractMetadata;
use crate::metadata::ContractMetadataView;
use crate::metadata::TokenMetadata;
use crate::metadata::TokenMetadataView;
use crate::metadata::derive_metadata;
use crate::metadata::derived_metadata_view;
use crate::validator::MintRequest;
use crate::validator::MintRequestView;
use crate::validator::ReferralHook;
use crate::validator::NonTransferrableHook;
use crate::validator::memo_fields;
use crate::validator::referral_error;
use crate::validator::request_error;
use crate::validator::self_mint_request;
use crate::validator::the_memo;

verus! {

/// One issued token: its id, its owner, and its immutable record.
pub struct Token {
    pub token_id: String,
    pub owner: AccountId,
    pub metadata: TokenMetadata,
}

/// The mathematical shape of a [`Token`].
pub struct TokenView {
    pub token_id: Seq<char>,
    pub owner: Seq<char>,
    pub metadata: TokenMetadataView,
}

impl View for Token {
    type V = TokenView;

    open spec fn view(&self) -> TokenView {
        TokenView { token_id: self.token_id@, owner: self.owner@, metadata: self.metadata@ }
    }
}

/// One account's storage-deposit balance.
pub struct StorageEntry {
    pub account: AccountId,
    pub balance: u128,
}

/// The mathematical shape of a [`StorageEntry`].
pub struct StorageEntryView {
    pub account: Seq<char>,
    pub balance: u128,
}

impl View for StorageEntry {
    type V = StorageEntryView;

    open spec fn view(&self) -> StorageEntryView {
        StorageEntryView { account: self.account@, balance: self.balance }
    }
}

/// Whether a token with the given id exists.
pub open spec fn has_token(tokens: Seq<TokenView>, token_id: Seq<char>) -> bool {
    exists|i: int| 0 <= i < tokens.len() && tokens[i].token_id == token_id
}

/// Whether the given account owns a token.
pub open spec fn owns_token(tokens: Seq<TokenView>, owner: Seq<char>) -> bool {
    exists|i: int| 0 <= i < tokens.len() && tokens[i].owner == owner
}

/// The ledger invariant: every token's id is its owner's account, and no
/// two tokens share an id.
pub open spec fn wf_tokens(tokens: Seq<TokenView>) -> bool {
    &&& forall|i: int| 0 <= i < tokens.len() ==> (#[trigger] tokens[i]).token_id == tokens[i].owner
    &&& forall|i: int, j: int|
        0 <= i < tokens.len() && 0 <= j < tokens.len() && i != j ==> (#[trigger] tokens[i]).token_id
            != (#[trigger] tokens[j]).token_id
}

/// The storage-ledger invariant: one entry per account.
pub open spec fn wf_storage(storage: Seq<StorageEntryView>) -> bool {
    forall|i: int, j: int|
        0 <= i < storage.len() && 0 <= j < storage.len() && i != j ==> (
        #[trigger] storage[i]).account != (#[trigger] storage[j]).account
}

/// Whether the given account has a storage entry.
pub open spec fn storage_has(storage: Seq<StorageEntryView>, account: Seq<char>) -> bool {
    exists|i: int| 0 <= i < storage.len() && storage[i].account == account
}

/// Whether the given account has a storage entry whose balance can take
/// `amount` more without overflowing.
pub open spec fn storage_can_credit(
    storage: Seq<StorageEntryView>,
    account: Seq<char>,
    amount: u128,
) -> bool {
    exists|i: int|
        0 <= i < storage.len() && storage[i].account == account && storage[i].balance + amount
            <= u128::MAX
}

/// The storage ledger after crediting `amount` to the given account.
pub open spec fn credited_storage(
    storage: Seq<StorageEntryView>,
    account: Seq<char>,
    amount: u128,
) -> Seq<StorageEntryView> {
    storage.map_values(
        |e: StorageEntryView|
            if e.account == account {
                StorageEntryView { account: e.account, balance: (e.balance + amount) as u128 }
            } else {
                e
            },
    )
}

/// The token a successful mint appends: its id and owner are the
/// receiver's account, its record is derived from the memo's fields and
/// the block time.
pub open spec fn minted_token(receiver: Seq<char>, memo: Seq<char>, block_timestamp_ns: u64) -> TokenView {
    TokenView {
        token_id: receiver,
        owner: receiver,
        metadata: derived_metadata_view(
            receiver,
            memo_fields(memo)[0],
            memo_fields(memo),
            block_timestamp_ns,
        ),
    }
}

/// The first reason, if any, for which a mint request is rejected
/// against the given ledger: the request checks, then the referral
/// chain, then the ledger's refusal of a duplicate id.
pub open spec fn mint_outcome(tokens: Seq<TokenView>, req: MintRequestView) -> Option<
    AbortReason,
> {
    match request_error(req) {
        Some(e) => Some(e),
        None => match referral_error(
            tokens.len(),
            owns_token(tokens, memo_fields(the_memo(req))[0]),
        ) {
            Some(e) => Some(e),
            None => if has_token(tokens, req.receiver_id) {
                Some(AbortReason::DuplicateTokenId)
            } else {
                None
            },
        },
    }
}

/// The privileged relayer account: the only caller admitted to the
/// sponsored-mint entry point.
pub open spec fn relay_account() -> Seq<char> {
    "relay.intear.near"@
}

/// The first reason, if any, for which a sponsored mint is rejected:
/// authorization, then the deposit credit, then the mint itself.
pub open spec fn mint_for_outcome(
    c: ContractView,
    caller: Seq<char>,
    receiver: Seq<char>,
    memo: Seq<char>,
    deposit: u128,
) -> Option<AbortReason> {
    if caller != relay_account() {
        Some(AbortReason::Unauthorized)
    } else if !storage_can_credit(c.storage, receiver, deposit) {
        Some(AbortReason::DepositFailed)
    } else {
        mint_outcome(c.tokens, self_mint_request(receiver, memo))
    }
}

/// The mathematical shape of the whole contract state.
pub struct ContractView {
    pub tokens: Seq<TokenView>,
    pub storage: Seq<StorageEntryView>,
    pub metadata: ContractMetadataView,
}

/// The contract state: the token ledger, the storage-deposit ledger and
/// the collection metadata.
pub struct Contract {
    tokens: Vec<Token>,
    storage: Vec<StorageEntry>,
    metadata: ContractMetadata,
}

impl View for Contract {
    type V = ContractView;

    closed spec fn view(&self) -> ContractView {
        ContractView {
            tokens: Seq::new(self.tokens@.len(), |i: int| self.tokens@[i]@),
            storage: Seq::new(self.storage@.len(), |i: int| self.storage@[i]@),
            metadata: self.metadata@,
        }
    }
}

impl Contract {
    /// The state invariant: both ledgers are well formed.
    pub open spec fn wf(&self) -> bool {
        wf_tokens(self@.tokens) && wf_storage(self@.storage)
    }

    /// A fresh contract: no tokens, no storage entries, empty collection
    /// metadata.
    pub fn new() -> (c: Contract)
        ensures
            c.wf(),
            c@.tokens == Seq::<TokenView>::empty(),
            c@.storage == Seq::<StorageEntryView>::empty(),
            c@.metadata.name == Seq::<char>::empty(),
            c@.metadata.symbol == Seq::<char>::empty(),
            c@.metadata.icon is None,
    {
        let c = Contract {
            tokens: Vec::new(),
            storage: Vec::new(),
            metadata: ContractMetadata { name: String::new(), symbol: String::new(), icon: None },
        };
        proof {
            assert(c@.tokens =~= Seq::<TokenView>::empty());
            assert(c@.storage =~= Seq::<StorageEntryView>::empty());
        }
        c
    }

    /// The number of tokens ever minted.
    pub fn total_supply(&self) -> (n: u64)
        ensures
            n as nat == self@.tokens.len(),
    {
        self.tokens.len() as u64
    }

    /// Replaces the collection metadata; the ledgers are untouched.
    pub fn update_metadata(&mut self, metadata: ContractMetadata)
        requires
            old(self).wf(),
        ensures
            final(self).wf(),
            final(self)@.metadata == metadata@,
            final(self)@.tokens == old(self)@.tokens,
            final(self)@.storage == old(self)@.storage,
    {
        self.metadata = metadata;
        proof {
            assert(self@.tokens =~= old(self)@.tokens);
            assert(self@.storage =~= old(self)@.storage);
        }
    }

    /// The collection metadata as last set.
    pub fn contract_metadata(&self) -> (m: &ContractMetadata)
        ensures
            m@ == self@.metadata,
    {
        &self.metadata
    }

    fn find_token(&self, token_id: &String) -> (r: Option<usize>)
        ensures
            r matches Some(i) ==> i < self@.tokens.len() && self@.tokens[i as int].token_id
                == token_id@,
            (r is Some) == has_token(self@.tokens, token_id@),
    {
        let ghost tokens = self@.tokens;
        let mut i: usize = 0;
        while i < self.tokens.len()
            invariant
                tokens == self@.tokens,
                i <= self.tokens.len(),
                self.tokens@.len() == tokens.len(),
                forall|j: int| 0 <= j < i ==> (#[trigger] tokens[j]).token_id != token_id@,
            decreases self.tokens.len() - i,
        {
            if self.tokens[i].token_id == *token_id {
                assert(tokens[i as int].token_id == token_id@);
                return Some(i);
            }
            i = i + 1;
        }
        proof {
            if has_token(tokens, token_id@) {
                let j = choose|j: int| 0 <= j < tokens.len() && tokens[j].token_id == token_id@;
                assert(tokens[j].token_id != token_id@);
            }
        }
        None
    }

    fn find_storage(&self, account: &AccountId) -> (r: Option<usize>)
        ensures
            r matches Some(i) ==> i < self@.storage.len() && self@.storage[i as int].account
                == account@,
            (r is Some) == storage_has(self@.storage, account@),
    {
        let ghost storage = self@.storage;
        let mut i: usize = 0;
        while i < self.storage.len()
            invariant
                storage == self@.storage,
                i <= self.storage.len(),
                self.storage@.len() == storage.len(),
                forall|j: int| 0 <= j < i ==> (#[trigger] storage[j]).account != account@,
            decreases self.storage.len() - i,
        {
            if self.storage[i].account.same_as(account) {
                assert(storage[i as int].account == account@);
                return Some(i);
            }
            i = i + 1;
        }
        proof {
            if storage_has(storage, account@) {
                let j = choose|j: int|
                    0 <= j < storage.len() && storage[j].account == account@;
                assert(storage[j].account != account@);
            }
        }
        None
    }

    /// The ids of the tokens the given account owns: at most one, and
    /// then the account's own textual form.
    pub fn nft_tokens_for_owner(&self, owner: &AccountId) -> (r: Vec<String>)
        requires
            self.wf(),
        ensures
            r.deep_view() == if owns_token(self@.tokens, owner@) {
                seq![owner@]
            } else {
                Seq::<Seq<char>>::empty()
            },
    {
        let ghost tokens = self@.tokens;
        let mut r: Vec<String> = Vec::new();
        let mut i: usize = 0;
        proof {
            assert(r.deep_view() =~= Seq::<Seq<char>>::empty());
            assert(tokens.take(0) =~= Seq::<TokenView>::empty());
        }
        while i < self.tokens.len()
            invariant
                self.wf(),
                tokens == self@.tokens,
                i <= self.tokens.len(),
                self.tokens@.len() == tokens.len(),
                r.deep_view() == if owns_token(tokens.take(i as int), owner@) {
                    seq![owner@]
                } else {
                    Seq::<Seq<char>>::empty()
                },
            decreases self.tokens.len() - i,
        {
            let ghost prefix = tokens.take(i as int);
            proof {
                assert(tokens.take(i + 1).drop_last() =~= prefix);
                assert(tokens.take(i + 1).last() == tokens[i as int]);
            }
            if self.tokens[i].owner.same_as(owner) {
                proof {
                    // A second owned token would break the ledger invariant.
                    if owns_token(prefix, owner@) {
                        let j = choose|j: int|
                            0 <= j < prefix.len() && prefix[j].owner == owner@;
                        assert(tokens[j].token_id == tokens[j].owner);
                        assert(tokens[i as int].token_id == tokens[i as int].owner);
                        assert(tokens[j].token_id == tokens[i as int].token_id);
                        assert(false);
                    }
                }
                r.push(self.tokens[i].token_id.clone());
                proof {
                    assert(tokens[i as int].token_id == tokens[i as int].owner);
                    assert(r.deep_view() =~= seq![owner@]);
                    assert(tokens.take(i + 1)[i as int].owner == owner@);
                    assert(owns_token(tokens.take(i + 1), owner@));
                }
            } else {
                proof {
                    let t1 = tokens.take(i + 1);
                    if owns_token(t1, owner@) {
                        let j = choose|j: int|
                            0 <= j < t1.len() && (#[trigger] t1[j]).owner == owner@;
                        if j < i {
                            assert(prefix[j].owner == owner@);
                            assert(owns_token(prefix, owner@));
                        }
                    }
                    if owns_token(prefix, owner@) {
                        let j = choose|j: int|
                            0 <= j < prefix.len() && prefix[j].owner == owner@;
                        assert(tokens.take(i + 1)[j].owner == owner@);
                        assert(owns_token(tokens.take(i + 1), owner@));
                    }
                }
            }
            i = i + 1;
        }
        proof {
            assert(tokens.take(tokens.len() as int) =~= tokens);
        }
        r
    }

    /// The metadata record of the token with the given id, where one
    /// exists.
    pub fn nft_token_metadata(&self, token_id: &String) -> (r: Option<TokenMetadata>)
        requires
            self.wf(),
        ensures
            (r is Some) == has_token(self@.tokens, token_id@),
            r matches Some(m) ==> forall|i: int|
                0 <= i < self@.tokens.len() && (#[trigger] self@.tokens[i]).token_id == token_id@
                    ==> self@.tokens[i].metadata == m@,
    {
        match self.find_token(token_id) {
            None => None,
            Some(i) => {
                let m = self.tokens[i].metadata.clone();
                proof {
                    assert forall|j: int|
                        0 <= j < self@.tokens.len() && (#[trigger] self@.tokens[j]).token_id
                            == token_id@ implies self@.tokens[j].metadata == m@ by {
                        if j != i as int {
                            assert(self@.tokens[j].token_id != self@.tokens[i as int].token_id);
                        }
                    }
                }
                Some(m)
            },
        }
    }

    /// Registers a storage account with a zero balance; an account
    /// already registered is left as it is.
    pub fn register_storage_account(&mut self, account: &AccountId)
        requires
            old(self).wf(),
        ensures
            final(self).wf(),
            storage_has(old(self)@.storage, account@) ==> final(self)@ == old(self)@,
            !storage_has(old(self)@.storage, account@) ==> {
                &&& final(self)@.storage == old(self)@.storage.push(
                    StorageEntryView { account: account@, balance: 0 },
                )
                &&& final(self)@.tokens == old(self)@.tokens
                &&& final(self)@.metadata == old(self)@.metadata
            },
    {
        match self.find_storage(account) {
            Some(_) => {},
            None => {
                self.storage.push(StorageEntry { account: account.clone(), balance: 0 });
                proof {
                    assert(self@.storage =~= old(self)@.storage.push(
                        StorageEntryView { account: account@, balance: 0 },
                    ));
                    assert(self@.tokens =~= old(self)@.tokens);
                    assert forall|i: int, j: int|
                        0 <= i < self@.storage.len() && 0 <= j < self@.storage.len() && i != j
                            implies (#[trigger] self@.storage[i]).account != (
                        #[trigger] self@.storage[j]).account by {
                        if j == self@.storage.len() - 1 && i < j {
                            assert(old(self)@.storage[i].account != account@);
                        }
                        if i == self@.storage.len() - 1 && j < i {
                            assert(old(self)@.storage[j].account != account@);
                        }
                    }
                }
            },
        }
    }

    /// The storage balance of the given account, where it is registered.
    pub fn storage_balance_of(&self, account: &AccountId) -> (r: Option<u128>)
        requires
            self.wf(),
        ensures
            (r is Some) == storage_has(self@.storage, account@),
            r matches Some(b) ==> forall|i: int|
                0 <= i < self@.storage.len() && (#[trigger] self@.storage[i]).account == account@
                    ==> self@.storage[i].balance == b,
    {
        match self.find_storage(account) {
            None => None,
            Some(i) => {
                let b = self.storage[i].balance;
                proof {
                    assert forall|j: int|
                        0 <= j < self@.storage.len() && (#[trigger] self@.storage[j]).account
                            == account@ implies self@.storage[j].balance == b by {
                        if j != i as int {
                            assert(self@.storage[j].account != self@.storage[i as int].account);
                        }
                    }
                }
                Some(b)
            },
        }
    }

    /// Runs the full mint pipeline for a request: the validator, the
    /// referral check, the metadata derivation and the ledger append.
    /// Rejection leaves the state unchanged.
    fn execute_mint(&mut self, req: MintRequest, block_timestamp_ns: u64) -> (r: Result<
        (),
        AbortReason,
    >)
        requires
            old(self).wf(),
        ensures
            final(self).wf(),
            r matches Err(e) ==> Some(e) == mint_outcome(old(self)@.tokens, req@) && final(self)@
                == old(self)@,
            r is Ok ==> {
                &&& mint_outcome(old(self)@.tokens, req@) is None
                &&& final(self)@.tokens == old(self)@.tokens.push(
                    minted_token(req@.receiver_id, the_memo(req@), block_timestamp_ns),
                )
                &&& final(self)@.storage == old(self)@.storage
                &&& final(self)@.metadata == old(self)@.metadata
            },
    {
        let parsed = match ReferralHook::validate(&req) {
            Err(e) => {
                return Err(e);
            },
            Ok(p) => p,
        };
        let supply = self.total_supply();
        let owned = self.nft_tokens_for_owner(&parsed.referrer);
        let referrer_owns = !owned.is_empty();
        proof {
            assert(owned@.len() == owned.deep_view().len());
        }
        if let Err(e) = ReferralHook::check_referral(supply, referrer_owns) {
            return Err(e);
        }
        let token_text = req.receiver_id.to_text();
        if self.find_token(&token_text).is_some() {
            return Err(AbortReason::DuplicateTokenId);
        }
        let metadata = derive_metadata(
            &req.receiver_id,
            &parsed.referrer,
            &parsed.fields,
            block_timestamp_ns,
        );
        let token = Token { token_id: token_text, owner: req.receiver_id, metadata };
        self.tokens.push(token);
        proof {
            let tv = minted_token(req@.receiver_id, the_memo(req@), block_timestamp_ns);
            assert(self@.tokens =~= old(self)@.tokens.push(tv));
            assert(self@.storage =~= old(self)@.storage);
            assert forall|i: int, j: int|
                0 <= i < self@.tokens.len() && 0 <= j < self@.tokens.len() && i != j implies (
            #[trigger] self@.tokens[i]).token_id != (#[trigger] self@.tokens[j]).token_id by {
                if j == self@.tokens.len() - 1 && i < j {
                    assert(!has_token(old(self)@.tokens, req@.receiver_id));
                    assert(old(self)@.tokens[i].token_id != req@.receiver_id);
                }
                if i == self@.tokens.len() - 1 && j < i {
                    assert(!has_token(old(self)@.tokens, req@.receiver_id));
                    assert(old(self)@.tokens[j].token_id != req@.receiver_id);
                }
            }
        }
        Ok(())
    }

    /// Self-mint: the caller mints one token for themself, whose id is
    /// the caller's own account, with the given memo and block time.
    /// Rejection leaves the state unchanged.
    pub fn mint(&mut self, caller: AccountId, memo: String, block_timestamp_ns: u64) -> (r:
        Result<(), AbortReason>)
        requires
            old(self).wf(),
        ensures
            final(self).wf(),
            r matches Err(e) ==> Some(e) == mint_outcome(
                old(self)@.tokens,
                self_mint_request(caller@, memo@),
            ) && final(self)@ == old(self)@,
            r is Ok ==> {
                &&& mint_outcome(old(self)@.tokens, self_mint_request(caller@, memo@)) is None
                &&& final(self)@.tokens == old(self)@.tokens.push(
                    minted_token(caller@, memo@, block_timestamp_ns),
                )
                &&& final(self)@.storage == old(self)@.storage
                &&& final(self)@.metadata == old(self)@.metadata
            },
    {
        let token_text = caller.to_text();
        let mut token_ids: Vec<String> = Vec::new();
        token_ids.push(token_text);
        let req = MintRequest { token_ids, receiver_id: caller, memo: Some(memo) };
        proof {
            assert(req@.token_ids =~= seq![caller@]);
            assert(req@ == self_mint_request(caller@, memo@));
        }
        self.execute_mint(req, block_timestamp_ns)
    }

    /// Sponsored mint: the privileged relayer mints one token for
    /// `receiver_id` and credits the attached payment to the receiver's
    /// storage balance. Any other caller is rejected, and any rejection
    /// leaves the whole state — the deposit included — unchanged.
    pub fn mint_for(
        &mut self,
        caller: AccountId,
        receiver_id: AccountId,
        memo: String,
        attached_deposit: u128,
        block_timestamp_ns: u64,
    ) -> (r: Result<(), AbortReason>)
        requires
            old(self).wf(),
        ensures
            final(self).wf(),
            r matches Err(e) ==> Some(e) == mint_for_outcome(
                old(self)@,
                caller@,
                receiver_id@,
                memo@,
                attached_deposit,
            ) && final(self)@ == old(self)@,
            r is Ok ==> {
                &&& mint_for_outcome(
                    old(self)@,
                    caller@,
                    receiver_id@,
                    memo@,
                    attached_deposit,
                ) is None
                &&& final(self)@.tokens == old(self)@.tokens.push(
                    minted_token(receiver_id@, memo@, block_timestamp_ns),
                )
                &&& final(self)@.storage == credited_storage(
                    old(self)@.storage,
                    receiver_id@,
                    attached_deposit,
                )
                &&& final(self)@.metadata == old(self)@.metadata
            },
    {
        let relay = String::from_str("relay.intear.near");
        if !caller.text_is(&relay) {
            return Err(AbortReason::Unauthorized);
        }
        let idx = match self.find_storage(&receiver_id) {
            None => {
                proof {
                    if storage_can_credit(self@.storage, receiver_id@, attached_deposit) {
                        let j = choose|j: int|
                            0 <= j < self@.storage.len() && self@.storage[j].account
                                == receiver_id@ && self@.storage[j].balance + attached_deposit
                                <= u128::MAX;
                        assert(storage_has(self@.storage, receiver_id@));
                    }
                }
                return Err(AbortReason::DepositFailed);
            },
            Some(idx) => idx,
        };
        let new_balance = match self.storage[idx].balance.checked_add(attached_deposit) {
            None => {
                proof {
                    if storage_can_credit(self@.storage, receiver_id@, attached_deposit) {
                        let j = choose|j: int|
                            0 <= j < self@.storage.len() && self@.storage[j].account
                                == receiver_id@ && self@.storage[j].balance + attached_deposit
                                <= u128::MAX;
                        if j != idx as int {
                            assert(self@.storage[j].account != self@.storage[idx as int].account);
                        }
                    }
                }
                return Err(AbortReason::DepositFailed);
            },
            Some(b) => b,
        };
        proof {
            assert(storage_can_credit(self@.storage, receiver_id@, attached_deposit));
        }
        let token_text = receiver_id.to_text();
        let mut token_ids: Vec<String> = Vec::new();
        token_ids.push(token_text);
        let req = MintRequest {
            token_ids,
            receiver_id: receiver_id.clone(),
            memo: Some(memo),
        };
        proof {
            assert(req@.token_ids =~= seq![receiver_id@]);
            assert(req@ == self_mint_request(receiver_id@, the_memo(req@)));
        }
        let ghost before = self@;
        match self.execute_mint(req, block_timestamp_ns) {
            Err(e) => Err(e),
            Ok(()) => {
                let account = self.storage[idx].account.clone();
                self.storage[idx] = StorageEntry { account, balance: new_balance };
                proof {
                    assert(self@.tokens =~= before.tokens.push(
                        minted_token(receiver_id@, memo@, block_timestamp_ns),
                    ));
                    assert(self@.metadata == before.metadata);
                    assert forall|k: int| 0 <= k < self@.storage.len() implies self@.storage[k]
                        == credited_storage(before.storage, receiver_id@, attached_deposit)[k] by {
                        if k != idx as int {
                            assert(before.storage[k].account != before.storage[idx as int].account);
                        }
                    }
                    assert(self@.storage =~= credited_storage(
                        before.storage,
                        receiver_id@,
                        attached_deposit,
                    ));
                    assert forall|i: int, j: int|
                        0 <= i < self@.storage.len() && 0 <= j < self@.storage.len() && i != j
                            implies (#[trigger] self@.storage[i]).account != (
                    #[trigger] self@.storage[j]).account by {
                        assert(before.storage[i].account != before.storage[j].account);
                    }
                }
                Ok(())
            },
        }
    }

    /// Transfer attempt: always rejected, whatever the sender, receiver
    /// or token; the state is never touched.
    pub fn transfer(
        &mut self,
        sender_id: &AccountId,
        receiver_id: &AccountId,
        token_id: &String,
    ) -> (r: Result<(), AbortReason>)
        requires
            old(self).wf(),
        ensures
            final(self).wf(),
            r == Err::<(), AbortReason>(AbortReason::NonTransferrable),
            final(self)@ == old(self)@,
    {
        let reason = NonTransferrableHook::hook();
        Err(reason)
    }
}

} // verus!
