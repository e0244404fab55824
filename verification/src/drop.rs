//! Drops of tokens from the contract's own ledger.
//!
//! [`NFTDrop`] keeps one capability per public key, each for a token of the
//! contract's own ledger. Whoever holds the private key of a capability
//! claims its token for an account of their choice, once.

use vstd::prelude::*;
use crate::account::{is_valid_account_id, valid_account_id};
use crate::capability::{AssetReference, AssetReferenceView, NftId, Registry};
use crate::coordinator::{claim, claim_outcome, claimed, ledger_view, registry_after_claim};
use crate::error::DropError;
use crate::host::{CallContext, ClaimReceipt, PermitGrant};
use crate::issuer::{granted, issue, issue_outcome, registry_after_issue};

verus! {

/// The two operations of a drop.
pub trait Drop {
    /// The capabilities that are issued and not yet claimed.
    spec fn registry(&self) -> Map<Seq<u8>, AssetReferenceView>;

    /// Whether an issuance must come with a deposit that covers the key
    /// allowance.
    spec fn deposit_required(&self) -> bool;

    /// The account of the ledger that settles claims, where the contract
    /// does not keep the ledger itself.
    spec fn ledger_account(&self) -> Option<Seq<char>>;

    /// Issues a capability for the local token `token_id` under
    /// `public_key`, in place of any earlier one under that key, and returns
    /// the permit to grant; or refuses, and changes nothing.
    fn add(&mut self, ctx: &CallContext, public_key: Vec<u8>, token_id: NftId) -> (result: Result<
        PermitGrant,
        DropError,
    >)
        ensures
            final(self).registry() == registry_after_issue(
                old(self).registry(),
                old(self).deposit_required(),
                ctx@,
                public_key@,
                AssetReferenceView::Local { token_id },
            ),
            granted(result) == issue_outcome(old(self).deposit_required(), ctx@, public_key@),
            final(self).deposit_required() == old(self).deposit_required(),
            final(self).ledger_account() == old(self).ledger_account(),
    ;

    /// Claims the capability of the key that signed the call, in favour of
    /// `account_id`: removes it and returns what is left to do; or refuses,
    /// and changes nothing.
    fn claim(&mut self, ctx: &CallContext, account_id: String) -> (result: Result<
        ClaimReceipt,
        DropError,
    >)
        ensures
            final(self).registry() == registry_after_claim(old(self).registry(), ctx@, account_id@),
            claimed(result) == claim_outcome(
                old(self).registry(),
                old(self).ledger_account(),
                ctx@,
                account_id@,
            ),
            final(self).deposit_required() == old(self).deposit_required(),
            final(self).ledger_account() == old(self).ledger_account(),
    ;
}

/// A drop of tokens from the contract's own ledger.
#[derive(Debug)]
pub struct NFTDrop {
    /// The capabilities that are issued and not yet claimed.
    pub accounts: Registry,
    /// Whether an issuance must come with a deposit that covers the key
    /// allowance.
    pub require_minimum_deposit: bool,
    /// The account of the ledger that settles claims; without one, a claim
    /// is settled in the ledger that the contract keeps itself.
    pub ledger: Option<String>,
}

impl NFTDrop {
    /// A drop without capabilities, which asks for no deposit and settles
    /// in the contract's own ledger. Refused with `InvalidOwner` where
    /// `owner_id` does not have the syntax of an account identifier.
    pub fn new(owner_id: String) -> (result: Result<NFTDrop, DropError>)
        ensures
            match result {
                Ok(drop) => valid_account_id(owner_id@) && drop.accounts@ == Map::<
                    Seq<u8>,
                    AssetReferenceView,
                >::empty() && !drop.require_minimum_deposit && drop.ledger is None,
                Err(e) => !valid_account_id(owner_id@) && e == DropError::InvalidOwner,
            },
    {
        if !is_valid_account_id(owner_id.as_str()) {
            return Err(DropError::InvalidOwner);
        }
        Ok(NFTDrop { accounts: Registry::new(), require_minimum_deposit: false, ledger: None })
    }

    /// The same drop, asking for the deposit or not.
    pub fn with_minimum_deposit(self, required: bool) -> (drop: NFTDrop)
        ensures
            drop.accounts@ == self.accounts@,
            drop.require_minimum_deposit == required,
            drop.ledger == self.ledger,
    {
        NFTDrop { accounts: self.accounts, require_minimum_deposit: required, ledger: self.ledger }
    }

    /// The same drop, settling by a call on the ledger `account_id`.
    pub fn with_ledger(self, account_id: String) -> (drop: NFTDrop)
        ensures
            drop.accounts@ == self.accounts@,
            drop.require_minimum_deposit == self.require_minimum_deposit,
            drop.ledger == Some(account_id),
    {
        NFTDrop {
            accounts: self.accounts,
            require_minimum_deposit: self.require_minimum_deposit,
            ledger: Some(account_id),
        }
    }
}

impl Drop for NFTDrop {
    open spec fn registry(&self) -> Map<Seq<u8>, AssetReferenceView> {
        self.accounts@
    }

    open spec fn deposit_required(&self) -> bool {
        self.require_minimum_deposit
    }

    open spec fn ledger_account(&self) -> Option<Seq<char>> {
        ledger_view(self.ledger)
    }

    fn add(&mut self, ctx: &CallContext, public_key: Vec<u8>, token_id: NftId) -> (result: Result<
        PermitGrant,
        DropError,
    >) {
        issue(
            &mut self.accounts,
            self.require_minimum_deposit,
            ctx,
            public_key,
            AssetReference::Local { token_id },
        )
    }

    fn claim(&mut self, ctx: &CallContext, account_id: String) -> (result: Result<
        ClaimReceipt,
        DropError,
    >) {
        claim(&mut self.accounts, &self.ledger, ctx, account_id)
    }
}

} // verus!
