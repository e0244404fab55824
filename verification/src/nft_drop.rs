//! Drops of tokens that another registry holds.
//!
//! [`Contract`] keeps one capability per public key, each for a token of a
//! registry that approved the contract to move it. A capability is issued by
//! a call of `send`, or by the registry's own notification of the approval.

use vstd::prelude::*;
use crate::bridge::{approval_outcome, on_external_approval, registry_after_approval};
use crate::capability::{AssetReference, AssetReferenceView, Registry};
use crate::coordinator::{claim, claim_outcome, claimed, registry_after_claim};
use crate::error::DropError;
use crate::host::{CallContext, ClaimReceipt, PermitGrant, PermitGrantView};
use crate::issuer::{granted, issue, issue_outcome, registry_after_issue};
use crate::key::{decoded_public_key, well_formed_public_key};

verus! {

/// A token of another registry, with the approval to move it.
#[derive(Debug, PartialEq, Eq)]
pub struct NFT {
    /// The registry that holds the token.
    pub contract_id: String,
    /// The token in that registry.
    pub token_id: String,
    /// The approval that the registry gave for it.
    pub approval_id: u64,
    /// The owner of the token when the approval was given.
    pub owner_id: String,
}

impl View for NFT {
    type V = AssetReferenceView;

    open spec fn view(&self) -> AssetReferenceView {
        AssetReferenceView::Remote {
            registry_account: self.contract_id@,
            token_id: self.token_id@,
            approval_id: self.approval_id,
            recorded_owner: self.owner_id@,
        }
    }
}

impl NFT {
    /// The asset reference of this token.
    pub fn into_asset(self) -> (asset: AssetReference)
        ensures
            asset@ == self@,
    {
        AssetReference::Remote {
            registry_account: self.contract_id,
            token_id: self.token_id,
            approval_id: self.approval_id,
            recorded_owner: self.owner_id,
        }
    }
}

/// The answer to a registry whose notification was served.
#[derive(Debug, PartialEq, Eq)]
pub struct Acknowledgment {
    /// The permit to grant for the key that the notification carried.
    pub grant: PermitGrant,
    /// The reply to the registry.
    pub reply: String,
}

/// A drop of tokens that other registries hold.
#[derive(Debug)]
pub struct Contract {
    /// The capabilities that are issued and not yet claimed.
    pub accounts: Registry,
    /// Whether an issuance must come with a deposit that covers the key
    /// allowance.
    pub require_minimum_deposit: bool,
}

impl Contract {
    /// The capabilities that are issued and not yet claimed.
    pub open spec fn registry(&self) -> Map<Seq<u8>, AssetReferenceView> {
        self.accounts@
    }

    /// Whether an issuance must come with a deposit that covers the key
    /// allowance.
    pub open spec fn deposit_required(&self) -> bool {
        self.require_minimum_deposit
    }

    /// A drop without capabilities, which asks for no deposit.
    pub fn new() -> (contract: Contract)
        ensures
            contract.registry() == Map::<Seq<u8>, AssetReferenceView>::empty(),
            !contract.deposit_required(),
    {
        Contract { accounts: Registry::new(), require_minimum_deposit: false }
    }

    /// The same drop, asking for the deposit or not.
    pub fn with_minimum_deposit(self, required: bool) -> (contract: Contract)
        ensures
            contract.registry() == self.registry(),
            contract.deposit_required() == required,
    {
        Contract { accounts: self.accounts, require_minimum_deposit: required }
    }

    /// Issues a capability for `nft` under `public_key`, in place of any
    /// earlier one under that key, and returns the permit to grant; or
    /// refuses, and changes nothing.
    pub fn send(&mut self, ctx: &CallContext, public_key: Vec<u8>, nft: NFT) -> (result: Result<
        PermitGrant,
        DropError,
    >)
        ensures
            final(self).registry() == registry_after_issue(
                old(self).registry(),
                old(self).deposit_required(),
                ctx@,
                public_key@,
                nft@,
            ),
            granted(result) == issue_outcome(old(self).deposit_required(), ctx@, public_key@),
            final(self).deposit_required() == old(self).deposit_required(),
    {
        issue(&mut self.accounts, self.require_minimum_deposit, ctx, public_key, nft.into_asset())
    }

    /// Claims the capability of the key that signed the call, in favour of
    /// `account_id`: removes it and returns what is left to do; or refuses,
    /// and changes nothing.
    pub fn claim(&mut self, ctx: &CallContext, account_id: String) -> (result: Result<
        ClaimReceipt,
        DropError,
    >)
        ensures
            final(self).registry() == registry_after_claim(old(self).registry(), ctx@, account_id@),
            claimed(result) == claim_outcome(
                old(self).registry(),
                None::<Seq<char>>,
                ctx@,
                account_id@,
            ),
            final(self).deposit_required() == old(self).deposit_required(),
    {
        let ledger: Option<String> = None;
        claim(&mut self.accounts, &ledger, ctx, account_id)
    }

    /// Serves the notification that the calling registry approved the
    /// contract for its token `token_id`, owned by `owner_id`, under
    /// `approval_id`: issues the capability for that token under the key
    /// that `msg` carries, and acknowledges with `OK`; or refuses, and
    /// changes nothing. A refusal is `MalformedMessage`, where `msg` carries
    /// no key, or `InsufficientDeposit`.
    pub fn nft_on_approve(
        &mut self,
        ctx: &CallContext,
        token_id: String,
        owner_id: String,
        approval_id: u64,
        msg: String,
    ) -> (result: Result<Acknowledgment, DropError>)
        ensures
            final(self).registry() == registry_after_approval(
                old(self).registry(),
                old(self).deposit_required(),
                ctx@,
                token_id@,
                owner_id@,
                approval_id,
                decoded_public_key(msg@),
            ),
            match result {
                Ok(ack) => ack.reply@ == "OK"@ && approval_outcome(
                    old(self).deposit_required(),
                    ctx@,
                    decoded_public_key(msg@),
                ) == Ok::<PermitGrantView, DropError>(ack.grant@),
                Err(e) => approval_outcome(
                    old(self).deposit_required(),
                    ctx@,
                    decoded_public_key(msg@),
                ) == Err::<PermitGrantView, DropError>(e),
            },
            decoded_public_key(msg@) matches Some(k) ==> well_formed_public_key(k),
            result != Err::<Acknowledgment, DropError>(DropError::EmptyPublicKey),
            final(self).deposit_required() == old(self).deposit_required(),
    {
        match on_external_approval(
            &mut self.accounts,
            self.require_minimum_deposit,
            ctx,
            token_id,
            owner_id,
            approval_id,
            msg.as_str(),
        ) {
            Ok(grant) => Ok(Acknowledgment { grant, reply: "OK".to_owned() }),
            Err(e) => Err(e),
        }
    }
}

} // verus!
