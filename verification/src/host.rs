//! What the protocol reads from the host, and what it asks of the host.
//!
//! The library never talks to the host. Each operation takes what the host
//! knows of the current call as a [`CallContext`], and returns the
//! instructions that its caller passes on: a permit to grant, a permit to
//! revoke, a settlement to dispatch.

use vstd::prelude::*;
use crate::capability::NftId;

verus! {

/// The execution budget that a permit carries.
pub const ACCESS_KEY_ALLOWANCE: u128 = 1_000_000_000_000_000_000_000_000;

/// The gas given to a transfer on a token ledger.
pub const GAS: u64 = 20_000_000_000_000;

/// The gas that the registry of a remote asset keeps to resolve a transfer.
pub const GAS_FOR_RESOLVE_TRANSFER: u64 = 10_000_000_000_000;

/// The gas given to a transfer on the registry of a remote asset.
pub const GAS_FOR_NFT_TRANSFER_CALL: u64 = 25_000_000_000_000 + GAS_FOR_RESOLVE_TRANSFER;

/// What the host knows of the call that is being served.
#[derive(Debug, PartialEq, Eq)]
pub struct CallContext {
    /// The account of the contract itself.
    pub current_account_id: String,
    /// The account that made this call.
    pub predecessor_account_id: String,
    /// The public key whose signature authorised the transaction.
    pub signer_account_pk: Vec<u8>,
    /// The value attached to this call.
    pub attached_deposit: u128,
}

/// A call context as a mathematical value.
pub struct CallContextView {
    pub current_account_id: Seq<char>,
    pub predecessor_account_id: Seq<char>,
    pub signer_account_pk: Seq<u8>,
    pub attached_deposit: u128,
}

impl View for CallContext {
    type V = CallContextView;

    open spec fn view(&self) -> CallContextView {
        CallContextView {
            current_account_id: self.current_account_id@,
            predecessor_account_id: self.predecessor_account_id@,
            signer_account_pk: self.signer_account_pk@,
            attached_deposit: self.attached_deposit,
        }
    }
}

/// An instruction to add to `account_id` an access key for `public_key` that
/// may spend `allowance` on calls of the methods `method_names` of
/// `receiver_id`, and on nothing else.
#[derive(Debug, PartialEq, Eq)]
pub struct PermitGrant {
    pub account_id: String,
    pub public_key: Vec<u8>,
    pub allowance: u128,
    pub receiver_id: String,
    pub method_names: String,
}

/// A permit grant as a mathematical value.
pub struct PermitGrantView {
    pub account_id: Seq<char>,
    pub public_key: Seq<u8>,
    pub allowance: u128,
    pub receiver_id: Seq<char>,
    pub method_names: Seq<char>,
}

impl View for PermitGrant {
    type V = PermitGrantView;

    open spec fn view(&self) -> PermitGrantView {
        PermitGrantView {
            account_id: self.account_id@,
            public_key: self.public_key@,
            allowance: self.allowance,
            receiver_id: self.receiver_id@,
            method_names: self.method_names@,
        }
    }
}

/// An instruction to delete the access key for `public_key` from
/// `account_id`, for good.
#[derive(Debug, PartialEq, Eq)]
pub struct PermitRevocation {
    pub account_id: String,
    pub public_key: Vec<u8>,
}

/// A permit revocation as a mathematical value.
pub struct PermitRevocationView {
    pub account_id: Seq<char>,
    pub public_key: Seq<u8>,
}

impl View for PermitRevocation {
    type V = PermitRevocationView;

    open spec fn view(&self) -> PermitRevocationView {
        PermitRevocationView { account_id: self.account_id@, public_key: self.public_key@ }
    }
}

/// An instruction to hand a claimed asset to its receiver. It is dispatched
/// once and never awaited: whether it succeeds changes nothing in the
/// registry.
#[allow(inconsistent_fields)]
#[derive(Debug, PartialEq, Eq)]
pub enum Settlement {
    /// Reassign a token in the ledger that the contract keeps itself.
    Reassign { token_id: NftId, receiver_id: String },
    /// Call `method_name` on the token ledger `account_id`, to move the
    /// contract's token `token_id` from `from` to `to`.
    LedgerCall {
        account_id: String,
        method_name: String,
        from: String,
        to: String,
        token_id: NftId,
        deposit: u128,
        gas: u64,
    },
    /// Call `method_name` on the registry `account_id` of a remote asset, to
    /// move the token `token_id` to `receiver_id` under the approval
    /// `approval_id`.
    RegistryCall {
        account_id: String,
        method_name: String,
        receiver_id: String,
        token_id: String,
        approval_id: u64,
        memo: String,
        deposit: u128,
        gas: u64,
    },
}

/// A settlement as a mathematical value.
#[allow(inconsistent_fields)]
pub enum SettlementView {
    Reassign { token_id: NftId, receiver_id: Seq<char> },
    LedgerCall {
        account_id: Seq<char>,
        method_name: Seq<char>,
        from: Seq<char>,
        to: Seq<char>,
        token_id: NftId,
        deposit: u128,
        gas: u64,
    },
    RegistryCall {
        account_id: Seq<char>,
        method_name: Seq<char>,
        receiver_id: Seq<char>,
        token_id: Seq<char>,
        approval_id: u64,
        memo: Seq<char>,
        deposit: u128,
        gas: u64,
    },
}

impl View for Settlement {
    type V = SettlementView;

    open spec fn view(&self) -> SettlementView {
        match *self {
            Settlement::Reassign { token_id, receiver_id } => SettlementView::Reassign {
                token_id,
                receiver_id: receiver_id@,
            },
            Settlement::LedgerCall { account_id, method_name, from, to, token_id, deposit, gas } => {
                SettlementView::LedgerCall {
                    account_id: account_id@,
                    method_name: method_name@,
                    from: from@,
                    to: to@,
                    token_id,
                    deposit,
                    gas,
                }
            },
            Settlement::RegistryCall {
                account_id,
                method_name,
                receiver_id,
                token_id,
                approval_id,
                memo,
                deposit,
                gas,
            } => SettlementView::RegistryCall {
                account_id: account_id@,
                method_name: method_name@,
                receiver_id: receiver_id@,
                token_id: token_id@,
                approval_id,
                memo: memo@,
                deposit,
                gas,
            },
        }
    }
}

/// What a successful claim leaves to do, in this order: revoke the permit of
/// the claiming key, then dispatch the settlement.
#[derive(Debug, PartialEq, Eq)]
pub struct ClaimReceipt {
    pub revocation: PermitRevocation,
    pub settlement: Settlement,
}

/// A claim receipt as a mathematical value.
pub struct ClaimReceiptView {
    pub revocation: PermitRevocationView,
    pub settlement: SettlementView,
}

impl View for ClaimReceipt {
    type V = ClaimReceiptView;

    open spec fn view(&self) -> ClaimReceiptView {
        ClaimReceiptView { revocation: self.revocation@, settlement: self.settlement@ }
    }
}

} // verus!
