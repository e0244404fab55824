//! Claiming a capability.
//!
//! A claim is served only when the contract's own account makes the call,
//! which is how a call arrives that was paid for by a permit. The key that
//! signed the transaction is the capability's key. Removing the record is the
//! point of no return: what follows, revoking the permit and dispatching the
//! settlement, is handed to the caller as instructions and cannot bring the
//! record back.

use vstd::prelude::*;
use crate::account::{is_valid_account_id, valid_account_id};
use crate::capability::{AssetReference, AssetReferenceView, Registry};
use crate::error::DropError;
use crate::host::{
    CallContext, CallContextView, ClaimReceipt, ClaimReceiptView, PermitRevocation,
    PermitRevocationView, Settlement, SettlementView, GAS, GAS_FOR_NFT_TRANSFER_CALL,
};
use crate::key::copy_bytes;

verus! {

/// Why a claim is refused, if it is. The caller is tested first, then the
/// destination, then the key: a call from another account is refused
/// whatever key signed it, and no refusal touches the registry.
pub open spec fn claim_refusal(
    registry: Map<Seq<u8>, AssetReferenceView>,
    ctx: CallContextView,
    destination: Seq<char>,
) -> Option<DropError> {
    if ctx.predecessor_account_id != ctx.current_account_id {
        Some(DropError::ForeignCaller)
    } else if !valid_account_id(destination) {
        Some(DropError::InvalidAccountId)
    } else if !registry.contains_key(ctx.signer_account_pk) {
        Some(DropError::UnknownKey)
    } else {
        None
    }
}

/// The settlement of `asset` in favour of `destination`.
///
/// A local token is reassigned in the contract's own ledger, or, where the
/// contract is configured with the account of a ledger, moved there by a call
/// of `transfer_from`. A remote token is moved by a call of `nft_transfer` on
/// the registry that approved it.
pub open spec fn settlement_for(
    asset: AssetReferenceView,
    ledger: Option<Seq<char>>,
    ctx: CallContextView,
    destination: Seq<char>,
) -> SettlementView {
    match asset {
        AssetReferenceView::Local { token_id } => match ledger {
            None => SettlementView::Reassign { token_id, receiver_id: destination },
            Some(account_id) => SettlementView::LedgerCall {
                account_id,
                method_name: "transfer_from"@,
                from: ctx.current_account_id,
                to: destination,
                token_id,
                deposit: 0,
                gas: GAS,
            },
        },
        AssetReferenceView::Remote { registry_account, token_id, approval_id, recorded_owner } => {
            SettlementView::RegistryCall {
                account_id: registry_account,
                method_name: "nft_transfer"@,
                receiver_id: destination,
                token_id,
                approval_id,
                memo: ""@,
                deposit: 1,
                gas: GAS_FOR_NFT_TRANSFER_CALL,
            }
        },
    }
}

/// What a claim that is served leaves to do.
pub open spec fn receipt_for(
    asset: AssetReferenceView,
    ledger: Option<Seq<char>>,
    ctx: CallContextView,
    destination: Seq<char>,
) -> ClaimReceiptView {
    ClaimReceiptView {
        revocation: PermitRevocationView {
            account_id: ctx.current_account_id,
            public_key: ctx.signer_account_pk,
        },
        settlement: settlement_for(asset, ledger, ctx, destination),
    }
}

/// The result of a claim: the receipt for the asset under the signing key,
/// or the refusal.
pub open spec fn claim_outcome(
    registry: Map<Seq<u8>, AssetReferenceView>,
    ledger: Option<Seq<char>>,
    ctx: CallContextView,
    destination: Seq<char>,
) -> Result<ClaimReceiptView, DropError> {
    match claim_refusal(registry, ctx, destination) {
        Some(e) => Err(e),
        None => Ok(receipt_for(registry[ctx.signer_account_pk], ledger, ctx, destination)),
    }
}

/// The registry after a claim: without the record of the signing key, or
/// unchanged where the claim is refused.
pub open spec fn registry_after_claim(
    registry: Map<Seq<u8>, AssetReferenceView>,
    ctx: CallContextView,
    destination: Seq<char>,
) -> Map<Seq<u8>, AssetReferenceView> {
    if claim_refusal(registry, ctx, destination) is None {
        registry.remove(ctx.signer_account_pk)
    } else {
        registry
    }
}

/// The view of the result of a claim.
pub open spec fn claimed(result: Result<ClaimReceipt, DropError>) -> Result<
    ClaimReceiptView,
    DropError,
> {
    match result {
        Ok(receipt) => Ok(receipt@),
        Err(e) => Err(e),
    }
}

/// The view of an optional ledger account.
pub open spec fn ledger_view(ledger: Option<String>) -> Option<Seq<char>> {
    match ledger {
        Some(account_id) => Some(account_id@),
        None => None,
    }
}

/// Builds the settlement of `asset` in favour of `destination`.
pub fn settle(
    asset: AssetReference,
    ledger: &Option<String>,
    ctx: &CallContext,
    destination: String,
) -> (settlement: Settlement)
    ensures
        settlement@ == settlement_for(asset@, ledger_view(*ledger), ctx@, destination@),
{
    match asset {
        AssetReference::Local { token_id } => match ledger {
            None => Settlement::Reassign { token_id, receiver_id: destination },
            Some(account_id) => Settlement::LedgerCall {
                account_id: account_id.clone(),
                method_name: "transfer_from".to_owned(),
                from: ctx.current_account_id.clone(),
                to: destination,
                token_id,
                deposit: 0,
                gas: GAS,
            },
        },
        AssetReference::Remote { registry_account, token_id, approval_id, recorded_owner } => {
            Settlement::RegistryCall {
                account_id: registry_account,
                method_name: "nft_transfer".to_owned(),
                receiver_id: destination,
                token_id,
                approval_id,
                memo: "".to_owned(),
                deposit: 1,
                gas: GAS_FOR_NFT_TRANSFER_CALL,
            }
        },
    }
}

/// Claims the capability of the key that signed the call, in favour of
/// `destination`.
///
/// Refused with `ForeignCaller` unless the contract's own account makes the
/// call; else with `InvalidAccountId` unless `destination` has the syntax of
/// an account identifier; else with `UnknownKey` unless the registry holds a
/// record under the signing key. A refused claim leaves the registry as it
/// was. A claim that is served removes the record and returns what is left to
/// do: the permit of the signing key to revoke and the settlement of the
/// recorded asset to dispatch.
pub fn claim(
    registry: &mut Registry,
    ledger: &Option<String>,
    ctx: &CallContext,
    destination: String,
) -> (result: Result<ClaimReceipt, DropError>)
    ensures
        final(registry)@ == registry_after_claim(old(registry)@, ctx@, destination@),
        claimed(result) == claim_outcome(
            old(registry)@,
            ledger_view(*ledger),
            ctx@,
            destination@,
        ),
{
    if ctx.predecessor_account_id != ctx.current_account_id {
        return Err(DropError::ForeignCaller);
    }
    if !is_valid_account_id(destination.as_str()) {
        return Err(DropError::InvalidAccountId);
    }
    match registry.remove(&ctx.signer_account_pk) {
        None => Err(DropError::UnknownKey),
        Some(asset) => {
            let revocation = PermitRevocation {
                account_id: ctx.current_account_id.clone(),
                public_key: copy_bytes(&ctx.signer_account_pk),
            };
            let settlement = settle(asset, ledger, ctx, destination);
            Ok(ClaimReceipt { revocation, settlement })
        },
    }
}

} // verus!
