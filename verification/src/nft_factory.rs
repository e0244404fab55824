//! Deploying a token contract to an account of its own.
//!
//! The factory decides whether a deployment is paid for and what it
//! consists of. Creating the account, loading the code and calling the
//! initialiser are left to the caller, as the parts of a [`Deployment`].

use vstd::prelude::*;
use vstd::string::StringExecFns;
use crate::account::{is_valid_account_id, valid_account_id};
use crate::host::{CallContext, CallContextView};
use crate::key::copy_bytes;

verus! {

/// The deposit that the call of the initialiser carries.
pub const NO_DEPOSIT: u128 = 0;

/// The balance that a new token contract starts with, to pay for its storage.
pub const NFT_INIT_BALANCE: u128 = 5_000_000_000_000_000_000_000_000;

/// The gas given to the initialiser of a new token contract.
pub const NFT_NEW: u64 = 1_000_000_000_000_000;

/// Why a deployment is refused.
#[derive(Clone, Copy, Debug, PartialEq, Eq, Structural)]
pub enum DeployError {
    /// The owner does not have the syntax of an account identifier.
    InvalidOwner,
    /// The attached deposit is below the initial balance.
    InsufficientDeposit,
}

impl DeployError {
    /// The text of this refusal.
    pub open spec fn spec_message(self) -> Seq<char> {
        match self {
            DeployError::InvalidOwner => "The account ID is invalid"@,
            DeployError::InsufficientDeposit => "Not enough attached deposit to complete nft creation"@,
        }
    }

    /// The text of this refusal, for a host that aborts a refused call with a
    /// message.
    pub fn message(self) -> (text: String)
        ensures
            text@ == self.spec_message(),
    {
        match self {
            DeployError::InvalidOwner => "The account ID is invalid".to_owned(),
            DeployError::InsufficientDeposit => "Not enough attached deposit to complete nft creation".to_owned(),
        }
    }
}

/// What a deployment consists of, in this order: create `account_id`, move
/// `initial_balance` to it, give `full_access_key` full access to it, load
/// the code of the token contract, and call `init_method` with `owner_id`
/// and the metadata of the collection, with `init_deposit` and `init_gas`.
#[derive(Debug, PartialEq, Eq)]
pub struct Deployment {
    pub account_id: String,
    pub initial_balance: u128,
    pub full_access_key: Vec<u8>,
    pub init_method: String,
    pub owner_id: String,
    pub init_deposit: u128,
    pub init_gas: u64,
}

/// A deployment as a mathematical value.
pub struct DeploymentView {
    pub account_id: Seq<char>,
    pub initial_balance: u128,
    pub full_access_key: Seq<u8>,
    pub init_method: Seq<char>,
    pub owner_id: Seq<char>,
    pub init_deposit: u128,
    pub init_gas: u64,
}

impl View for Deployment {
    type V = DeploymentView;

    open spec fn view(&self) -> DeploymentView {
        DeploymentView {
            account_id: self.account_id@,
            initial_balance: self.initial_balance,
            full_access_key: self.full_access_key@,
            init_method: self.init_method@,
            owner_id: self.owner_id@,
            init_deposit: self.init_deposit,
            init_gas: self.init_gas,
        }
    }
}

/// The account of a contract named `contract_name`: a sub-account of the
/// factory's own.
pub open spec fn sub_account(contract_name: Seq<char>, factory: Seq<char>) -> Seq<char> {
    contract_name + "."@ + factory
}

/// The result of a deployment: its parts, or the refusal. The owner is
/// tested first, then the deposit.
pub open spec fn deploy_outcome(
    ctx: CallContextView,
    contract_name: Seq<char>,
    owner_id: Seq<char>,
) -> Result<DeploymentView, DeployError> {
    if !valid_account_id(owner_id) {
        Err(DeployError::InvalidOwner)
    } else if ctx.attached_deposit < NFT_INIT_BALANCE {
        Err(DeployError::InsufficientDeposit)
    } else {
        Ok(
            DeploymentView {
                account_id: sub_account(contract_name, ctx.current_account_id),
                initial_balance: NFT_INIT_BALANCE,
                full_access_key: ctx.signer_account_pk,
                init_method: "new"@,
                owner_id,
                init_deposit: NO_DEPOSIT,
                init_gas: NFT_NEW,
            },
        )
    }
}

/// The view of the result of a deployment.
pub open spec fn deployed(result: Result<Deployment, DeployError>) -> Result<
    DeploymentView,
    DeployError,
> {
    match result {
        Ok(deployment) => Ok(deployment@),
        Err(e) => Err(e),
    }
}

/// The factory of token contracts. It keeps no state.
#[derive(Debug)]
pub struct Contract {}

impl Contract {
    /// Plans the deployment of a token contract named `contract_name` for
    /// `owner_id`.
    ///
    /// Refused with `InvalidOwner` where `owner_id` does not have the syntax
    /// of an account identifier, else with `InsufficientDeposit` where the
    /// attached deposit is below [`NFT_INIT_BALANCE`]. Otherwise the new
    /// account is `contract_name`, a dot and the factory's own account; the
    /// key that signed the call gets full access to it.
    pub fn deploy_nft(&mut self, ctx: &CallContext, contract_name: String, owner_id: String) -> (result:
        Result<Deployment, DeployError>)
        ensures
            deployed(result) == deploy_outcome(ctx@, contract_name@, owner_id@),
    {
        if !is_valid_account_id(owner_id.as_str()) {
            return Err(DeployError::InvalidOwner);
        }
        if ctx.attached_deposit < NFT_INIT_BALANCE {
            return Err(DeployError::InsufficientDeposit);
        }
        let mut account_id = contract_name;
        account_id.append(".");
        account_id.append(ctx.current_account_id.as_str());
        Ok(
            Deployment {
                account_id,
                initial_balance: NFT_INIT_BALANCE,
                full_access_key: copy_bytes(&ctx.signer_account_pk),
                init_method: "new".to_owned(),
                owner_id,
                init_deposit: NO_DEPOSIT,
                init_gas: NFT_NEW,
            },
        )
    }
}

} // verus!
