use web3games::host::CallContext;
use web3games::nft_factory::{
    Contract, DeployError, Deployment, NFT_INIT_BALANCE, NFT_NEW, NO_DEPOSIT,
};

fn paying(deposit: u128) -> CallContext {
    CallContext {
        current_account_id: "factory.testnet".to_string(),
        predecessor_account_id: "zombie.testnet".to_string(),
        signer_account_pk: vec![0, 1, 2],
        attached_deposit: deposit,
    }
}

#[test]
fn deployment_has_its_parts() {
    let mut factory = Contract {};
    let deployment = factory
        .deploy_nft(&paying(NFT_INIT_BALANCE), "heroes".to_string(), "zombie.testnet".to_string())
        .unwrap();
    assert_eq!(
        deployment,
        Deployment {
            account_id: "heroes.factory.testnet".to_string(),
            initial_balance: 5_000_000_000_000_000_000_000_000,
            full_access_key: vec![0, 1, 2],
            init_method: "new".to_string(),
            owner_id: "zombie.testnet".to_string(),
            init_deposit: 0,
            init_gas: 1_000_000_000_000_000,
        }
    );
    assert_eq!(NO_DEPOSIT, 0);
    assert_eq!(NFT_NEW, 1_000_000_000_000_000);
}

#[test]
fn deployment_is_refused_without_the_deposit() {
    let mut factory = Contract {};
    assert_eq!(
        factory.deploy_nft(
            &paying(NFT_INIT_BALANCE - 1),
            "heroes".to_string(),
            "zombie.testnet".to_string()
        ),
        Err(DeployError::InsufficientDeposit)
    );
    assert_eq!(
        factory.deploy_nft(&paying(0), "heroes".to_string(), "zombie.testnet".to_string()),
        Err(DeployError::InsufficientDeposit)
    );
    assert!(factory
        .deploy_nft(&paying(u128::MAX), "heroes".to_string(), "zombie.testnet".to_string())
        .is_ok());
}

#[test]
fn deployment_is_refused_for_an_invalid_owner() {
    let mut factory = Contract {};
    assert_eq!(
        factory.deploy_nft(&paying(NFT_INIT_BALANCE), "heroes".to_string(), "Zombie".to_string()),
        Err(DeployError::InvalidOwner)
    );
    // The owner is tested before the deposit.
    assert_eq!(
        factory.deploy_nft(&paying(0), "heroes".to_string(), "".to_string()),
        Err(DeployError::InvalidOwner)
    );
}

#[test]
fn deployment_does_not_test_the_name() {
    let mut factory = Contract {};
    let deployment = factory
        .deploy_nft(&paying(NFT_INIT_BALANCE), "".to_string(), "zombie.testnet".to_string())
        .unwrap();
    assert_eq!(deployment.account_id, ".factory.testnet");
}

#[test]
fn deployment_refusals_have_their_texts() {
    assert_eq!(DeployError::InvalidOwner.message(), "The account ID is invalid");
    assert_eq!(
        DeployError::InsufficientDeposit.message(),
        "Not enough attached deposit to complete nft creation"
    );
}
