//! Why a call on the drop protocol is refused.

use vstd::prelude::*;

verus! {

/// The three classes of refusal.
#[derive(Clone, Copy, Debug, PartialEq, Eq, Structural)]
pub enum ErrorKind {
    /// An argument is malformed.
    Validation,
    /// The caller may not make this call.
    Authorization,
    /// The key holds no capability: never issued, or claimed already.
    NotFound,
}

/// A refused call. No refused call changes the registry.
#[derive(Clone, Copy, Debug, PartialEq, Eq, Structural)]
pub enum DropError {
    /// The public key to issue for has no bytes.
    EmptyPublicKey,
    /// The deposit attached to an issuance does not cover the key allowance.
    InsufficientDeposit,
    /// The destination of a claim does not have the syntax of an account
    /// identifier.
    InvalidAccountId,
    /// The owner of a new drop does not have the syntax of an account
    /// identifier.
    InvalidOwner,
    /// The message of an approval does not decode to a public key.
    MalformedMessage,
    /// A claim that the contract's own account did not make.
    ForeignCaller,
    /// A claim signed with a key that holds no capability.
    UnknownKey,
}

impl DropError {
    /// The class of this refusal.
    pub open spec fn spec_kind(self) -> ErrorKind {
        match self {
            DropError::EmptyPublicKey => ErrorKind::Validation,
            DropError::InsufficientDeposit => ErrorKind::Validation,
            DropError::InvalidAccountId => ErrorKind::Validation,
            DropError::InvalidOwner => ErrorKind::Validation,
            DropError::MalformedMessage => ErrorKind::Validation,
            DropError::ForeignCaller => ErrorKind::Authorization,
            DropError::UnknownKey => ErrorKind::NotFound,
        }
    }

    /// The class of this refusal.
    #[verifier::when_used_as_spec(spec_kind)]
    pub fn kind(self) -> (k: ErrorKind)
        ensures
            k == self.spec_kind(),
    {
        match self {
            DropError::EmptyPublicKey => ErrorKind::Validation,
            DropError::InsufficientDeposit => ErrorKind::Validation,
            DropError::InvalidAccountId => ErrorKind::Validation,
            DropError::InvalidOwner => ErrorKind::Validation,
            DropError::MalformedMessage => ErrorKind::Validation,
            DropError::ForeignCaller => ErrorKind::Authorization,
            DropError::UnknownKey => ErrorKind::NotFound,
        }
    }

    /// The text of this refusal.
    pub open spec fn spec_message(self) -> Seq<char> {
        match self {
            DropError::EmptyPublicKey => "Public key is empty"@,
            DropError::InsufficientDeposit => "Attached deposit must cover ACCESS_KEY_ALLOWANCE"@,
            DropError::InvalidAccountId => "Invalid account id"@,
            DropError::InvalidOwner => "Owner's account ID is invalid."@,
            DropError::MalformedMessage => "Valid send args"@,
            DropError::ForeignCaller => "Claim only can come from this account"@,
            DropError::UnknownKey => "Unexpected public key"@,
        }
    }

    /// The text of this refusal, for a host that aborts a refused call with a
    /// message.
    pub fn message(self) -> (text: String)
        ensures
            text@ == self.spec_message(),
    {
        match self {
            DropError::EmptyPublicKey => "Public key is empty".to_owned(),
            DropError::InsufficientDeposit => "Attached deposit must cover ACCESS_KEY_ALLOWANCE".to_owned(),
            DropError::InvalidAccountId => "Invalid account id".to_owned(),
            DropError::InvalidOwner => "Owner's account ID is invalid.".to_owned(),
            DropError::MalformedMessage => "Valid send args".to_owned(),
            DropError::ForeignCaller => "Claim only can come from this account".to_owned(),
            DropError::UnknownKey => "Unexpected public key".to_owned(),
        }
    }
}

} // verus!
