//! Drop and claim: single-use capabilities for tokens.
//!
//! A token is dropped by recording a reference to it under a fresh public
//! key, and claimed, once, by whoever signs a call with the matching private
//! key. The library holds the rules of this protocol and of the contracts
//! around it, as functions from plain values to plain values:
//!
//! * [`capability`]: asset references and the registry of unclaimed
//!   capabilities;
//! * [`issuer`], [`bridge`], [`coordinator`]: issuing a capability, issuing
//!   one on the notification of an approval, and claiming one;
//! * [`history`]: what holds of every sequence of calls;
//! * [`drop`], [`nft_drop`]: the two drop contracts, for tokens of the
//!   contract's own ledger and for tokens of other registries;
//! * [`nft`]: a ledger of tokens;
//! * [`nft_factory`]: the deployment of a token contract;
//! * [`host`]: what a call reads from the host and what it asks of the host;
//! * [`account`], [`key`], [`assoc`], [`error`]: account identifiers, public
//!   keys, the finite map behind every table, and refusals.
//!
//! Nothing here talks to the host: a call takes a [`host::CallContext`] and
//! returns instructions, and a refused call changes nothing.

pub mod account;
pub mod assoc;
pub mod bridge;
pub mod capability;
pub mod coordinator;
pub mod drop;
pub mod error;
pub mod history;
pub mod host;
pub mod issuer;
pub mod key;
pub mod nft;
pub mod nft_drop;
pub mod nft_factory;
