//! A ledger of tokens: who owns which, and who may move it.
//!
//! [`Near721`] keeps five tables: the owner of each token, the balance of
//! each account, the account approved for each token, the operators that an
//! owner approved for all of its tokens, and the URI of each token. Every
//! operation is stated over the view of the ledger, a [`LedgerView`], and a
//! refused operation changes nothing.

use vstd::prelude::*;
use crate::account::{is_valid_account_id, valid_account_id};
use crate::assoc::{collect, AssocMap};
use crate::host::CallContext;

verus! {

/// The identifier of a token.
pub type TokenId = u64;

/// The account that stands for no account: a token that it owns does not
/// exist, and no token is minted to it.
pub open spec fn zero_address() -> Seq<char> {
    "alice.testnet"@
}

/// Why an operation on the ledger is refused.
#[derive(Clone, Copy, Debug, PartialEq, Eq, Structural)]
pub enum LedgerError {
    /// The owner of a new ledger does not have the syntax of an account
    /// identifier.
    InvalidOwner,
    /// The token has no owner on record.
    NoOwner,
    /// The approved account was asked for a token that does not exist.
    ApprovedQueryForNonexistentToken,
    /// The right to move was asked for a token that does not exist.
    OperatorQueryForNonexistentToken,
    /// The token has no URI.
    NoUri,
    /// The account to approve is the owner of the token.
    ApprovalToCurrentOwner,
    /// The caller of an approval neither owns the token nor is an operator
    /// of its owner.
    ApproveCallerNotAuthorized,
    /// The operator to approve is the caller.
    ApproveToCaller,
    /// The receiver of a new token is the zero address.
    MintToZeroAddress,
    /// The token to mint exists.
    TokenAlreadyMinted,
    /// The caller of a transfer may not move the token.
    TransferCallerNotAuthorized,
    /// The receiver of a transfer is the empty account.
    TransferToZeroAddress,
    /// The URI was to be set for a token that does not exist.
    UriQueryForNonexistentToken,
    /// The caller who sets the URI does not own the token.
    NotOwner,
    /// A balance would pass the largest number that it can hold.
    BalanceOverflow,
    /// A balance would fall below zero.
    BalanceUnderflow,
}

impl LedgerError {
    /// The text of this refusal.
    pub open spec fn spec_message(self) -> Seq<char> {
        match self {
            LedgerError::InvalidOwner => "Owner's account ID is invalid."@,
            LedgerError::NoOwner => "No owner of the token ID specified"@,
            LedgerError::ApprovedQueryForNonexistentToken => "approved query for nonexistent token"@,
            LedgerError::OperatorQueryForNonexistentToken => "operator query for nonexistent token"@,
            LedgerError::NoUri => "no URI"@,
            LedgerError::ApprovalToCurrentOwner => "approval to current owner."@,
            LedgerError::ApproveCallerNotAuthorized => "NEAR721: approve caller is not owner nor approved for all"@,
            LedgerError::ApproveToCaller => "approve to caller"@,
            LedgerError::MintToZeroAddress => "mint to the zero address"@,
            LedgerError::TokenAlreadyMinted => "token already minted"@,
            LedgerError::TransferCallerNotAuthorized => "transfer caller is not owner nor approved"@,
            LedgerError::TransferToZeroAddress => "transfer to the zero address"@,
            LedgerError::UriQueryForNonexistentToken => "URI query for nonexistent token"@,
            LedgerError::NotOwner => "no ownership,can not set URI"@,
            LedgerError::BalanceOverflow => "attempt to add with overflow"@,
            LedgerError::BalanceUnderflow => "attempt to subtract with overflow"@,
        }
    }

    /// The text of this refusal, for a host that aborts a refused call with a
    /// message.
    pub fn message(self) -> (text: String)
        ensures
            text@ == self.spec_message(),
    {
        match self {
            LedgerError::InvalidOwner => "Owner's account ID is invalid.".to_owned(),
            LedgerError::NoOwner => "No owner of the token ID specified".to_owned(),
            LedgerError::ApprovedQueryForNonexistentToken => "approved query for nonexistent token".to_owned(),
            LedgerError::OperatorQueryForNonexistentToken => "operator query for nonexistent token".to_owned(),
            LedgerError::NoUri => "no URI".to_owned(),
            LedgerError::ApprovalToCurrentOwner => "approval to current owner.".to_owned(),
            LedgerError::ApproveCallerNotAuthorized => "NEAR721: approve caller is not owner nor approved for all".to_owned(),
            LedgerError::ApproveToCaller => "approve to caller".to_owned(),
            LedgerError::MintToZeroAddress => "mint to the zero address".to_owned(),
            LedgerError::TokenAlreadyMinted => "token already minted".to_owned(),
            LedgerError::TransferCallerNotAuthorized => "transfer caller is not owner nor approved".to_owned(),
            LedgerError::TransferToZeroAddress => "transfer to the zero address".to_owned(),
            LedgerError::UriQueryForNonexistentToken => "URI query for nonexistent token".to_owned(),
            LedgerError::NotOwner => "no ownership,can not set URI".to_owned(),
            LedgerError::BalanceOverflow => "attempt to add with overflow".to_owned(),
            LedgerError::BalanceUnderflow => "attempt to subtract with overflow".to_owned(),
        }
    }
}

/// The five tables of a ledger, as mathematical maps.
pub struct LedgerView {
    /// The owner on record of each token.
    pub owners: Map<TokenId, Seq<char>>,
    /// The balance on record of each account.
    pub balances: Map<Seq<char>, u128>,
    /// The account approved for each token.
    pub token_approvals: Map<TokenId, Seq<char>>,
    /// The pairs of an owner and an operator on record, each with the flag
    /// that it was recorded with.
    pub operator_approvals: Map<(Seq<char>, Seq<char>), bool>,
    /// The URI of each token.
    pub uri: Map<TokenId, Seq<char>>,
}

impl LedgerView {
    /// The ledger without any record.
    pub open spec fn empty() -> LedgerView {
        LedgerView {
            owners: Map::empty(),
            balances: Map::empty(),
            token_approvals: Map::empty(),
            operator_approvals: Map::empty(),
            uri: Map::empty(),
        }
    }

    /// The token exists: it has an owner on record, who is neither the empty
    /// account nor the zero address.
    pub open spec fn has_token(self, token_id: TokenId) -> bool {
        &&& self.owners.contains_key(token_id)
        &&& self.owners[token_id] != zero_address()
        &&& self.owners[token_id].len() != 0
    }

    /// The owner on record of the token, whether the token exists or not.
    pub open spec fn owner_of(self, token_id: TokenId) -> Result<Seq<char>, LedgerError> {
        if self.owners.contains_key(token_id) {
            Ok(self.owners[token_id])
        } else {
            Err(LedgerError::NoOwner)
        }
    }

    /// The account approved for the token, empty where there is none.
    pub open spec fn approved(self, token_id: TokenId) -> Seq<char> {
        if self.token_approvals.contains_key(token_id) {
            self.token_approvals[token_id]
        } else {
            Seq::empty()
        }
    }

    /// The account approved for a token that exists.
    pub open spec fn get_approved(self, token_id: TokenId) -> Result<Seq<char>, LedgerError> {
        if self.has_token(token_id) {
            Ok(self.approved(token_id))
        } else {
            Err(LedgerError::ApprovedQueryForNonexistentToken)
        }
    }

    /// The pair of `owner` and `operator` is on record, whatever its flag.
    pub open spec fn is_approved_for_all(self, owner: Seq<char>, operator: Seq<char>) -> bool {
        self.operator_approvals.contains_key((owner, operator))
    }

    /// `spender` owns the token, is approved for it, or is an operator of
    /// its owner. Where no account is approved for the token, the empty
    /// account counts as approved.
    pub open spec fn may_move(self, spender: Seq<char>, token_id: TokenId) -> bool {
        ||| spender == self.owners[token_id]
        ||| self.approved(token_id) == spender
        ||| self.is_approved_for_all(self.owners[token_id], spender)
    }

    /// Whether `spender` may move a token that exists.
    pub open spec fn is_approved_or_owner(self, spender: Seq<char>, token_id: TokenId) -> Result<
        bool,
        LedgerError,
    > {
        if self.has_token(token_id) {
            Ok(self.may_move(spender, token_id))
        } else {
            Err(LedgerError::OperatorQueryForNonexistentToken)
        }
    }

    /// The balance on record of `owner`, zero where there is none.
    pub open spec fn balance_of(self, owner: Seq<char>) -> u128 {
        if self.balances.contains_key(owner) {
            self.balances[owner]
        } else {
            0
        }
    }

    /// The URI of the token.
    pub open spec fn get_uri(self, token_id: TokenId) -> Result<Seq<char>, LedgerError> {
        if self.uri.contains_key(token_id) {
            Ok(self.uri[token_id])
        } else {
            Err(LedgerError::NoUri)
        }
    }

    /// Why `caller` may not approve `to` for the token, if so.
    pub open spec fn approve_refusal(self, caller: Seq<char>, to: Seq<char>, token_id: TokenId) -> Option<
        LedgerError,
    > {
        if !self.owners.contains_key(token_id) {
            Some(LedgerError::NoOwner)
        } else if to == self.owners[token_id] {
            Some(LedgerError::ApprovalToCurrentOwner)
        } else if !(self.owners[token_id] == caller || self.is_approved_for_all(
            self.owners[token_id],
            caller,
        )) {
            Some(LedgerError::ApproveCallerNotAuthorized)
        } else {
            None
        }
    }

    /// The ledger after `caller` approves `to` for the token.
    pub open spec fn approve(self, caller: Seq<char>, to: Seq<char>, token_id: TokenId) -> LedgerView {
        if self.approve_refusal(caller, to, token_id) is None {
            LedgerView { token_approvals: self.token_approvals.insert(token_id, to), ..self }
        } else {
            self
        }
    }

    /// Why `caller` may not record `operator`, if so.
    pub open spec fn set_approval_refusal(self, caller: Seq<char>, operator: Seq<char>) -> Option<
        LedgerError,
    > {
        if operator == caller {
            Some(LedgerError::ApproveToCaller)
        } else {
            None
        }
    }

    /// The ledger after `caller` records `operator` with the flag
    /// `approved`.
    pub open spec fn set_approval_for_all(
        self,
        caller: Seq<char>,
        operator: Seq<char>,
        approved: bool,
    ) -> LedgerView {
        if self.set_approval_refusal(caller, operator) is None {
            LedgerView {
                operator_approvals: self.operator_approvals.insert((caller, operator), approved),
                ..self
            }
        } else {
            self
        }
    }

    /// Why `caller` may not mint the token to `to`, if so.
    pub open spec fn mint_refusal(self, caller: Seq<char>, to: Seq<char>, token_id: TokenId) -> Option<
        LedgerError,
    > {
        if to == zero_address() {
            Some(LedgerError::MintToZeroAddress)
        } else if self.has_token(token_id) {
            Some(LedgerError::TokenAlreadyMinted)
        } else if self.balance_of(caller) == u128::MAX {
            Some(LedgerError::BalanceOverflow)
        } else {
            None
        }
    }

    /// The ledger after `caller` mints the token to `to`: `to` owns the
    /// token, and the balance of `to` is one more than the balance of
    /// `caller` was.
    pub open spec fn mint(self, caller: Seq<char>, to: Seq<char>, token_id: TokenId) -> LedgerView {
        if self.mint_refusal(caller, to, token_id) is None {
            LedgerView {
                balances: self.balances.insert(to, (self.balance_of(caller) + 1) as u128),
                owners: self.owners.insert(token_id, to),
                ..self
            }
        } else {
            self
        }
    }

    /// Why `caller` may not burn the token, if so: the token has no owner on
    /// record, the approval for it cannot be cleared, or the balance of
    /// `caller` is zero.
    pub open spec fn burn_refusal(self, caller: Seq<char>, token_id: TokenId) -> Option<LedgerError> {
        if self.approve_refusal(caller, Seq::empty(), token_id) is Some {
            self.approve_refusal(caller, Seq::empty(), token_id)
        } else if self.balance_of(caller) == 0 {
            Some(LedgerError::BalanceUnderflow)
        } else {
            None
        }
    }

    /// The ledger after `caller` burns the token: the approval for it is
    /// cleared, the balance of its owner is one less than the balance of
    /// `caller` was, and it has no owner on record.
    pub open spec fn burn(self, caller: Seq<char>, token_id: TokenId) -> LedgerView {
        if self.burn_refusal(caller, token_id) is None {
            LedgerView {
                token_approvals: self.token_approvals.insert(token_id, Seq::empty()),
                balances: self.balances.insert(
                    self.owners[token_id],
                    (self.balance_of(caller) - 1) as u128,
                ),
                owners: self.owners.remove(token_id),
                ..self
            }
        } else {
            self
        }
    }

    /// Why `caller` may not move the token from `from` to `to`, if so.
    pub open spec fn transfer_refusal(
        self,
        caller: Seq<char>,
        from: Seq<char>,
        to: Seq<char>,
        token_id: TokenId,
    ) -> Option<LedgerError> {
        if !self.has_token(token_id) {
            Some(LedgerError::OperatorQueryForNonexistentToken)
        } else if !self.may_move(caller, token_id) {
            Some(LedgerError::TransferCallerNotAuthorized)
        } else if to.len() == 0 {
            Some(LedgerError::TransferToZeroAddress)
        } else if self.approve_refusal(caller, Seq::empty(), token_id) is Some {
            self.approve_refusal(caller, Seq::empty(), token_id)
        } else if self.balance_of(from) == 0 {
            Some(LedgerError::BalanceUnderflow)
        } else if self.balance_of(from) == u128::MAX {
            Some(LedgerError::BalanceOverflow)
        } else {
            None
        }
    }

    /// The ledger after `caller` moves the token from `from` to `to`: the
    /// approval for it is cleared, `to` owns it, the balance of `from` is one
    /// less than it was, and the balance of `to` is then set to one more than
    /// the balance of `from` was.
    pub open spec fn transfer_from(
        self,
        caller: Seq<char>,
        from: Seq<char>,
        to: Seq<char>,
        token_id: TokenId,
    ) -> LedgerView {
        if self.transfer_refusal(caller, from, to, token_id) is None {
            LedgerView {
                token_approvals: self.token_approvals.insert(token_id, Seq::empty()),
                balances: self.balances.insert(from, (self.balance_of(from) - 1) as u128).insert(
                    to,
                    (self.balance_of(from) + 1) as u128,
                ),
                owners: self.owners.insert(token_id, to),
                ..self
            }
        } else {
            self
        }
    }

    /// Why `caller` may not set the URI of the token, if so.
    pub open spec fn token_uri_refusal(self, caller: Seq<char>, token_id: TokenId) -> Option<
        LedgerError,
    > {
        if !self.has_token(token_id) {
            Some(LedgerError::UriQueryForNonexistentToken)
        } else if caller != self.owners[token_id] {
            Some(LedgerError::NotOwner)
        } else {
            None
        }
    }

    /// The ledger after `caller` sets the URI of the token.
    pub open spec fn token_uri(self, caller: Seq<char>, token_id: TokenId, uri: Seq<char>) -> LedgerView {
        if self.token_uri_refusal(caller, token_id) is None {
            LedgerView { uri: self.uri.insert(token_id, uri), ..self }
        } else {
            self
        }
    }
}

/// The result of an operation that changes the ledger: done, or the refusal.
pub open spec fn done_unless(refusal: Option<LedgerError>) -> Result<(), LedgerError> {
    match refusal {
        Some(e) => Err(e),
        None => Ok(()),
    }
}

/// The view of a result that holds a text.
pub open spec fn text(result: Result<String, LedgerError>) -> Result<Seq<char>, LedgerError> {
    match result {
        Ok(s) => Ok(s@),
        Err(e) => Err(e),
    }
}

/// The operations of a token ledger. The caller of an operation is the
/// account that made the call, `predecessor_account_id` of its context.
pub trait ERC721 {
    /// The tables of the ledger.
    spec fn ledger(&self) -> LedgerView;

    /// The owner on record of the token; refused with `NoOwner` where it has
    /// none.
    fn owner_of(&self, token_id: TokenId) -> (result: Result<String, LedgerError>)
        ensures
            text(result) == self.ledger().owner_of(token_id),
    ;

    /// The account approved for the token, empty where there is none;
    /// refused where the token does not exist.
    fn get_approved(&self, token_id: TokenId) -> (result: Result<String, LedgerError>)
        ensures
            text(result) == self.ledger().get_approved(token_id),
    ;

    /// Whether `owner` has `operator` on record.
    fn is_approved_for_all(&self, owner: String, operator: String) -> (result: bool)
        ensures
            result == self.ledger().is_approved_for_all(owner@, operator@),
    ;

    /// Whether `spender` may move the token; refused where the token does
    /// not exist.
    fn is_approved_or_owner(&self, spender: String, token_id: TokenId) -> (result: Result<
        bool,
        LedgerError,
    >)
        ensures
            result == self.ledger().is_approved_or_owner(spender@, token_id),
    ;

    /// The balance on record of `owner`.
    fn balance_of(&self, owner: String) -> (result: u128)
        ensures
            result == self.ledger().balance_of(owner@),
    ;

    /// Whether the token exists.
    fn token_exists(&self, token_id: TokenId) -> (result: bool)
        ensures
            result == self.ledger().has_token(token_id),
    ;

    /// The URI of the token; refused with `NoUri` where it has none.
    fn get_uri(&self, token_id: TokenId) -> (result: Result<String, LedgerError>)
        ensures
            text(result) == self.ledger().get_uri(token_id),
    ;

    /// Approves `to` for the token, or refuses and changes nothing.
    fn approve(&mut self, ctx: &CallContext, to: String, token_id: TokenId) -> (result: Result<
        (),
        LedgerError,
    >)
        ensures
            final(self).ledger() == old(self).ledger().approve(
                ctx.predecessor_account_id@,
                to@,
                token_id,
            ),
            result == done_unless(
                old(self).ledger().approve_refusal(ctx.predecessor_account_id@, to@, token_id),
            ),
    ;

    /// Records `operator` for the caller with the flag `approved`, or
    /// refuses and changes nothing.
    fn set_approval_for_all(&mut self, ctx: &CallContext, operator: String, approved: bool) -> (result:
        Result<(), LedgerError>)
        ensures
            final(self).ledger() == old(self).ledger().set_approval_for_all(
                ctx.predecessor_account_id@,
                operator@,
                approved,
            ),
            result == done_unless(
                old(self).ledger().set_approval_refusal(ctx.predecessor_account_id@, operator@),
            ),
    ;

    /// Mints the token to `to`, or refuses and changes nothing.
    fn mint(&mut self, ctx: &CallContext, to: String, token_id: TokenId) -> (result: Result<
        (),
        LedgerError,
    >)
        ensures
            final(self).ledger() == old(self).ledger().mint(
                ctx.predecessor_account_id@,
                to@,
                token_id,
            ),
            result == done_unless(
                old(self).ledger().mint_refusal(ctx.predecessor_account_id@, to@, token_id),
            ),
    ;

    /// Burns the token, or refuses and changes nothing.
    fn burn(&mut self, ctx: &CallContext, token_id: TokenId) -> (result: Result<(), LedgerError>)
        ensures
            final(self).ledger() == old(self).ledger().burn(ctx.predecessor_account_id@, token_id),
            result == done_unless(
                old(self).ledger().burn_refusal(ctx.predecessor_account_id@, token_id),
            ),
    ;

    /// Moves the token from `from` to `to`, or refuses and changes nothing.
    fn transfer_from(&mut self, ctx: &CallContext, from: String, to: String, token_id: TokenId) -> (result:
        Result<(), LedgerError>)
        ensures
            final(self).ledger() == old(self).ledger().transfer_from(
                ctx.predecessor_account_id@,
                from@,
                to@,
                token_id,
            ),
            result == done_unless(
                old(self).ledger().transfer_refusal(
                    ctx.predecessor_account_id@,
                    from@,
                    to@,
                    token_id,
                ),
            ),
    ;

    /// Sets the URI of the token, or refuses and changes nothing.
    fn token_uri(&mut self, ctx: &CallContext, token_id: TokenId, uri: String) -> (result: Result<
        (),
        LedgerError,
    >)
        ensures
            final(self).ledger() == old(self).ledger().token_uri(
                ctx.predecessor_account_id@,
                token_id,
                uri@,
            ),
            result == done_unless(
                old(self).ledger().token_uri_refusal(ctx.predecessor_account_id@, token_id),
            ),
    ;
}

/// A token ledger.
#[derive(Debug)]
pub struct Near721 {
    owners: AssocMap<TokenId, String>,
    balances: AssocMap<String, u128>,
    token_approvals: AssocMap<TokenId, String>,
    operator_approvals: AssocMap<(String, String), bool>,
    uri: AssocMap<TokenId, String>,
}

impl View for Near721 {
    type V = LedgerView;

    closed spec fn view(&self) -> LedgerView {
        LedgerView {
            owners: self.owners@,
            balances: self.balances@,
            token_approvals: self.token_approvals@,
            operator_approvals: self.operator_approvals@,
            uri: self.uri@,
        }
    }
}

/// The five tables of a ledger as lists of pairs, for a caller that keeps
/// the ledger between calls. Of two pairs with one key in a list, the earlier
/// one counts.
#[derive(Debug, PartialEq, Eq)]
pub struct LedgerTables {
    pub owners: Vec<(TokenId, String)>,
    pub balances: Vec<(String, u128)>,
    pub token_approvals: Vec<(TokenId, String)>,
    pub operator_approvals: Vec<((String, String), bool)>,
    pub uri: Vec<(TokenId, String)>,
}

impl View for LedgerTables {
    type V = LedgerView;

    open spec fn view(&self) -> LedgerView {
        LedgerView {
            owners: collect(self.owners@),
            balances: collect(self.balances@),
            token_approvals: collect(self.token_approvals@),
            operator_approvals: collect(self.operator_approvals@),
            uri: collect(self.uri@),
        }
    }
}

impl Near721 {
    /// The ledger that holds the records of `tables`.
    pub fn from_tables(tables: LedgerTables) -> (ledger: Near721)
        ensures
            ledger@ == tables@,
    {
        Near721 {
            owners: AssocMap::from_entries(tables.owners),
            balances: AssocMap::from_entries(tables.balances),
            token_approvals: AssocMap::from_entries(tables.token_approvals),
            operator_approvals: AssocMap::from_entries(tables.operator_approvals),
            uri: AssocMap::from_entries(tables.uri),
        }
    }

    /// The records of the ledger as lists of pairs.
    pub fn into_tables(self) -> (tables: LedgerTables)
        ensures
            tables@ == self@,
    {
        LedgerTables {
            owners: self.owners.into_entries(),
            balances: self.balances.into_entries(),
            token_approvals: self.token_approvals.into_entries(),
            operator_approvals: self.operator_approvals.into_entries(),
            uri: self.uri.into_entries(),
        }
    }

    /// A ledger without any record. Refused with `InvalidOwner` where
    /// `owner_id` does not have the syntax of an account identifier.
    pub fn new(owner_id: String) -> (result: Result<Near721, LedgerError>)
        ensures
            match result {
                Ok(ledger) => valid_account_id(owner_id@) && ledger@ == LedgerView::empty(),
                Err(e) => !valid_account_id(owner_id@) && e == LedgerError::InvalidOwner,
            },
    {
        if !is_valid_account_id(owner_id.as_str()) {
            return Err(LedgerError::InvalidOwner);
        }
        Ok(
            Near721 {
                owners: AssocMap::new(),
                balances: AssocMap::new(),
                token_approvals: AssocMap::new(),
                operator_approvals: AssocMap::new(),
                uri: AssocMap::new(),
            },
        )
    }

    /// The balance on record of `owner`.
    fn balance(&self, owner: &String) -> (result: u128)
        ensures
            result == self@.balance_of(owner@),
    {
        match self.balances.get(owner) {
            Some(number) => *number,
            None => 0,
        }
    }

    /// Whether `owner` has `operator` on record.
    fn has_operator(&self, owner: &String, operator: &String) -> (result: bool)
        ensures
            result == self@.is_approved_for_all(owner@, operator@),
    {
        let pair = (owner.clone(), operator.clone());
        self.operator_approvals.contains_key(&pair)
    }

    /// Why `caller` may not approve `to` for the token, if so.
    fn approve_check(&self, caller: &String, to: &String, token_id: TokenId) -> (refusal: Option<
        LedgerError,
    >)
        ensures
            refusal == self@.approve_refusal(caller@, to@, token_id),
    {
        match self.owners.get(&token_id) {
            None => Some(LedgerError::NoOwner),
            Some(owner) => {
                if *to == *owner {
                    Some(LedgerError::ApprovalToCurrentOwner)
                } else if !(*owner == *caller || self.has_operator(owner, caller)) {
                    Some(LedgerError::ApproveCallerNotAuthorized)
                } else {
                    None
                }
            },
        }
    }
}

impl ERC721 for Near721 {
    open spec fn ledger(&self) -> LedgerView {
        self@
    }

    fn owner_of(&self, token_id: TokenId) -> (result: Result<String, LedgerError>) {
        match self.owners.get(&token_id) {
            Some(account) => Ok(account.clone()),
            None => Err(LedgerError::NoOwner),
        }
    }

    fn get_approved(&self, token_id: TokenId) -> (result: Result<String, LedgerError>) {
        if !self.token_exists(token_id) {
            return Err(LedgerError::ApprovedQueryForNonexistentToken);
        }
        match self.token_approvals.get(&token_id) {
            Some(account) => Ok(account.clone()),
            None => Ok(String::new()),
        }
    }

    fn is_approved_for_all(&self, owner: String, operator: String) -> (result: bool) {
        self.has_operator(&owner, &operator)
    }

    fn is_approved_or_owner(&self, spender: String, token_id: TokenId) -> (result: Result<
        bool,
        LedgerError,
    >) {
        if !self.token_exists(token_id) {
            return Err(LedgerError::OperatorQueryForNonexistentToken);
        }
        match self.owners.get(&token_id) {
            None => Err(LedgerError::OperatorQueryForNonexistentToken),
            Some(owner) => {
                let approved = match self.token_approvals.get(&token_id) {
                    Some(account) => *account == spender,
                    None => {
                        assert(spender@.len() == 0 <==> spender@ =~= Seq::<char>::empty());
                        spender.as_str().is_empty()
                    },
                };
                Ok(spender == *owner || approved || self.has_operator(owner, &spender))
            },
        }
    }

    fn balance_of(&self, owner: String) -> (result: u128) {
        self.balance(&owner)
    }

    fn token_exists(&self, token_id: TokenId) -> (result: bool) {
        match self.owners.get(&token_id) {
            Some(owner) => *owner != "alice.testnet".to_owned() && !owner.as_str().is_empty(),
            None => false,
        }
    }

    fn get_uri(&self, token_id: TokenId) -> (result: Result<String, LedgerError>) {
        match self.uri.get(&token_id) {
            Some(uri) => Ok(uri.clone()),
            None => Err(LedgerError::NoUri),
        }
    }

    fn approve(&mut self, ctx: &CallContext, to: String, token_id: TokenId) -> (result: Result<
        (),
        LedgerError,
    >) {
        match self.approve_check(&ctx.predecessor_account_id, &to, token_id) {
            Some(e) => Err(e),
            None => {
                let _ = self.token_approvals.insert(token_id, to);
                Ok(())
            },
        }
    }

    fn set_approval_for_all(&mut self, ctx: &CallContext, operator: String, approved: bool) -> (result:
        Result<(), LedgerError>) {
        if operator == ctx.predecessor_account_id {
            return Err(LedgerError::ApproveToCaller);
        }
        let _ = self.operator_approvals.insert(
            (ctx.predecessor_account_id.clone(), operator),
            approved,
        );
        Ok(())
    }

    fn mint(&mut self, ctx: &CallContext, to: String, token_id: TokenId) -> (result: Result<
        (),
        LedgerError,
    >) {
        if to == "alice.testnet".to_owned() {
            return Err(LedgerError::MintToZeroAddress);
        }
        if self.token_exists(token_id) {
            return Err(LedgerError::TokenAlreadyMinted);
        }
        let number = self.balance(&ctx.predecessor_account_id);
        if number == u128::MAX {
            return Err(LedgerError::BalanceOverflow);
        }
        let _ = self.balances.insert(to.clone(), number + 1);
        let _ = self.owners.insert(token_id, to);
        Ok(())
    }

    fn burn(&mut self, ctx: &CallContext, token_id: TokenId) -> (result: Result<(), LedgerError>) {
        let nobody = String::new();
        match self.approve_check(&ctx.predecessor_account_id, &nobody, token_id) {
            Some(e) => {
                return Err(e);
            },
            None => {},
        }
        let number = self.balance(&ctx.predecessor_account_id);
        if number == 0 {
            return Err(LedgerError::BalanceUnderflow);
        }
        match self.owners.remove(&token_id) {
            None => {},
            Some(owner) => {
                let _ = self.token_approvals.insert(token_id, nobody);
                let _ = self.balances.insert(owner, number - 1);
            },
        }
        Ok(())
    }

    fn transfer_from(&mut self, ctx: &CallContext, from: String, to: String, token_id: TokenId) -> (result:
        Result<(), LedgerError>) {
        match self.is_approved_or_owner(ctx.predecessor_account_id.clone(), token_id) {
            Err(e) => {
                return Err(e);
            },
            Ok(allowed) => {
                if !allowed {
                    return Err(LedgerError::TransferCallerNotAuthorized);
                }
            },
        }
        if to.as_str().is_empty() {
            return Err(LedgerError::TransferToZeroAddress);
        }
        let nobody = String::new();
        match self.approve_check(&ctx.predecessor_account_id, &nobody, token_id) {
            Some(e) => {
                return Err(e);
            },
            None => {},
        }
        let number = self.balance(&from);
        if number == 0 {
            return Err(LedgerError::BalanceUnderflow);
        }
        if number == u128::MAX {
            return Err(LedgerError::BalanceOverflow);
        }
        let _ = self.token_approvals.insert(token_id, nobody);
        let _ = self.balances.insert(from, number - 1);
        let _ = self.balances.insert(to.clone(), number + 1);
        let _ = self.owners.insert(token_id, to);
        Ok(())
    }

    fn token_uri(&mut self, ctx: &CallContext, token_id: TokenId, uri: String) -> (result: Result<
        (),
        LedgerError,
    >) {
        if !self.token_exists(token_id) {
            return Err(LedgerError::UriQueryForNonexistentToken);
        }
        match self.owners.get(&token_id) {
            None => Err(LedgerError::UriQueryForNonexistentToken),
            Some(owner) => {
                if ctx.predecessor_account_id != *owner {
                    return Err(LedgerError::NotOwner);
                }
                let _ = self.uri.insert(token_id, uri);
                Ok(())
            },
        }
    }
}

} // verus!
