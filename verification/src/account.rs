//! Account identifiers of the host, and the test of their syntax.

use vstd::prelude::*;

verus! {

/// The shortest account identifier has two characters.
pub const MIN_ACCOUNT_ID_LEN: usize = 2;

/// The longest account identifier has sixty-four characters.
pub const MAX_ACCOUNT_ID_LEN: usize = 64;

/// A lower-case letter or a digit.
pub open spec fn is_plain(c: char) -> bool {
    ('a' <= c && c <= 'z') || ('0' <= c && c <= '9')
}

/// One of the three characters that join the parts of an identifier.
pub open spec fn is_separator(c: char) -> bool {
    c == '-' || c == '_' || c == '.'
}

/// The syntax of an account identifier: between two and sixty-four
/// characters, each a lower-case letter, a digit or a separator, where no
/// separator stands first, last or next to another separator.
pub open spec fn valid_account_id(id: Seq<char>) -> bool {
    &&& MIN_ACCOUNT_ID_LEN <= id.len() <= MAX_ACCOUNT_ID_LEN
    &&& forall|i: int| 0 <= i < id.len() ==> is_plain(#[trigger] id[i]) || is_separator(id[i])
    &&& !is_separator(id[0])
    &&& !is_separator(id[id.len() - 1])
    &&& forall|i: int|
        0 <= i < id.len() - 1 ==> !(is_separator(#[trigger] id[i]) && is_separator(id[i + 1]))
}

/// Calls `near_sdk::env::is_valid_account_id` on the bytes of `id`.
///
/// Trusted: the host library accepts exactly the identifiers of
/// [`valid_account_id`]. It counts bytes where the statement counts
/// characters; the two agree on every accepted identifier, since a character
/// of more than one byte is neither plain nor a separator.
#[verifier::external_body]
pub(crate) fn is_valid_account_id(id: &str) -> (ok: bool)
    ensures
        ok == valid_account_id(id@),
{
    near_sdk::env::is_valid_account_id(id.as_bytes())
}

} // verus!
