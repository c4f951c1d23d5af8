//! Validity of account identifiers. The rule is NEAR's: 2 to 64 characters,
//! each a lowercase letter, a digit, or one of the separators `-`, `_` and
//! `.`, with no separator at either end and no two separators adjacent.

use vstd::prelude::*;

verus! {

/// A separator character of an account identifier.
pub open spec fn account_separator(c: char) -> bool {
    c == '-' || c == '_' || c == '.'
}

/// A character allowed somewhere in an account identifier.
pub open spec fn account_char(c: char) -> bool {
    ('a' <= c && c <= 'z') || ('0' <= c && c <= '9') || account_separator(c)
}

/// The account-identifier validity rule.
pub open spec fn valid_account_id(s: Seq<char>) -> bool {
    &&& 2 <= s.len() && s.len() <= 64
    &&& (forall|i: int| 0 <= i < s.len() ==> account_char(#[trigger] s[i]))
    &&& !account_separator(s[0])
    &&& !account_separator(s[s.len() - 1])
    &&& (forall|i: int|
        1 <= i < s.len() && account_separator(#[trigger] s[i]) ==> !account_separator(s[i - 1]))
}

/// Relies on `near_sdk::env::is_valid_account_id`: it accepts exactly the
/// byte strings of 2 to 64 bytes drawn from `a-z`, `0-9`, `-`, `_` and `.`
/// in which no separator stands first, last, or next to another separator.
/// On such ASCII-only strings bytes and characters coincide, and a string
/// holding any other character is rejected by both sides of the contract.
#[verifier::external_body]
pub(crate) fn account_id_is_valid(s: &String) -> (r: bool)
    ensures
        r == valid_account_id(s@),
{
    near_sdk::env::is_valid_account_id(s.as_bytes())
}

} // verus!
