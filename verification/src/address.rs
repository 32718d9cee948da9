//! Syntax check of contact addresses.

use vstd::prelude::*;

verus! {

/// Whether a text is an email address by the grammar that the `email_address` crate
/// accepts with its default options.
pub uninterp spec fn email_syntax_valid(address: Seq<char>) -> bool;

/// Calls `EmailAddress::is_valid`, which parses the text as an email address with the
/// crate's default options and reports whether parsing succeeded. The answer depends on the
/// text alone; the contract gives it a name and claims nothing about the grammar.
#[verifier::external_body]
pub(crate) fn is_valid_address(address: &str) -> (valid: bool)
    ensures
        valid == email_syntax_valid(address@),
{
    email_address::EmailAddress::is_valid(address)
}

} // verus!
