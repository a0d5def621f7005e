//! Normalising e-mail addresses given by users.
use vstd::prelude::*;

use crate::errors::UserError;

verus! {

/// Whether the `email_address` crate accepts the string as an e-mail address (in its default
/// options, following RFC 5321 and RFC 5322).
pub uninterp spec fn email_address_accepts(s: Seq<char>) -> bool;

/// Calls `email_address::EmailAddress::from_str` and renders the address it parsed. The
/// claims: the result is there exactly when the crate accepts the string (a name for a
/// function of the string alone), and an accepted address is kept exactly as it was given,
/// since the crate stores the input unchanged and displays what it stored.
#[verifier::external_body]
fn parse_email_address(email: &str) -> (res: Option<String>)
    ensures
        res is Some <==> email_address_accepts(email@),
        res matches Some(s) ==> s@ == email@,
{
    match email.parse::<email_address::EmailAddress>() {
        Ok(address) => Some(address.to_string()),
        Err(_) => None,
    }
}

/// Checks an e-mail address given by a user and returns it in the form in which it is kept:
/// an empty address is refused, and so is one that the `email_address` crate does not accept.
pub fn adjust_email(email: &str) -> (res: Result<String, UserError>)
    ensures
        email@.len() == 0 ==> res == Err::<String, UserError>(UserError::InvalidEmail),
        email@.len() > 0 ==> (res is Ok <==> email_address_accepts(email@)),
        res matches Ok(s) ==> s@ == email@,
        res matches Err(e) ==> e == UserError::InvalidEmail,
{
    if email.is_empty() {
        return Err(UserError::InvalidEmail);
    }
    match parse_email_address(email) {
        Some(checked_email) => Ok(checked_email),
        None => Err(UserError::InvalidEmail),
    }
}

} // verus!
