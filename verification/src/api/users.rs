//! Decisions taken by the user routes before a request is sent and after a response comes.
use vstd::prelude::*;

use crate::errors::ChorusError;

verus! {

/// Changing any of these fields of the current user needs the current password.
pub open spec fn spec_requires_current_password(
    username: bool,
    discriminator: bool,
    email: bool,
    date_of_birth: bool,
    new_password: bool,
) -> bool {
    username || discriminator || email || date_of_birth || new_password
}

/// Checks a modification of the current user before it is sent: changing the username,
/// discriminator, e-mail address, date of birth or password needs the current password.
/// Each flag says whether the schema sets that field.
pub fn check_user_modify(
    username: bool,
    discriminator: bool,
    email: bool,
    date_of_birth: bool,
    new_password: bool,
    current_password: bool,
) -> (res: Result<(), ChorusError>)
    ensures
        res is Err <==> spec_requires_current_password(
            username,
            discriminator,
            email,
            date_of_birth,
            new_password,
        ) && !current_password,
        res matches Err(e) ==> e == ChorusError::PasswordRequired,
        username && !current_password ==> res == Err::<(), ChorusError>(ChorusError::PasswordRequired),
        discriminator && !current_password ==> res == Err::<(), ChorusError>(ChorusError::PasswordRequired),
        email && !current_password ==> res == Err::<(), ChorusError>(ChorusError::PasswordRequired),
        date_of_birth && !current_password ==> res == Err::<(), ChorusError>(ChorusError::PasswordRequired),
        new_password && !current_password ==> res == Err::<(), ChorusError>(ChorusError::PasswordRequired),
        current_password ==> res is Ok,
        !username && !discriminator && !email && !date_of_birth && !new_password ==> res is Ok,
{
    let requires_current_password = username || discriminator || email || date_of_birth
        || new_password;
    if requires_current_password && !current_password {
        return Err(ChorusError::PasswordRequired);
    }
    Ok(())
}

/// The backends of a data harvest request: none (meaning all) if the list is empty.
pub fn harvest_backends<T>(backends: Vec<T>) -> (res: Option<Vec<T>>)
    ensures
        backends@.len() == 0 ==> res is None,
        backends@.len() > 0 ==> (res matches Some(b) && b@ == backends@),
{
    if backends.len() == 0 {
        None
    } else {
        Some(backends)
    }
}

/// What a response to a request for the latest data harvest means.
#[derive(Clone, Copy, Debug, PartialEq, Eq, Structural)]
pub enum HarvestResponse {
    /// There is no harvest.
    NoHarvest,
    /// The body holds the harvest.
    ParseHarvest,
}

/// A `204 No Content` response means there is no harvest; any other carries one.
pub fn harvest_response(status: u16) -> (res: HarvestResponse)
    ensures
        res == if status == 204 {
            HarvestResponse::NoHarvest
        } else {
            HarvestResponse::ParseHarvest
        },
{
    if status == 204 {
        HarvestResponse::NoHarvest
    } else {
        HarvestResponse::ParseHarvest
    }
}

/// What a response to adding a member to a guild means.
#[derive(Clone, Copy, Debug, PartialEq, Eq, Structural)]
pub enum AddMemberResponse {
    /// `200 OK`: the body holds the new member.
    Joined,
    /// `204 No Content`: the user already is a member.
    AlreadyAMember,
    /// Any other status is unexpected.
    UnexpectedStatus,
}

/// Reads the status of a response to adding a member to a guild.
pub fn add_member_response(status: u16) -> (res: AddMemberResponse)
    ensures
        res == if status == 200 {
            AddMemberResponse::Joined
        } else if status == 204 {
            AddMemberResponse::AlreadyAMember
        } else {
            AddMemberResponse::UnexpectedStatus
        },
{
    if status == 200 {
        AddMemberResponse::Joined
    } else if status == 204 {
        AddMemberResponse::AlreadyAMember
    } else {
        AddMemberResponse::UnexpectedStatus
    }
}

/// The body of an error that may say that creating a domain connection needs a proof of
/// ownership: that of a `400 Bad Request`.
pub fn domain_proof_candidate(error: &ChorusError) -> (res: Option<&String>)
    ensures
        match *error {
            ChorusError::ReceivedErrorCode { error_code, error: body } => if error_code == 400 {
                res == Some(&body)
            } else {
                res is None
            },
            _ => res is None,
        },
{
    match error {
        ChorusError::ReceivedErrorCode { error_code, error: body } => {
            if *error_code == 400 {
                Some(body)
            } else {
                None
            }
        },
        _ => None,
    }
}

} // verus!

verus! {

/// Each of the username, the discriminator, the e-mail address, the date of birth and the
/// password needs the current password to be changed, on its own, whatever else is changed;
/// a change that touches none of them never needs it.
pub proof fn lemma_each_sensitive_field_needs_password(
    username: bool,
    discriminator: bool,
    email: bool,
    date_of_birth: bool,
    new_password: bool,
)
    ensures
        username ==> spec_requires_current_password(username, discriminator, email, date_of_birth, new_password),
        discriminator ==> spec_requires_current_password(username, discriminator, email, date_of_birth, new_password),
        email ==> spec_requires_current_password(username, discriminator, email, date_of_birth, new_password),
        date_of_birth ==> spec_requires_current_password(username, discriminator, email, date_of_birth, new_password),
        new_password ==> spec_requires_current_password(username, discriminator, email, date_of_birth, new_password),
        !username && !discriminator && !email && !date_of_birth && !new_password
            ==> !spec_requires_current_password(username, discriminator, email, date_of_birth, new_password),
{
}

} // verus!
