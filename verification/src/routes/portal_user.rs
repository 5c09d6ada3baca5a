use vstd::prelude::*;
use vstd::string::*;
use crate::models::error::ErrorResponse;
use crate::models::portal_user::PortalUsersRoles;
use crate::text::{byte_len, byte_length};
use crate::utils::passwords::PasswordCheck;

verus! {

/// What the `regex` crate answers when it is asked whether the pattern
/// `pattern` matches somewhere in `text`; `None` where it does not accept
/// the pattern.
pub uninterp spec fn regex_match(pattern: Seq<char>, text: Seq<char>) -> Option<bool>;

/// Calls `Regex::new` on the pattern and `Regex::is_match` on the text.
/// Nothing is proved of it; the contract names the result, which depends
/// on the two texts alone.
#[verifier::external_body]
pub(crate) fn regex_is_match(pattern: &str, text: &str) -> (matched: Option<bool>)
    ensures
        matched == regex_match(pattern@, text@),
{
    match regex::Regex::new(pattern) {
        Ok(compiled) => Some(compiled.is_match(text)),
        Err(_) => None,
    }
}

/// The pattern of an email address: a local part, `@`, and a domain of
/// labels that dots separate.
pub const EMAIL_PATTERN: &'static str =
    "^[a-zA-Z0-9.!#$%&\u{2019}*+/=?^_`{|}~-]+@[a-zA-Z0-9-]+(?:\\.[a-zA-Z0-9-]+)*$";

/// Whether `email` has the form of an email address; `None` where the
/// pattern cannot be used.
pub fn email_is_valid(email: &str) -> (valid: Option<bool>)
    ensures
        valid == regex_match(EMAIL_PATTERN@, email@),
{
    regex_is_match(EMAIL_PATTERN, email)
}

/// A request to register a user with an email address that is checked
/// for its form.
#[derive(Debug)]
pub struct NewPortalUser {
    pub id: u128,
    pub email: String,
    pub first_name: String,
    pub last_name: String,
    pub password: String,
    pub roles: Option<Vec<PortalUsersRoles>>,
}

/// A request to sign in by email and password.
#[derive(Debug)]
pub struct Singin {
    pub email: String,
    pub password: String,
}

/// Why a request to create a user is refused, given whether its email
/// has the form of an address: the email has not, or else a name is
/// empty, the first before the last, or else the password takes no more
/// than 4 bytes. `None` for a valid one.
pub open spec fn new_user_rejection(email_matches: bool, data: NewPortalUser) -> Option<Seq<char>> {
    if !email_matches {
        Some("The provided email is not valid."@)
    } else if byte_length(data.first_name@) == 0 {
        Some("First name should not be empty."@)
    } else if byte_length(data.last_name@) == 0 {
        Some("Last name should not be empty."@)
    } else if byte_length(data.password@) <= 4 {
        Some("Password should be at least 5 characters."@)
    } else {
        None
    }
}

/// An optional refusal, as the text of its message.
pub open spec fn refusal_text(refused: Option<ErrorResponse>) -> Option<Seq<char>> {
    match refused {
        Some(response) => Some(response.error_message@),
        None => None,
    }
}

/// The refusal of a request to create a user, given whether its email
/// has the form of an address.
pub fn refuse_new_user(email_matches: bool, data: &NewPortalUser) -> (refused: Option<
    ErrorResponse,
>)
    ensures
        refusal_text(refused) == new_user_rejection(email_matches, *data),
{
    if !email_matches {
        return Some(
            ErrorResponse { error_message: String::from_str("The provided email is not valid.") },
        );
    }
    if byte_len(data.first_name.as_str()) <= 0 {
        return Some(
            ErrorResponse { error_message: String::from_str("First name should not be empty.") },
        );
    }
    if byte_len(data.last_name.as_str()) <= 0 {
        return Some(
            ErrorResponse { error_message: String::from_str("Last name should not be empty.") },
        );
    }
    if byte_len(data.password.as_str()) <= 4 {
        return Some(
            ErrorResponse {
                error_message: String::from_str("Password should be at least 5 characters."),
            },
        );
    }
    None
}

/// The refusal of a request to create a user; the outer `None` where the
/// pattern of an email address cannot be used.
pub fn check_new_user(data: &NewPortalUser) -> (checked: Option<Option<ErrorResponse>>)
    ensures
        match regex_match(EMAIL_PATTERN@, data.email@) {
            Some(email_matches) => checked matches Some(refused) && refusal_text(refused)
                == new_user_rejection(email_matches, *data),
            None => checked is None,
        },
{
    match email_is_valid(data.email.as_str()) {
        Some(email_matches) => Some(refuse_new_user(email_matches, data)),
        None => None,
    }
}

/// The roles of a new user: those of the request, or none.
pub fn new_user_roles(data: &NewPortalUser) -> (roles: Vec<PortalUsersRoles>)
    ensures
        roles@ == match data.roles {
            Some(given) => given@,
            None => Seq::<PortalUsersRoles>::empty(),
        },
{
    match &data.roles {
        Some(given) => {
            let mut roles: Vec<PortalUsersRoles> = Vec::new();
            let mut i: usize = 0;
            while i < given.len()
                invariant
                    i <= given.len(),
                    roles@ == given@.take(i as int),
                decreases given.len() - i,
            {
                roles.push(given[i]);
                i += 1;
            }
            roles
        },
        None => Vec::new(),
    }
}

/// Why a request to sign in is refused before the store is asked: it
/// gives no email, or else no password. `None` where it goes on.
pub open spec fn signin_rejection(data: Singin) -> Option<Seq<char>> {
    if byte_length(data.email@) == 0 {
        Some("Email is required."@)
    } else if byte_length(data.password@) == 0 {
        Some("Password is required."@)
    } else {
        None
    }
}

/// The refusal of a request to sign in before the store is asked.
pub fn refuse_signin(data: &Singin) -> (refused: Option<ErrorResponse>)
    ensures
        refusal_text(refused) == signin_rejection(*data),
{
    if byte_len(data.email.as_str()) == 0 {
        return Some(ErrorResponse { error_message: String::from_str("Email is required.") });
    }
    if byte_len(data.password.as_str()) == 0 {
        return Some(ErrorResponse { error_message: String::from_str("Password is required.") });
    }
    None
}

/// Why a sign-in fails once the store was asked, given what the check of
/// the password found; `outcome` is `None` where the store holds no user
/// of the email. `None` where the sign-in succeeds.
pub open spec fn signin_failure(outcome: Option<PasswordCheck>) -> Option<Seq<char>> {
    match outcome {
        None => Some("User with that email does not exist."@),
        Some(PasswordCheck::Match) => None,
        Some(_) => Some("Password is not valid."@),
    }
}

/// The refusal of a sign-in once the store was asked.
pub fn refuse_credentials(outcome: Option<PasswordCheck>) -> (refused: Option<ErrorResponse>)
    ensures
        refusal_text(refused) == signin_failure(outcome),
{
    match outcome {
        None => Some(
            ErrorResponse {
                error_message: String::from_str("User with that email does not exist."),
            },
        ),
        Some(PasswordCheck::Match) => None,
        Some(_) => Some(ErrorResponse { error_message: String::from_str("Password is not valid.") }),
    }
}

} // verus!
