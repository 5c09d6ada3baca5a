use vstd::prelude::*;
use vstd::string::*;
use crate::models::portal_user::{JWTClaims, PortalUser, PortalUsersRoles, SignInToken};
use crate::route_utils::{
    commercyfy_fail, commercyfy_success, commercyfy_success_with, fails_with, found_or_fail,
    refusal, refuse_non_admin, succeeds_with, taken_or_fail, CommercyfyResponse,
    CreatedEntryResponse, STATUS_BAD_REQUEST, STATUS_CREATED, STATUS_NOT_FOUND, STATUS_OK,
};
use crate::schemas::portal_user::PortalUserCreate;
use crate::services::db::DbServiceResult;
use crate::services::role_validation::{not_enough_permissions, RoleValidation};
use crate::text::join3;
use crate::utils::passwords::{check_password, password_check, PasswordCheck};

verus! {

/// What a request for an unknown user is told.
pub open spec fn portal_user_missing(id: Seq<char>) -> Seq<char> {
    "Portal user with id '"@ + id + "' was not found"@
}

/// The reply to a request for the user `id`, given what the store
/// answered.
pub fn portal_user_reply(looked_up: DbServiceResult<Option<PortalUser>>, id: &str) -> (reply:
    CommercyfyResponse<PortalUser>)
    ensures
        match looked_up {
            Ok(Some(user)) => succeeds_with(reply, STATUS_OK, user),
            Ok(None) => fails_with(reply, STATUS_NOT_FOUND, portal_user_missing(id@)),
            Err(reason) => fails_with(reply, STATUS_BAD_REQUEST, reason@),
        },
{
    match found_or_fail(
        looked_up,
        STATUS_NOT_FOUND,
        join3("Portal user with id '", id, "' was not found"),
    ) {
        Ok(user) => commercyfy_success(user),
        Err(reply) => reply,
    }
}

/// Why a request to create a user is refused before a store is asked: the
/// bearer is no administrator, or else the request is not valid. `None`
/// where it goes on.
pub open spec fn create_portal_user_rejection(claims: JWTClaims, payload: PortalUserCreate) -> Option<
    Seq<char>,
> {
    if !claims.roles@.contains(PortalUsersRoles::ADMIN) {
        Some(not_enough_permissions())
    } else {
        payload.rejection()
    }
}

/// Refuses a request to create a user that may not go on.
pub fn refuse_create_portal_user(
    role_service: &RoleValidation,
    claims: &JWTClaims,
    payload: &PortalUserCreate,
) -> (reply: Option<CommercyfyResponse<CreatedEntryResponse>>)
    ensures
        match create_portal_user_rejection(*claims, *payload) {
            Some(reason) => reply matches Some(refused) && fails_with(
                refused,
                STATUS_BAD_REQUEST,
                reason,
            ),
            None => reply is None,
        },
{
    match refuse_non_admin(role_service, claims) {
        Some(refused) => Some(refused),
        None => refusal(payload.validate()),
    }
}

/// What a request for a user whose email is in use is told.
pub open spec fn portal_user_exists() -> Seq<char> {
    "User with that email already exists"@
}

/// Ends a request to create a user whose email the store holds already,
/// or whose lookup failed.
pub fn portal_user_taken(existing: DbServiceResult<Option<PortalUser>>) -> (reply: Option<
    CommercyfyResponse<CreatedEntryResponse>,
>)
    ensures
        match existing {
            Ok(Some(_)) => reply matches Some(refused) && fails_with(
                refused,
                STATUS_BAD_REQUEST,
                portal_user_exists(),
            ),
            Ok(None) => reply is None,
            Err(reason) => reply matches Some(refused) && fails_with(
                refused,
                STATUS_BAD_REQUEST,
                reason@,
            ),
        },
{
    taken_or_fail(existing, String::from_str("User with that email already exists"))
}

/// Why a user could not be created.
#[derive(Debug)]
pub enum CreatePortalUserError {
    /// The password could not be hashed.
    Hashing,
    /// The store failed; holds what it reported.
    Store(String),
}

/// What a request is told whose password could not be hashed.
pub open spec fn portal_user_not_created() -> Seq<char> {
    "There was an error creating a portal_user"@
}

/// The reply that ends the creation of a user.
pub fn portal_user_created_reply(created: Result<PortalUser, CreatePortalUserError>) -> (reply:
    CommercyfyResponse<CreatedEntryResponse>)
    ensures
        match created {
            Ok(user) => succeeds_with(reply, STATUS_CREATED, CreatedEntryResponse { id: user.id }),
            Err(CreatePortalUserError::Hashing) => fails_with(
                reply,
                STATUS_BAD_REQUEST,
                portal_user_not_created(),
            ),
            Err(CreatePortalUserError::Store(reason)) => fails_with(
                reply,
                STATUS_BAD_REQUEST,
                reason@,
            ),
        },
{
    match created {
        Ok(user) => commercyfy_success_with(STATUS_CREATED, CreatedEntryResponse { id: user.id }),
        Err(CreatePortalUserError::Hashing) => commercyfy_fail(
            String::from_str("There was an error creating a portal_user"),
        ),
        Err(CreatePortalUserError::Store(reason)) => commercyfy_fail(reason),
    }
}

/// What a sign-in is told whose email or password is not the right one.
pub open spec fn no_matching_credentials() -> Seq<char> {
    "No matching credentials"@
}

/// What a sign-in is told when the stored hash cannot be read.
pub open spec fn request_not_handled() -> Seq<char> {
    "There was an error handling your request"@
}

/// What a sign-in is told when the time of expiry cannot be computed.
pub open spec fn internal_server_error() -> Seq<char> {
    "Internal server error"@
}

/// What a sign-in is told when the secret of the tokens is not set.
pub open spec fn login_failed() -> Seq<char> {
    "There was an error logging in."@
}

/// The user that signs in, or the reply that ends the sign-in: a failure
/// of the store is passed on, and an unknown email is told no more than a
/// wrong password.
pub fn signin_user(looked_up: DbServiceResult<Option<PortalUser>>) -> (found: Result<
    PortalUser,
    CommercyfyResponse<SignInToken>,
>)
    ensures
        match looked_up {
            Ok(Some(user)) => found == Ok::<PortalUser, CommercyfyResponse<SignInToken>>(user),
            Ok(None) => found matches Err(reply) && fails_with(
                reply,
                STATUS_BAD_REQUEST,
                no_matching_credentials(),
            ),
            Err(reason) => found matches Err(reply) && fails_with(
                reply,
                STATUS_BAD_REQUEST,
                reason@,
            ),
        },
{
    found_or_fail(looked_up, STATUS_BAD_REQUEST, String::from_str("No matching credentials"))
}

/// The reply to a sign-in for what the check of the password found:
/// `None` where the password is the right one.
pub fn password_refusal(outcome: PasswordCheck) -> (reply: Option<CommercyfyResponse<SignInToken>>)
    ensures
        match outcome {
            PasswordCheck::Malformed => reply matches Some(refused) && fails_with(
                refused,
                STATUS_BAD_REQUEST,
                request_not_handled(),
            ),
            PasswordCheck::Mismatch => reply matches Some(refused) && fails_with(
                refused,
                STATUS_BAD_REQUEST,
                no_matching_credentials(),
            ),
            PasswordCheck::Match => reply is None,
        },
{
    match outcome {
        PasswordCheck::Malformed => Some(
            commercyfy_fail(String::from_str("There was an error handling your request")),
        ),
        PasswordCheck::Mismatch => Some(commercyfy_fail(String::from_str("No matching credentials"))),
        PasswordCheck::Match => None,
    }
}

/// Ends a sign-in whose password is not the one of the user.
pub fn refuse_wrong_password(password: &str, user: &PortalUser) -> (reply: Option<
    CommercyfyResponse<SignInToken>,
>)
    ensures
        match password_check(password@, user.password@) {
            PasswordCheck::Malformed => reply matches Some(refused) && fails_with(
                refused,
                STATUS_BAD_REQUEST,
                request_not_handled(),
            ),
            PasswordCheck::Mismatch => reply matches Some(refused) && fails_with(
                refused,
                STATUS_BAD_REQUEST,
                no_matching_credentials(),
            ),
            PasswordCheck::Match => reply is None,
        },
{
    password_refusal(check_password(password, user.password.as_str()))
}

/// For how many seconds a token holds: three hours.
pub const TOKEN_LIFETIME: u64 = 10800;

/// The claims of the token of a sign-in at the time `now`, in seconds
/// since the epoch; `now` is `None` where the clock stands before the
/// epoch. The token holds for three hours. Where its expiry cannot be
/// given, the sign-in fails.
pub fn signin_claims(email: String, roles: Vec<PortalUsersRoles>, now: Option<u64>) -> (claims:
    Result<JWTClaims, CommercyfyResponse<SignInToken>>)
    ensures
        match now {
            Some(seconds) if seconds + TOKEN_LIFETIME <= u64::MAX => claims == Ok::<
                JWTClaims,
                CommercyfyResponse<SignInToken>,
            >(JWTClaims { email, exp: (seconds + TOKEN_LIFETIME) as u64, roles }),
            _ => claims matches Err(reply) && fails_with(
                reply,
                STATUS_BAD_REQUEST,
                internal_server_error(),
            ),
        },
{
    let seconds = match now {
        Some(seconds) => seconds,
        None => return Err(commercyfy_fail(String::from_str("Internal server error"))),
    };
    match seconds.checked_add(TOKEN_LIFETIME) {
        Some(exp) => Ok(JWTClaims { email, exp, roles }),
        None => Err(commercyfy_fail(String::from_str("Internal server error"))),
    }
}

/// The secret of the tokens, or the reply that ends the sign-in where it
/// is not set.
pub fn signin_secret(secret: Option<String>) -> (found: Result<
    String,
    CommercyfyResponse<SignInToken>,
>)
    ensures
        match secret {
            Some(value) => found == Ok::<String, CommercyfyResponse<SignInToken>>(value),
            None => found matches Err(reply) && fails_with(
                reply,
                STATUS_BAD_REQUEST,
                login_failed(),
            ),
        },
{
    match secret {
        Some(value) => Ok(value),
        None => Err(commercyfy_fail(String::from_str("There was an error logging in."))),
    }
}

/// The reply that ends a sign-in: the token, or the failure to write it.
pub fn signin_reply(token: Result<String, String>) -> (reply: CommercyfyResponse<SignInToken>)
    ensures
        match token {
            Ok(jwt) => succeeds_with(reply, STATUS_OK, SignInToken { jwt }),
            Err(reason) => fails_with(reply, STATUS_BAD_REQUEST, reason@),
        },
{
    match token {
        Ok(jwt) => commercyfy_success(SignInToken { jwt }),
        Err(reason) => commercyfy_fail(reason),
    }
}

} // verus!
