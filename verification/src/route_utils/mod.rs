use vstd::prelude::*;
use crate::models::portal_user::{JWTClaims, PortalUsersRoles};
use crate::models::error::ExtensionError;
use crate::services::db::DbServiceResult;
use crate::services::role_validation::{
    holds_any, not_enough_permissions, RoleService, RoleValidation,
};

verus! {

/// The body of a reply: what was asked for, or the reason why it failed.
#[derive(Debug)]
pub enum CommercyfyResponseData<T> {
    Success(T),
    Error { error: String },
}

/// A reply: its status code and its body.
pub type CommercyfyResponse<T> = (u16, CommercyfyResponseData<T>);

/// The body of the reply to a request that created an entry.
#[derive(Clone, Copy, Debug, PartialEq, Eq, Structural)]
pub struct CreatedEntryResponse {
    pub id: u128,
}

pub const STATUS_OK: u16 = 200;

pub const STATUS_CREATED: u16 = 201;

pub const STATUS_BAD_REQUEST: u16 = 400;

pub const STATUS_UNAUTHORIZED: u16 = 401;

pub const STATUS_NOT_FOUND: u16 = 404;

/// Whether `reply` carries `value` under the status `status`.
pub open spec fn succeeds_with<T>(reply: CommercyfyResponse<T>, status: u16, value: T) -> bool {
    reply.0 == status && reply.1 == CommercyfyResponseData::Success(value)
}

/// Whether `reply` reports the failure `message` under the status
/// `status`.
pub open spec fn fails_with<T>(reply: CommercyfyResponse<T>, status: u16, message: Seq<char>) -> bool {
    &&& reply.0 == status
    &&& reply.1 matches CommercyfyResponseData::Error { error }
    &&& error@ == message
}

/// The reply that carries `value` with the status 200.
pub fn commercyfy_success<T>(value: T) -> (reply: CommercyfyResponse<T>)
    ensures
        succeeds_with(reply, STATUS_OK, value),
{
    (STATUS_OK, CommercyfyResponseData::Success(value))
}

/// The reply that carries `value` with the status `status`.
pub fn commercyfy_success_with<T>(status: u16, value: T) -> (reply: CommercyfyResponse<T>)
    ensures
        succeeds_with(reply, status, value),
{
    (status, CommercyfyResponseData::Success(value))
}

/// The reply that reports `error` with the status 400.
pub fn commercyfy_fail<T>(error: String) -> (reply: CommercyfyResponse<T>)
    ensures
        fails_with(reply, STATUS_BAD_REQUEST, error@),
{
    (STATUS_BAD_REQUEST, CommercyfyResponseData::Error { error })
}

/// The reply that reports `error` with the status `status`.
pub fn commercyfy_fail_with<T>(status: u16, error: String) -> (reply: CommercyfyResponse<T>)
    ensures
        fails_with(reply, status, error@),
{
    (status, CommercyfyResponseData::Error { error })
}

/// The roles that may read the catalog.
pub open spec fn reading_roles() -> Seq<PortalUsersRoles> {
    seq![PortalUsersRoles::ADMIN, PortalUsersRoles::READER]
}

/// The roles that may change the catalog.
pub open spec fn editing_roles() -> Seq<PortalUsersRoles> {
    seq![PortalUsersRoles::ADMIN, PortalUsersRoles::EDITOR]
}

/// The roles that may read the catalog.
pub fn readers() -> (roles: Vec<PortalUsersRoles>)
    ensures
        roles@ == reading_roles(),
{
    let mut roles: Vec<PortalUsersRoles> = Vec::new();
    roles.push(PortalUsersRoles::ADMIN);
    roles.push(PortalUsersRoles::READER);
    roles
}

/// The roles that may change the catalog.
pub fn editors() -> (roles: Vec<PortalUsersRoles>)
    ensures
        roles@ == editing_roles(),
{
    let mut roles: Vec<PortalUsersRoles> = Vec::new();
    roles.push(PortalUsersRoles::ADMIN);
    roles.push(PortalUsersRoles::EDITOR);
    roles
}

/// The reply to a request whose check failed: the reason of the check
/// with the status 400. `None` where the check passed.
pub fn refusal<T>(checked: Result<(), String>) -> (reply: Option<CommercyfyResponse<T>>)
    ensures
        match checked {
            Ok(()) => reply is None,
            Err(reason) => reply matches Some(refused) && fails_with(
                refused,
                STATUS_BAD_REQUEST,
                reason@,
            ),
        },
{
    match checked {
        Ok(()) => None,
        Err(reason) => Some(commercyfy_fail(reason)),
    }
}

/// Refuses a bearer who may not read the catalog.
pub fn refuse_reader<T>(role_service: &RoleValidation, claims: &JWTClaims) -> (reply: Option<
    CommercyfyResponse<T>,
>)
    ensures
        reply is None <==> holds_any(claims.roles@, reading_roles()),
        reply matches Some(refused) ==> fails_with(
            refused,
            STATUS_BAD_REQUEST,
            not_enough_permissions(),
        ),
{
    refusal(role_service.validate_any(claims, readers()))
}

/// Refuses a bearer who may not change the catalog.
pub fn refuse_editor<T>(role_service: &RoleValidation, claims: &JWTClaims) -> (reply: Option<
    CommercyfyResponse<T>,
>)
    ensures
        reply is None <==> holds_any(claims.roles@, editing_roles()),
        reply matches Some(refused) ==> fails_with(
            refused,
            STATUS_BAD_REQUEST,
            not_enough_permissions(),
        ),
{
    refusal(role_service.validate_any(claims, editors()))
}

/// Refuses a bearer who is no administrator.
pub fn refuse_non_admin<T>(role_service: &RoleValidation, claims: &JWTClaims) -> (reply: Option<
    CommercyfyResponse<T>,
>)
    ensures
        reply is None <==> claims.roles@.contains(PortalUsersRoles::ADMIN),
        reply matches Some(refused) ==> fails_with(
            refused,
            STATUS_BAD_REQUEST,
            not_enough_permissions(),
        ),
{
    refusal(role_service.validate_admin(claims))
}

/// What a store answered, or the reply that passes its failure on with
/// the status 400.
pub fn stored_or_fail<T, R>(answered: DbServiceResult<T>) -> (stored: Result<T, CommercyfyResponse<R>>)
    ensures
        match answered {
            Ok(value) => stored == Ok::<T, CommercyfyResponse<R>>(value),
            Err(reason) => stored matches Err(refused) && fails_with(
                refused,
                STATUS_BAD_REQUEST,
                reason@,
            ),
        },
{
    match answered {
        Ok(value) => Ok(value),
        Err(reason) => Err(commercyfy_fail(reason)),
    }
}

/// The reply that carries what a store answered with the status
/// `status`, or that passes its failure on with the status 400.
pub fn reply_with<T>(status: u16, answered: DbServiceResult<T>) -> (reply: CommercyfyResponse<T>)
    ensures
        match answered {
            Ok(value) => succeeds_with(reply, status, value),
            Err(reason) => fails_with(reply, STATUS_BAD_REQUEST, reason@),
        },
{
    match answered {
        Ok(value) => commercyfy_success_with(status, value),
        Err(reason) => commercyfy_fail(reason),
    }
}

/// The reply to a request that created an entry: the identifier of the
/// entry with the status `status`, or the failure with the status 400.
pub fn created_reply(status: u16, created: DbServiceResult<u128>) -> (reply: CommercyfyResponse<
    CreatedEntryResponse,
>)
    ensures
        match created {
            Ok(id) => succeeds_with(reply, status, CreatedEntryResponse { id }),
            Err(reason) => fails_with(reply, STATUS_BAD_REQUEST, reason@),
        },
{
    match created {
        Ok(id) => commercyfy_success_with(status, CreatedEntryResponse { id }),
        Err(reason) => commercyfy_fail(reason),
    }
}

/// What a lookup found, where a failure of the store counts as nothing
/// found.
pub fn found_or_nothing<T>(looked_up: DbServiceResult<Option<T>>) -> (found: Option<T>)
    ensures
        found == match looked_up {
            Ok(Some(entity)) => Some(entity),
            _ => None::<T>,
        },
{
    match looked_up {
        Ok(Some(entity)) => Some(entity),
        _ => None,
    }
}

/// What a store listed, where a failure of the store counts as an empty
/// list.
pub fn listed_or_nothing<T>(listed: DbServiceResult<Vec<T>>) -> (items: Vec<T>)
    ensures
        match listed {
            Ok(found) => items == found,
            Err(_) => items@.len() == 0,
        },
{
    match listed {
        Ok(found) => found,
        Err(_) => Vec::new(),
    }
}

/// The reply that ends the creation of an entity: the identifier of the
/// entity with the status `status` where its custom fields were attached,
/// and the message of the failure with the status 400 where they were
/// not.
pub fn attached_reply(status: u16, id: u128, attached: Result<(), ExtensionError>) -> (reply:
    CommercyfyResponse<CreatedEntryResponse>)
    ensures
        match attached {
            Ok(()) => succeeds_with(reply, status, CreatedEntryResponse { id }),
            Err(error) => fails_with(reply, STATUS_BAD_REQUEST, error@.message()),
        },
{
    match attached {
        Ok(()) => commercyfy_success_with(status, CreatedEntryResponse { id }),
        Err(error) => commercyfy_fail(error.message()),
    }
}

/// The entity that a lookup found, or the reply that ends the request: a
/// failure of the store is passed on with the status 400, and where
/// nothing was found the reply says `missing` with the status `status`.
pub fn found_or_fail<E, T>(looked_up: DbServiceResult<Option<E>>, status: u16, missing: String) -> (found:
    Result<E, CommercyfyResponse<T>>)
    ensures
        match looked_up {
            Ok(Some(entity)) => found == Ok::<E, CommercyfyResponse<T>>(entity),
            Ok(None) => found matches Err(reply) && fails_with(reply, status, missing@),
            Err(reason) => found matches Err(reply) && fails_with(
                reply,
                STATUS_BAD_REQUEST,
                reason@,
            ),
        },
{
    match looked_up {
        Ok(Some(entity)) => Ok(entity),
        Ok(None) => Err(commercyfy_fail_with(status, missing)),
        Err(reason) => Err(commercyfy_fail(reason)),
    }
}

/// Ends a request to create what exists already: a failure of the lookup
/// is passed on, and where something was found the reply says `taken`,
/// both with the status 400. `None` where nothing was found.
pub fn taken_or_fail<E, T>(existing: DbServiceResult<Option<E>>, taken: String) -> (reply: Option<
    CommercyfyResponse<T>,
>)
    ensures
        match existing {
            Ok(Some(_)) => reply matches Some(refused) && fails_with(
                refused,
                STATUS_BAD_REQUEST,
                taken@,
            ),
            Ok(None) => reply is None,
            Err(reason) => reply matches Some(refused) && fails_with(
                refused,
                STATUS_BAD_REQUEST,
                reason@,
            ),
        },
{
    match existing {
        Ok(Some(_)) => Some(commercyfy_fail(taken)),
        Ok(None) => None,
        Err(reason) => Some(commercyfy_fail(reason)),
    }
}

} // verus!
