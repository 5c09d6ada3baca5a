use vstd::prelude::*;
use crate::models::category::Category;
use crate::models::identifier::NIL_IDENTIFIER;
use crate::models::portal_user::JWTClaims;
use crate::models::product::Product;
use crate::route_utils::{
    commercyfy_fail, commercyfy_fail_with, commercyfy_success_with, fails_with, editing_roles,
    listed_or_nothing, refusal, refuse_editor, succeeds_with, CommercyfyResponse,
    CreatedEntryResponse, STATUS_BAD_REQUEST, STATUS_CREATED, STATUS_NOT_FOUND,
};
use crate::schemas::category::{AssignProductToCategory, CreateCategory};
use crate::services::db::DbServiceResult;
use crate::services::role_validation::{holds_any, not_enough_permissions, RoleValidation};
use crate::services::unstructureddb::entry::{entries_view, ScalarView};
use crate::services::unstructureddb::UnstructuredDbObjectResult;
use crate::text::join3;
use crate::utils::custom_field_values::{
    custom_fields_or_empty, entry_pairs, values_map, CustomFieldValues,
};

verus! {

/// Why a request to create a category is refused before a store is
/// asked: the bearer may not change the catalog, or else the request is
/// not valid. `None` where it goes on.
pub open spec fn create_category_rejection(claims: JWTClaims, payload: CreateCategory) -> Option<
    Seq<char>,
> {
    if !holds_any(claims.roles@, editing_roles()) {
        Some(not_enough_permissions())
    } else {
        payload.rejection()
    }
}

/// Refuses a request to create a category that may not go on.
pub fn refuse_create_category(
    role_service: &RoleValidation,
    claims: &JWTClaims,
    payload: &CreateCategory,
) -> (reply: Option<CommercyfyResponse<CreatedEntryResponse>>)
    ensures
        match create_category_rejection(*claims, *payload) {
            Some(reason) => reply matches Some(refused) && fails_with(
                refused,
                STATUS_BAD_REQUEST,
                reason,
            ),
            None => reply is None,
        },
{
    match refuse_editor(role_service, claims) {
        Some(refused) => Some(refused),
        None => refusal(payload.validate()),
    }
}

/// What a request for a category whose reference is in use is told.
pub open spec fn category_exists(category_reference: Seq<char>) -> Seq<char> {
    "Category with 'category_reference' '"@ + category_reference + "' already exists"@
}

/// A category as it is shown: with its products and its custom fields.
pub struct CategoryView {
    pub category: Category,
    pub products: Vec<Product>,
    pub custom_fields: CustomFieldValues,
}

/// Puts the view of `category` together from what the stores answered.
/// Products that could not be listed count as none, and custom fields
/// that could not be read as none.
pub fn category_view(
    category: Category,
    products: DbServiceResult<Vec<Product>>,
    custom_fields: UnstructuredDbObjectResult,
) -> (view: CategoryView)
    ensures
        view.category == category,
        match products {
            Ok(found) => view.products == found,
            Err(_) => view.products@.len() == 0,
        },
        view.custom_fields.wf(),
        view.custom_fields@ == match custom_fields {
            Ok(entries) => values_map(entry_pairs(entries_view(entries@))),
            Err(_) => Map::<Seq<char>, ScalarView>::empty(),
        },
{
    CategoryView {
        category,
        products: listed_or_nothing(products),
        custom_fields: custom_fields_or_empty(custom_fields),
    }
}

/// What a request for an unknown category is told.
pub open spec fn category_missing(id: Seq<char>) -> Seq<char> {
    "Category with id '"@ + id + "' not found"@
}

/// The reply to a request for a category that neither an identifier nor a
/// reference leads to.
pub fn category_not_found<T>(id: &str) -> (reply: CommercyfyResponse<T>)
    ensures
        fails_with(reply, STATUS_NOT_FOUND, category_missing(id@)),
{
    commercyfy_fail_with(STATUS_NOT_FOUND, join3("Category with id '", id, "' not found"))
}

/// The reply to a request that put products into a category: it names
/// no entry of its own, so the identifier is the nil one.
pub fn products_assigned_reply(assigned: DbServiceResult<()>) -> (reply: CommercyfyResponse<
    CreatedEntryResponse,
>)
    ensures
        match assigned {
            Ok(()) => succeeds_with(
                reply,
                STATUS_CREATED,
                CreatedEntryResponse { id: NIL_IDENTIFIER },
            ),
            Err(reason) => fails_with(reply, STATUS_BAD_REQUEST, reason@),
        },
{
    match assigned {
        Ok(()) => commercyfy_success_with(
            STATUS_CREATED,
            CreatedEntryResponse { id: NIL_IDENTIFIER },
        ),
        Err(reason) => commercyfy_fail(reason),
    }
}

/// Why a request to put products into a category is refused before a
/// store is asked. `None` where it goes on.
pub open spec fn assign_products_rejection(
    claims: JWTClaims,
    payload: AssignProductToCategory,
) -> Option<Seq<char>> {
    if !holds_any(claims.roles@, editing_roles()) {
        Some(not_enough_permissions())
    } else {
        payload.rejection()
    }
}

/// Refuses a request to put products into a category that may not go on.
pub fn refuse_assign_products(
    role_service: &RoleValidation,
    claims: &JWTClaims,
    payload: &AssignProductToCategory,
) -> (reply: Option<CommercyfyResponse<CreatedEntryResponse>>)
    ensures
        match assign_products_rejection(*claims, *payload) {
            Some(reason) => reply matches Some(refused) && fails_with(
                refused,
                STATUS_BAD_REQUEST,
                reason,
            ),
            None => reply is None,
        },
{
    match refuse_editor(role_service, claims) {
        Some(refused) => Some(refused),
        None => refusal(payload.validate()),
    }
}

} // verus!
