use vstd::prelude::*;
use vstd::string::*;
use crate::models::portal_user::JWTClaims;
use crate::models::pricebook::{Pricebook, PricebookRecord};
use crate::models::product::Product;
use crate::route_utils::{
    commercyfy_fail_with, commercyfy_success, editing_roles, fails_with, found_or_fail,
    listed_or_nothing, refusal, refuse_editor, succeeds_with, CommercyfyResponse,
    CreatedEntryResponse, STATUS_BAD_REQUEST, STATUS_CREATED, STATUS_NOT_FOUND, STATUS_OK,
};
use crate::schemas::pricebook::{CreatePricebook, CreatePricebookRecord};
use crate::services::db::DbServiceResult;
use crate::services::role_validation::{holds_any, not_enough_permissions, RoleValidation};
use crate::services::unstructureddb::entry::{entries_view, ScalarView};
use crate::services::unstructureddb::UnstructuredDbObjectResult;
use crate::text::join3;
use crate::utils::custom_field_values::{
    custom_fields_or_empty, entry_pairs, values_map, CustomFieldValues,
};

verus! {

/// A price list as it is shown: with its records and its custom fields.
pub struct PricebookView {
    pub pricebook: Pricebook,
    pub records: Vec<PricebookRecord>,
    pub custom_fields: CustomFieldValues,
}

/// Puts the view of `pricebook` together from what the stores answered.
/// Records that could not be listed count as none, and custom fields that
/// could not be read as none.
pub fn pricebook_view(
    pricebook: Pricebook,
    records: DbServiceResult<Vec<PricebookRecord>>,
    custom_fields: UnstructuredDbObjectResult,
) -> (view: PricebookView)
    ensures
        view.pricebook == pricebook,
        match records {
            Ok(found) => view.records == found,
            Err(_) => view.records@.len() == 0,
        },
        view.custom_fields.wf(),
        view.custom_fields@ == match custom_fields {
            Ok(entries) => values_map(entry_pairs(entries_view(entries@))),
            Err(_) => Map::<Seq<char>, ScalarView>::empty(),
        },
{
    PricebookView {
        pricebook,
        records: listed_or_nothing(records),
        custom_fields: custom_fields_or_empty(custom_fields),
    }
}

/// What a request for an unknown price list is told.
pub open spec fn pricebook_missing(id: Seq<char>) -> Seq<char> {
    "Pricebook with the provided, "@ + id + ", id/reference was not found"@
}

/// The reply to a request for a price list that neither an identifier nor
/// a reference leads to.
pub fn pricebook_not_found<T>(id: &str) -> (reply: CommercyfyResponse<T>)
    ensures
        fails_with(reply, STATUS_NOT_FOUND, pricebook_missing(id@)),
{
    commercyfy_fail_with(
        STATUS_NOT_FOUND,
        join3("Pricebook with the provided, ", id, ", id/reference was not found"),
    )
}

/// Why a request to create a price list is refused before a store is
/// asked: the bearer may not change the catalog, or else the request is
/// not valid. `None` where it goes on.
pub open spec fn create_pricebook_rejection(claims: JWTClaims, payload: CreatePricebook) -> Option<
    Seq<char>,
> {
    if !holds_any(claims.roles@, editing_roles()) {
        Some(not_enough_permissions())
    } else {
        payload.rejection()
    }
}

/// Refuses a request to create a price list that may not go on.
pub fn refuse_create_pricebook(
    role_service: &RoleValidation,
    claims: &JWTClaims,
    payload: &CreatePricebook,
) -> (reply: Option<CommercyfyResponse<CreatedEntryResponse>>)
    ensures
        match create_pricebook_rejection(*claims, *payload) {
            Some(reason) => reply matches Some(refused) && fails_with(
                refused,
                STATUS_BAD_REQUEST,
                reason,
            ),
            None => reply is None,
        },
{
    match refuse_editor(role_service, claims) {
        Some(refused) => Some(refused),
        None => refusal(payload.validate()),
    }
}

/// Why a request to price a product is refused before a store is asked.
/// `None` where it goes on.
pub open spec fn create_price_rejection(claims: JWTClaims, payload: CreatePricebookRecord) -> Option<
    Seq<char>,
> {
    if !holds_any(claims.roles@, editing_roles()) {
        Some(not_enough_permissions())
    } else {
        payload.rejection()
    }
}

/// Refuses a request to price a product that may not go on.
pub fn refuse_create_pricebook_record(
    role_service: &RoleValidation,
    claims: &JWTClaims,
    payload: &CreatePricebookRecord,
) -> (reply: Option<CommercyfyResponse<CreatedEntryResponse>>)
    ensures
        match create_price_rejection(*claims, *payload) {
            Some(reason) => reply matches Some(refused) && fails_with(
                refused,
                STATUS_BAD_REQUEST,
                reason,
            ),
            None => reply is None,
        },
{
    match refuse_editor(role_service, claims) {
        Some(refused) => Some(refused),
        None => refusal(payload.validate()),
    }
}

/// What a request to price an unknown product is told.
pub open spec fn priced_product_missing(product_id: Seq<char>) -> Seq<char> {
    "Product with id '"@ + product_id + "' was not found."@
}

/// What a request to price a product in an unknown price list is told.
pub open spec fn priced_pricebook_missing(pricebook_id: Seq<char>) -> Seq<char> {
    "Pricebook with id '"@ + pricebook_id + "' was not found."@
}

/// The product of a new price, or the reply that ends the request.
pub fn product_of_price(looked_up: DbServiceResult<Option<Product>>, product_id: &str) -> (found:
    Result<Product, CommercyfyResponse<CreatedEntryResponse>>)
    ensures
        match looked_up {
            Ok(Some(product)) => found == Ok::<Product, CommercyfyResponse<CreatedEntryResponse>>(
                product,
            ),
            Ok(None) => found matches Err(reply) && fails_with(
                reply,
                STATUS_BAD_REQUEST,
                priced_product_missing(product_id@),
            ),
            Err(reason) => found matches Err(reply) && fails_with(
                reply,
                STATUS_BAD_REQUEST,
                reason@,
            ),
        },
{
    found_or_fail(
        looked_up,
        STATUS_BAD_REQUEST,
        join3("Product with id '", product_id, "' was not found."),
    )
}

/// The price list of a new price, or the reply that ends the request.
pub fn pricebook_of_price(looked_up: DbServiceResult<Option<Pricebook>>, pricebook_id: &str) -> (found:
    Result<Pricebook, CommercyfyResponse<CreatedEntryResponse>>)
    ensures
        match looked_up {
            Ok(Some(pricebook)) => found == Ok::<
                Pricebook,
                CommercyfyResponse<CreatedEntryResponse>,
            >(pricebook),
            Ok(None) => found matches Err(reply) && fails_with(
                reply,
                STATUS_BAD_REQUEST,
                priced_pricebook_missing(pricebook_id@),
            ),
            Err(reason) => found matches Err(reply) && fails_with(
                reply,
                STATUS_BAD_REQUEST,
                reason@,
            ),
        },
{
    found_or_fail(
        looked_up,
        STATUS_BAD_REQUEST,
        join3("Pricebook with id '", pricebook_id, "' was not found."),
    )
}

/// The reply to a request that priced a product: the identifier of the
/// record with the status 201.
pub fn pricebook_record_created_reply(created: DbServiceResult<PricebookRecord>) -> (reply:
    CommercyfyResponse<CreatedEntryResponse>)
    ensures
        match created {
            Ok(record) => succeeds_with(
                reply,
                STATUS_CREATED,
                CreatedEntryResponse { id: record.id },
            ),
            Err(reason) => fails_with(reply, STATUS_BAD_REQUEST, reason@),
        },
{
    match created {
        Ok(record) => crate::route_utils::created_reply(STATUS_CREATED, Ok(record.id)),
        Err(reason) => crate::route_utils::created_reply(STATUS_CREATED, Err(reason)),
    }
}

/// What a request for an unknown price is told.
pub open spec fn pricebook_record_missing() -> Seq<char> {
    "There is no pricebook record with the provided ids."@
}

/// The reply to a request for the price of a product in a price list.
pub fn pricebook_record_reply(looked_up: DbServiceResult<Option<PricebookRecord>>) -> (reply:
    CommercyfyResponse<PricebookRecord>)
    ensures
        match looked_up {
            Ok(Some(record)) => succeeds_with(reply, STATUS_OK, record),
            Ok(None) => fails_with(reply, STATUS_NOT_FOUND, pricebook_record_missing()),
            Err(reason) => fails_with(reply, STATUS_BAD_REQUEST, reason@),
        },
{
    match found_or_fail(
        looked_up,
        STATUS_NOT_FOUND,
        String::from_str("There is no pricebook record with the provided ids."),
    ) {
        Ok(record) => commercyfy_success(record),
        Err(reply) => reply,
    }
}

} // verus!
