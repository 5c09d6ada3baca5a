use vstd::prelude::*;
use vstd::string::*;
use crate::models::identifier::{identifier_text, write_identifier};
use crate::models::inventory::{Inventory, ProductInventoryRecord};
use crate::models::portal_user::JWTClaims;
use crate::models::product::Product;
use crate::route_utils::{
    commercyfy_fail_with, commercyfy_success, editing_roles, fails_with, found_or_fail,
    listed_or_nothing, refusal, refuse_editor, succeeds_with, taken_or_fail, CommercyfyResponse,
    CreatedEntryResponse, STATUS_BAD_REQUEST, STATUS_NOT_FOUND, STATUS_OK,
};
use crate::schemas::inventory::{CreateInventory, CreateInventoryRecord};
use crate::services::db::DbServiceResult;
use crate::services::role_validation::{holds_any, not_enough_permissions, RoleValidation};
use crate::services::unstructureddb::entry::{entries_view, ScalarView};
use crate::services::unstructureddb::UnstructuredDbObjectResult;
use crate::text::join3;
use crate::utils::custom_field_values::{
    custom_fields_or_empty, entry_pairs, values_map, CustomFieldValues,
};

verus! {

/// An inventory as it is shown: with its records and its custom fields.
pub struct InventoryView {
    pub inventory: Inventory,
    pub records: Vec<ProductInventoryRecord>,
    pub custom_fields: CustomFieldValues,
}

/// Puts the view of `inventory` together from what the stores answered.
/// Records that could not be listed count as none, and custom fields that
/// could not be read as none.
pub fn inventory_view(
    inventory: Inventory,
    records: DbServiceResult<Vec<ProductInventoryRecord>>,
    custom_fields: UnstructuredDbObjectResult,
) -> (view: InventoryView)
    ensures
        view.inventory == inventory,
        match records {
            Ok(found) => view.records == found,
            Err(_) => view.records@.len() == 0,
        },
        view.custom_fields.wf(),
        view.custom_fields@ == match custom_fields {
            Ok(entries) => values_map(entry_pairs(entries_view(entries@))),
            Err(_) => Map::<Seq<char>, ScalarView>::empty(),
        },
{
    InventoryView {
        inventory,
        records: listed_or_nothing(records),
        custom_fields: custom_fields_or_empty(custom_fields),
    }
}

/// What a request for an unknown inventory is told.
pub open spec fn inventory_missing() -> Seq<char> {
    "Inventory with the provided id or reference could not be found"@
}

/// The reply to a request for an inventory that neither an identifier nor
/// a reference leads to.
pub fn inventory_not_found<T>() -> (reply: CommercyfyResponse<T>)
    ensures
        fails_with(reply, STATUS_NOT_FOUND, inventory_missing()),
{
    commercyfy_fail_with(
        STATUS_NOT_FOUND,
        String::from_str("Inventory with the provided id or reference could not be found"),
    )
}

/// Why a request to create an inventory is refused before a store is
/// asked: the bearer may not change the catalog, or else the request is
/// not valid. `None` where it goes on.
pub open spec fn create_inventory_rejection(claims: JWTClaims, payload: CreateInventory) -> Option<
    Seq<char>,
> {
    if !holds_any(claims.roles@, editing_roles()) {
        Some(not_enough_permissions())
    } else {
        payload.rejection()
    }
}

/// Refuses a request to create an inventory that may not go on.
pub fn refuse_create_inventory(
    role_service: &RoleValidation,
    claims: &JWTClaims,
    payload: &CreateInventory,
) -> (reply: Option<CommercyfyResponse<CreatedEntryResponse>>)
    ensures
        match create_inventory_rejection(*claims, *payload) {
            Some(reason) => reply matches Some(refused) && fails_with(
                refused,
                STATUS_BAD_REQUEST,
                reason,
            ),
            None => reply is None,
        },
{
    match refuse_editor(role_service, claims) {
        Some(refused) => Some(refused),
        None => refusal(payload.validate()),
    }
}

/// What a request for an inventory whose reference is in use is told.
pub open spec fn inventory_exists() -> Seq<char> {
    "Inventory with that reference already exists"@
}

/// Why a request to record an allocation is refused before a store is
/// asked. `None` where it goes on.
pub open spec fn create_record_rejection(claims: JWTClaims, payload: CreateInventoryRecord) -> Option<
    Seq<char>,
> {
    if !holds_any(claims.roles@, editing_roles()) {
        Some(not_enough_permissions())
    } else {
        payload.rejection()
    }
}

/// Refuses a request to record an allocation that may not go on.
pub fn refuse_create_inventory_record(
    role_service: &RoleValidation,
    claims: &JWTClaims,
    payload: &CreateInventoryRecord,
) -> (reply: Option<CommercyfyResponse<CreatedEntryResponse>>)
    ensures
        match create_record_rejection(*claims, *payload) {
            Some(reason) => reply matches Some(refused) && fails_with(
                refused,
                STATUS_BAD_REQUEST,
                reason,
            ),
            None => reply is None,
        },
{
    match refuse_editor(role_service, claims) {
        Some(refused) => Some(refused),
        None => refusal(payload.validate()),
    }
}

/// What a request to record an allocation in an unknown inventory is
/// told.
pub open spec fn record_inventory_missing(inventory_id: u128) -> Seq<char> {
    "Inventory with reference '"@ + identifier_text(inventory_id) + "' does not exist"@
}

/// What a request to record an allocation of an unknown product is told.
pub open spec fn record_product_missing(product_id: u128) -> Seq<char> {
    "Product with id '"@ + identifier_text(product_id) + "' does not exist"@
}

/// What a request to record an allocation that is recorded already is
/// told.
pub open spec fn record_exists() -> Seq<char> {
    "Record for the provided product already exists in the provided inventory"@
}

/// The inventory of a new record, or the reply that ends the request.
pub fn inventory_of_record(looked_up: DbServiceResult<Option<Inventory>>, inventory_id: u128) -> (found:
    Result<Inventory, CommercyfyResponse<CreatedEntryResponse>>)
    ensures
        match looked_up {
            Ok(Some(inventory)) => found == Ok::<
                Inventory,
                CommercyfyResponse<CreatedEntryResponse>,
            >(inventory),
            Ok(None) => found matches Err(reply) && fails_with(
                reply,
                STATUS_BAD_REQUEST,
                record_inventory_missing(inventory_id),
            ),
            Err(reason) => found matches Err(reply) && fails_with(
                reply,
                STATUS_BAD_REQUEST,
                reason@,
            ),
        },
{
    let text = write_identifier(inventory_id);
    found_or_fail(
        looked_up,
        STATUS_BAD_REQUEST,
        join3("Inventory with reference '", text.as_str(), "' does not exist"),
    )
}

/// The product of a new record, or the reply that ends the request.
pub fn product_of_record(looked_up: DbServiceResult<Option<Product>>, product_id: u128) -> (found:
    Result<Product, CommercyfyResponse<CreatedEntryResponse>>)
    ensures
        match looked_up {
            Ok(Some(product)) => found == Ok::<Product, CommercyfyResponse<CreatedEntryResponse>>(
                product,
            ),
            Ok(None) => found matches Err(reply) && fails_with(
                reply,
                STATUS_BAD_REQUEST,
                record_product_missing(product_id),
            ),
            Err(reason) => found matches Err(reply) && fails_with(
                reply,
                STATUS_BAD_REQUEST,
                reason@,
            ),
        },
{
    let text = write_identifier(product_id);
    found_or_fail(
        looked_up,
        STATUS_BAD_REQUEST,
        join3("Product with id '", text.as_str(), "' does not exist"),
    )
}

/// Ends a request to record an allocation that is recorded already, or
/// whose lookup failed.
pub fn inventory_record_taken(existing: DbServiceResult<Option<ProductInventoryRecord>>) -> (reply:
    Option<CommercyfyResponse<CreatedEntryResponse>>)
    ensures
        match existing {
            Ok(Some(_)) => reply matches Some(refused) && fails_with(
                refused,
                STATUS_BAD_REQUEST,
                record_exists(),
            ),
            Ok(None) => reply is None,
            Err(reason) => reply matches Some(refused) && fails_with(
                refused,
                STATUS_BAD_REQUEST,
                reason@,
            ),
        },
{
    taken_or_fail(
        existing,
        String::from_str("Record for the provided product already exists in the provided inventory"),
    )
}

/// What a request for an unknown record is told.
pub open spec fn record_missing() -> Seq<char> {
    "No record was found"@
}

/// The reply to a request for the record of a product in an inventory.
pub fn inventory_record_reply(looked_up: DbServiceResult<Option<ProductInventoryRecord>>) -> (reply:
    CommercyfyResponse<ProductInventoryRecord>)
    ensures
        match looked_up {
            Ok(Some(record)) => succeeds_with(reply, STATUS_OK, record),
            Ok(None) => fails_with(reply, STATUS_NOT_FOUND, record_missing()),
            Err(reason) => fails_with(reply, STATUS_BAD_REQUEST, reason@),
        },
{
    match found_or_fail(looked_up, STATUS_NOT_FOUND, String::from_str("No record was found")) {
        Ok(record) => commercyfy_success(record),
        Err(reply) => reply,
    }
}

} // verus!
