use vstd::prelude::*;
use vstd::string::*;
use crate::models::category::Category;
use crate::models::inventory::ProductInventoryRecord;
use crate::models::portal_user::JWTClaims;
use crate::models::pricebook::PricebookRecord;
use crate::models::product::{Product, ProductImage};
use crate::route_utils::{
    commercyfy_fail, commercyfy_fail_with, commercyfy_success, editing_roles, fails_with,
    listed_or_nothing, refusal, refuse_editor, succeeds_with, CommercyfyResponse,
    CreatedEntryResponse, STATUS_BAD_REQUEST, STATUS_NOT_FOUND, STATUS_OK,
};
use crate::schemas::product::{CreateProduct, CreateProductImage};
use crate::services::db::DbServiceResult;
use crate::services::role_validation::{holds_any, not_enough_permissions, RoleValidation};
use crate::services::unstructureddb::entry::{entries_view, ScalarView};
use crate::services::unstructureddb::UnstructuredDbObjectResult;
use crate::text::{contains_text, has_subtext, join3};
use crate::utils::custom_field_values::{
    custom_fields_or_empty, entry_pairs, values_map, CustomFieldValues,
};

verus! {

/// A product as it is shown: with its images and its custom fields, and
/// with the parts that the request asked to be added.
pub struct ProductView {
    pub product: Product,
    pub images: Vec<ProductImage>,
    pub custom_fields: CustomFieldValues,
    pub categories: Option<Vec<Category>>,
    pub inventories: Option<Vec<ProductInventoryRecord>>,
    pub pricebooks: Option<Vec<PricebookRecord>>,
}

/// What a request for an unknown product is told.
pub open spec fn product_missing(id: Seq<char>) -> Seq<char> {
    "Product with 'id' '"@ + id + "' is not found"@
}

/// The reply to a request for a product that its identifier does not
/// lead to.
pub fn product_not_found<T>(id: &str) -> (reply: CommercyfyResponse<T>)
    ensures
        fails_with(reply, STATUS_NOT_FOUND, product_missing(id@)),
{
    commercyfy_fail_with(STATUS_NOT_FOUND, join3("Product with 'id' '", id, "' is not found"))
}

/// The product that a lookup found, or the reply that ends the request:
/// a failure of the store is passed on, and an unknown product is not
/// found.
pub fn product_found<T>(looked_up: DbServiceResult<Option<Product>>, id: &str) -> (found: Result<
    Product,
    CommercyfyResponse<T>,
>)
    ensures
        match looked_up {
            Ok(Some(product)) => found == Ok::<Product, CommercyfyResponse<T>>(product),
            Ok(None) => found matches Err(reply) && fails_with(
                reply,
                STATUS_NOT_FOUND,
                product_missing(id@),
            ),
            Err(reason) => found matches Err(reply) && fails_with(
                reply,
                STATUS_BAD_REQUEST,
                reason@,
            ),
        },
{
    match looked_up {
        Ok(Some(product)) => Ok(product),
        Ok(None) => Err(product_not_found(id)),
        Err(reason) => Err(commercyfy_fail(reason)),
    }
}

/// Puts the view of `product` together from what the stores answered,
/// without the parts that have to be asked for. Images that could not be
/// listed count as none, and custom fields that could not be read as
/// none.
pub fn product_view(
    product: Product,
    images: DbServiceResult<Vec<ProductImage>>,
    custom_fields: UnstructuredDbObjectResult,
) -> (view: ProductView)
    ensures
        view.product == product,
        match images {
            Ok(found) => view.images == found,
            Err(_) => view.images@.len() == 0,
        },
        view.custom_fields.wf(),
        view.custom_fields@ == match custom_fields {
            Ok(entries) => values_map(entry_pairs(entries_view(entries@))),
            Err(_) => Map::<Seq<char>, ScalarView>::empty(),
        },
        view.categories is None,
        view.inventories is None,
        view.pricebooks is None,
{
    ProductView {
        product,
        images: listed_or_nothing(images),
        custom_fields: custom_fields_or_empty(custom_fields),
        categories: None,
        inventories: None,
        pricebooks: None,
    }
}

/// Whether the parameter `extend` of a request asks for `part`: it does
/// where it is given and `part` stands somewhere in it.
pub open spec fn asks_for(extend: Option<&str>, part: Seq<char>) -> bool {
    match extend {
        Some(value) => has_subtext(value@, part),
        None => false,
    }
}

/// Whether the request asks for the categories of the product.
pub fn extends_categories(extend: Option<&str>) -> (asked: bool)
    ensures
        asked == asks_for(extend, "categories"@),
{
    match extend {
        Some(value) => contains_text(value, "categories"),
        None => false,
    }
}

/// Whether the request asks for the inventories of the product.
pub fn extends_inventories(extend: Option<&str>) -> (asked: bool)
    ensures
        asked == asks_for(extend, "inventories"@),
{
    match extend {
        Some(value) => contains_text(value, "inventories"),
        None => false,
    }
}

/// Whether the request asks for the price lists of the product.
pub fn extends_pricebooks(extend: Option<&str>) -> (asked: bool)
    ensures
        asked == asks_for(extend, "pricebooks"@),
{
    match extend {
        Some(value) => contains_text(value, "pricebooks"),
        None => false,
    }
}

/// Adds the categories of the product to its view; a failure of the
/// store ends the request.
pub fn with_categories(view: ProductView, listed: DbServiceResult<Vec<Category>>) -> (extended:
    Result<ProductView, CommercyfyResponse<ProductView>>)
    ensures
        match listed {
            Ok(categories) => extended == Ok::<ProductView, CommercyfyResponse<ProductView>>(
                ProductView { categories: Some(categories), ..view },
            ),
            Err(reason) => extended matches Err(reply) && fails_with(
                reply,
                STATUS_BAD_REQUEST,
                reason@,
            ),
        },
{
    match listed {
        Ok(categories) => {
            let mut view = view;
            view.categories = Some(categories);
            Ok(view)
        },
        Err(reason) => Err(commercyfy_fail(reason)),
    }
}

/// Adds the inventory records of the product to its view; a failure of
/// the store ends the request.
pub fn with_inventories(
    view: ProductView,
    listed: DbServiceResult<Vec<ProductInventoryRecord>>,
) -> (extended: Result<ProductView, CommercyfyResponse<ProductView>>)
    ensures
        match listed {
            Ok(records) => extended == Ok::<ProductView, CommercyfyResponse<ProductView>>(
                ProductView { inventories: Some(records), ..view },
            ),
            Err(reason) => extended matches Err(reply) && fails_with(
                reply,
                STATUS_BAD_REQUEST,
                reason@,
            ),
        },
{
    match listed {
        Ok(records) => {
            let mut view = view;
            view.inventories = Some(records);
            Ok(view)
        },
        Err(reason) => Err(commercyfy_fail(reason)),
    }
}

/// Adds the prices of the product to its view; a failure of the store
/// ends the request.
pub fn with_pricebooks(view: ProductView, listed: DbServiceResult<Vec<PricebookRecord>>) -> (extended:
    Result<ProductView, CommercyfyResponse<ProductView>>)
    ensures
        match listed {
            Ok(records) => extended == Ok::<ProductView, CommercyfyResponse<ProductView>>(
                ProductView { pricebooks: Some(records), ..view },
            ),
            Err(reason) => extended matches Err(reply) && fails_with(
                reply,
                STATUS_BAD_REQUEST,
                reason@,
            ),
        },
{
    match listed {
        Ok(records) => {
            let mut view = view;
            view.pricebooks = Some(records);
            Ok(view)
        },
        Err(reason) => Err(commercyfy_fail(reason)),
    }
}

/// Why a request to create a product is refused before a store is asked:
/// the bearer may not change the catalog, or else the request is not
/// valid. `None` where it goes on.
pub open spec fn create_product_rejection(claims: JWTClaims, payload: CreateProduct) -> Option<
    Seq<char>,
> {
    if !holds_any(claims.roles@, editing_roles()) {
        Some(not_enough_permissions())
    } else {
        payload.rejection()
    }
}

/// Refuses a request to create a product that may not go on.
pub fn refuse_create_product(
    role_service: &RoleValidation,
    claims: &JWTClaims,
    payload: &CreateProduct,
) -> (reply: Option<CommercyfyResponse<CreatedEntryResponse>>)
    ensures
        match create_product_rejection(*claims, *payload) {
            Some(reason) => reply matches Some(refused) && fails_with(
                refused,
                STATUS_BAD_REQUEST,
                reason,
            ),
            None => reply is None,
        },
{
    match refuse_editor(role_service, claims) {
        Some(refused) => Some(refused),
        None => refusal(payload.validate()),
    }
}

/// What a request is told whose product was created but could not be put
/// into its categories.
pub open spec fn assignment_failed(reason: Seq<char>) -> Seq<char> {
    "Assignment failed because: "@ + reason
        + ", but the cretion of the product should be successfull"@
}

/// Ends the request where the new product could not be put into its
/// categories; `None` where it could.
pub fn refuse_failed_assignment(assigned: DbServiceResult<()>) -> (reply: Option<
    CommercyfyResponse<CreatedEntryResponse>,
>)
    ensures
        match assigned {
            Ok(()) => reply is None,
            Err(reason) => reply matches Some(refused) && fails_with(
                refused,
                STATUS_BAD_REQUEST,
                assignment_failed(reason@),
            ),
        },
{
    match assigned {
        Ok(()) => None,
        Err(reason) => Some(
            commercyfy_fail(
                join3(
                    "Assignment failed because: ",
                    reason.as_str(),
                    ", but the cretion of the product should be successfull",
                ),
            ),
        ),
    }
}

/// Why a request to add an image to a product is refused before a store
/// is asked. `None` where it goes on.
pub open spec fn create_image_rejection(claims: JWTClaims, payload: CreateProductImage) -> Option<
    Seq<char>,
> {
    if !holds_any(claims.roles@, editing_roles()) {
        Some(not_enough_permissions())
    } else {
        payload.rejection()
    }
}

/// Refuses a request to add an image to a product that may not go on.
pub fn refuse_create_image(
    role_service: &RoleValidation,
    claims: &JWTClaims,
    payload: &CreateProductImage,
) -> (reply: Option<CommercyfyResponse<CreatedEntryResponse>>)
    ensures
        match create_image_rejection(*claims, *payload) {
            Some(reason) => reply matches Some(refused) && fails_with(
                refused,
                STATUS_BAD_REQUEST,
                reason,
            ),
            None => reply is None,
        },
{
    match refuse_editor(role_service, claims) {
        Some(refused) => Some(refused),
        None => refusal(payload.validate()),
    }
}

/// The reply to a request that added an image to a product: the
/// identifier of the image with the status 200.
pub fn image_created_reply(created: DbServiceResult<ProductImage>) -> (reply: CommercyfyResponse<
    CreatedEntryResponse,
>)
    ensures
        match created {
            Ok(image) => succeeds_with(reply, STATUS_OK, CreatedEntryResponse { id: image.id }),
            Err(reason) => fails_with(reply, STATUS_BAD_REQUEST, reason@),
        },
{
    match created {
        Ok(image) => commercyfy_success(CreatedEntryResponse { id: image.id }),
        Err(reason) => commercyfy_fail(reason),
    }
}

} // verus!
