use vstd::prelude::*;
use vstd::string::*;
use crate::models::base_extensions::FieldExtensionObject;
use crate::models::error::ExtensionError;
use crate::models::identifier::{entity_reference, identifier_text};
use crate::models::portal_user::JWTClaims;
use crate::route_utils::{
    attached_reply, commercyfy_fail, fails_with, reading_roles, refuse_reader, succeeds_with,
    CommercyfyResponse, CreatedEntryResponse, STATUS_BAD_REQUEST, STATUS_CREATED,
    STATUS_NOT_FOUND, STATUS_OK,
};
use crate::routes::category::{category_exists, category_missing, category_not_found};
use crate::routes::inventory::{inventory_exists, inventory_missing, inventory_not_found};
use crate::routes::pricebook::{pricebook_missing, pricebook_not_found};
use crate::routes::product::{
    assignment_failed, product_missing, product_not_found, refuse_failed_assignment,
};
use crate::services::db::DbServiceResult;
use crate::services::role_validation::{holds_any, not_enough_permissions, RoleValidation};
use crate::text::join3;

verus! {

/// What is to be done next for a request to show one entity of the
/// catalog.
pub enum DetailAction<E, T> {
    /// Look the entity up by the identifier that the request gives.
    FindById,
    /// Look the entity up by taking what the request gives for its
    /// reference.
    FindByReference,
    /// Fetch what belongs to the entity, put the view together and reply
    /// with it.
    Show(E),
    /// Reply with this.
    Reply(CommercyfyResponse<T>),
}

impl<E, T> DetailAction<E, T> {
    /// Whether the action is to reply with the failure `message` under
    /// the status `status`.
    pub open spec fn refuses(self, status: u16, message: Seq<char>) -> bool {
        self matches DetailAction::Reply(reply) && fails_with(reply, status, message)
    }
}

/// What a request for an entity of kind `object` is told when nothing is
/// found under `id`.
pub open spec fn entity_missing(object: FieldExtensionObject, id: Seq<char>) -> Seq<char> {
    match object {
        FieldExtensionObject::PRODUCT => product_missing(id),
        FieldExtensionObject::CATEGORY => category_missing(id),
        FieldExtensionObject::INVENTORY => inventory_missing(),
        FieldExtensionObject::PRICEBOOK => pricebook_missing(id),
    }
}

/// The reply to a request for an entity of kind `object` when nothing is
/// found under `id`.
pub fn entity_not_found<T>(object: FieldExtensionObject, id: &str) -> (reply: CommercyfyResponse<T>)
    ensures
        fails_with(reply, STATUS_NOT_FOUND, entity_missing(object, id@)),
{
    match object {
        FieldExtensionObject::PRODUCT => product_not_found(id),
        FieldExtensionObject::CATEGORY => category_not_found(id),
        FieldExtensionObject::INVENTORY => inventory_not_found(),
        FieldExtensionObject::PRICEBOOK => pricebook_not_found(id),
    }
}

/// Starts a request to show an entity: a bearer who may not read the
/// catalog is refused, for any other the entity is looked up by its
/// identifier.
pub fn begin_detail<E, T>(role_service: &RoleValidation, claims: &JWTClaims) -> (action:
    DetailAction<E, T>)
    ensures
        if holds_any(claims.roles@, reading_roles()) {
            action is FindById
        } else {
            action.refuses(STATUS_BAD_REQUEST, not_enough_permissions())
        },
{
    match refuse_reader(role_service, claims) {
        Some(refused) => DetailAction::Reply(refused),
        None => DetailAction::FindById,
    }
}

/// Takes the answer to the lookup by identifier. What was found is
/// shown. Where nothing was found, a product is missing, and any other
/// entity is looked up by reference. A failure of the store ends the
/// request, but for a category, which is then looked up by reference.
pub fn detail_after_id<E, T>(
    object: FieldExtensionObject,
    looked_up: DbServiceResult<Option<E>>,
    id: &str,
) -> (action: DetailAction<E, T>)
    ensures
        match looked_up {
            Ok(Some(entity)) => action matches DetailAction::Show(found) && found == entity,
            Ok(None) => if object == FieldExtensionObject::PRODUCT {
                action.refuses(STATUS_NOT_FOUND, product_missing(id@))
            } else {
                action is FindByReference
            },
            Err(reason) => if object == FieldExtensionObject::CATEGORY {
                action is FindByReference
            } else {
                action.refuses(STATUS_BAD_REQUEST, reason@)
            },
        },
{
    match looked_up {
        Ok(Some(entity)) => DetailAction::Show(entity),
        Ok(None) => match object {
            FieldExtensionObject::PRODUCT => DetailAction::Reply(product_not_found(id)),
            _ => DetailAction::FindByReference,
        },
        Err(reason) => match object {
            FieldExtensionObject::CATEGORY => DetailAction::FindByReference,
            _ => DetailAction::Reply(commercyfy_fail(reason)),
        },
    }
}

/// Takes the answer to the lookup by reference. What was found is shown,
/// and where nothing was found the entity is missing. A failure of the
/// store ends the request, but for a category, which then counts as
/// missing.
pub fn detail_after_reference<E, T>(
    object: FieldExtensionObject,
    looked_up: DbServiceResult<Option<E>>,
    id: &str,
) -> (action: DetailAction<E, T>)
    requires
        object != FieldExtensionObject::PRODUCT,
    ensures
        match looked_up {
            Ok(Some(entity)) => action matches DetailAction::Show(found) && found == entity,
            Ok(None) => action.refuses(STATUS_NOT_FOUND, entity_missing(object, id@)),
            Err(reason) => if object == FieldExtensionObject::CATEGORY {
                action.refuses(STATUS_NOT_FOUND, category_missing(id@))
            } else {
                action.refuses(STATUS_BAD_REQUEST, reason@)
            },
        },
{
    match looked_up {
        Ok(Some(entity)) => DetailAction::Show(entity),
        Ok(None) => DetailAction::Reply(entity_not_found(object, id)),
        Err(reason) => match object {
            FieldExtensionObject::CATEGORY => DetailAction::Reply(category_not_found(id)),
            _ => DetailAction::Reply(commercyfy_fail(reason)),
        },
    }
}

/// What is to be done next for a request to create an entity of the
/// catalog with its custom fields.
pub enum CreationAction {
    /// Look up whether the reference of the request is in use.
    FindByReference,
    /// Create the entity.
    Create,
    /// Put the product `id` into `categories`.
    Assign { id: u128, categories: Vec<u128> },
    /// Attach the custom fields of the request to the entity `id`, which
    /// the value store knows as `extr_ref`.
    Attach { id: u128, extr_ref: String },
    /// Reply with this.
    Reply(CommercyfyResponse<CreatedEntryResponse>),
}

impl CreationAction {
    /// Whether the action is to reply with the failure `message` under
    /// the status 400.
    pub open spec fn refuses(self, message: Seq<char>) -> bool {
        self matches CreationAction::Reply(reply) && fails_with(reply, STATUS_BAD_REQUEST, message)
    }

    /// Whether the action is to attach the custom fields to the entity
    /// `id`.
    pub open spec fn attaches_to(self, id: u128) -> bool {
        self matches CreationAction::Attach { id: entity, extr_ref } && entity == id && extr_ref@
            == identifier_text(id)
    }
}

/// Whether entities of kind `object` have a reference that no two of
/// them share.
pub open spec fn has_unique_reference(object: FieldExtensionObject) -> bool {
    object == FieldExtensionObject::CATEGORY || object == FieldExtensionObject::INVENTORY
}

/// The status of the reply to a request that created an entity of kind
/// `object`.
pub open spec fn created_status(object: FieldExtensionObject) -> u16 {
    if object == FieldExtensionObject::INVENTORY {
        STATUS_OK
    } else {
        STATUS_CREATED
    }
}

/// Starts the creation of an entity of kind `object`, given the refusal
/// of the request, if it is refused. A request that goes on has its
/// reference looked up where the kind has one, and is created otherwise.
pub fn begin_creation(
    object: FieldExtensionObject,
    refused: Option<CommercyfyResponse<CreatedEntryResponse>>,
) -> (action: CreationAction)
    ensures
        match refused {
            Some(reply) => action matches CreationAction::Reply(given) && given == reply,
            None => if has_unique_reference(object) {
                action is FindByReference
            } else {
                action is Create
            },
        },
{
    match refused {
        Some(reply) => CreationAction::Reply(reply),
        None => match object {
            FieldExtensionObject::CATEGORY | FieldExtensionObject::INVENTORY => {
                CreationAction::FindByReference
            },
            _ => CreationAction::Create,
        },
    }
}

/// What a request to create an entity of kind `object` is told whose
/// reference is in use.
pub open spec fn reference_taken(object: FieldExtensionObject, reference: Seq<char>) -> Seq<char> {
    if object == FieldExtensionObject::CATEGORY {
        category_exists(reference)
    } else {
        inventory_exists()
    }
}

/// Takes the answer to the lookup of the reference. A reference in use
/// ends the request. A failure of the store ends the creation of an
/// inventory; that of a category goes on.
pub fn creation_after_reference<E>(
    object: FieldExtensionObject,
    existing: DbServiceResult<Option<E>>,
    reference: &str,
) -> (action: CreationAction)
    requires
        has_unique_reference(object),
    ensures
        match existing {
            Ok(Some(_)) => action.refuses(reference_taken(object, reference@)),
            Ok(None) => action is Create,
            Err(reason) => if object == FieldExtensionObject::CATEGORY {
                action is Create
            } else {
                action.refuses(reason@)
            },
        },
{
    match existing {
        Ok(Some(_)) => match object {
            FieldExtensionObject::CATEGORY => CreationAction::Reply(
                commercyfy_fail(
                    join3(
                        "Category with 'category_reference' '",
                        reference,
                        "' already exists",
                    ),
                ),
            ),
            _ => CreationAction::Reply(
                commercyfy_fail(
                    String::from_str("Inventory with that reference already exists"),
                ),
            ),
        },
        Ok(None) => CreationAction::Create,
        Err(reason) => match object {
            FieldExtensionObject::CATEGORY => CreationAction::Create,
            _ => CreationAction::Reply(commercyfy_fail(reason)),
        },
    }
}

/// Takes the answer to the creation: the identifier of the new entity,
/// or the failure of the store, which ends the request. A new product is
/// first put into the categories that its request names, if it names
/// any; every other entity has its custom fields attached at once.
pub fn creation_after_create(
    object: FieldExtensionObject,
    created: DbServiceResult<u128>,
    category_assignments: Option<Vec<u128>>,
) -> (action: CreationAction)
    ensures
        match created {
            Ok(id) => match category_assignments {
                Some(categories) if object == FieldExtensionObject::PRODUCT => {
                    &&& action matches CreationAction::Assign { id: entity, categories: named }
                    &&& entity == id
                    &&& named == categories
                },
                _ => action.attaches_to(id),
            },
            Err(reason) => action.refuses(reason@),
        },
{
    let id = match created {
        Ok(id) => id,
        Err(reason) => return CreationAction::Reply(commercyfy_fail(reason)),
    };
    match object {
        FieldExtensionObject::PRODUCT => match category_assignments {
            Some(categories) => CreationAction::Assign { id, categories },
            None => CreationAction::Attach { id, extr_ref: entity_reference(id) },
        },
        _ => CreationAction::Attach { id, extr_ref: entity_reference(id) },
    }
}

/// Takes the answer to the assignment of the product `id` to its
/// categories: a failure ends the request, though the product exists.
pub fn creation_after_assignment(id: u128, assigned: DbServiceResult<()>) -> (action:
    CreationAction)
    ensures
        match assigned {
            Ok(()) => action.attaches_to(id),
            Err(reason) => action.refuses(assignment_failed(reason@)),
        },
{
    match refuse_failed_assignment(assigned) {
        Some(refused) => CreationAction::Reply(refused),
        None => CreationAction::Attach { id, extr_ref: entity_reference(id) },
    }
}

/// The reply that ends the creation of the entity `id` of kind `object`,
/// given how the attachment of its custom fields ended.
pub fn creation_after_attachment(
    object: FieldExtensionObject,
    id: u128,
    attached: Result<(), ExtensionError>,
) -> (reply: CommercyfyResponse<CreatedEntryResponse>)
    ensures
        match attached {
            Ok(()) => succeeds_with(reply, created_status(object), CreatedEntryResponse { id }),
            Err(error) => fails_with(reply, STATUS_BAD_REQUEST, error@.message()),
        },
{
    match object {
        FieldExtensionObject::INVENTORY => attached_reply(STATUS_OK, id, attached),
        _ => attached_reply(STATUS_CREATED, id, attached),
    }
}

} // verus!
