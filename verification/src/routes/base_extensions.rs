use vstd::prelude::*;
use vstd::string::*;
use crate::models::base_extensions::{FieldExtension, FieldExtensionObject, FieldExtensionView};
use crate::models::error::{ExtensionError, ExtensionErrorView};
use crate::route_utils::{
    commercyfy_fail, commercyfy_fail_with, commercyfy_success_with,
    fails_with, reply_with, succeeds_with, CommercyfyResponse, CommercyfyResponseData, CreatedEntryResponse,
    STATUS_BAD_REQUEST, STATUS_CREATED, STATUS_NOT_FOUND, STATUS_OK,
};
use crate::schemas::base_extensions::{CreateCustomField, CreateCustomFieldView};
use crate::services::db::{
    definitions_of, definitions_view, find_definition, lemma_find_after_push,
    requested_definition, DbServiceResult, FieldRegistryView,
    MemoryFieldRegistry,
};
use crate::text::{join3, lowercase_of, same_text, to_lowercase};

verus! {

/// The object kind that a lowercase name stands for.
pub open spec fn object_named(lower: Seq<char>) -> Option<FieldExtensionObject> {
    if lower == "product"@ {
        Some(FieldExtensionObject::PRODUCT)
    } else if lower == "category"@ {
        Some(FieldExtensionObject::CATEGORY)
    } else if lower == "inventory"@ {
        Some(FieldExtensionObject::INVENTORY)
    } else if lower == "pricebook"@ {
        Some(FieldExtensionObject::PRICEBOOK)
    } else {
        None
    }
}

/// The object kind that a path segment stands for: the case of its
/// letters does not count.
pub open spec fn object_of_segment(object_type: Seq<char>) -> Option<FieldExtensionObject> {
    object_named(lowercase_of(object_type))
}

/// The object kind that the lowercase name `lower` stands for, if any.
pub fn object_from_lowercase(lower: &str) -> (object: Option<FieldExtensionObject>)
    ensures
        object == object_named(lower@),
{
    if same_text(lower, "product") {
        Some(FieldExtensionObject::PRODUCT)
    } else if same_text(lower, "category") {
        Some(FieldExtensionObject::CATEGORY)
    } else if same_text(lower, "inventory") {
        Some(FieldExtensionObject::INVENTORY)
    } else if same_text(lower, "pricebook") {
        Some(FieldExtensionObject::PRICEBOOK)
    } else {
        None
    }
}

/// The object kind that the path segment `object_type` stands for, if
/// any. Any other segment is a miss, not a failure.
pub fn parse_object_type(object_type: &str) -> (object: Option<FieldExtensionObject>)
    ensures
        object == object_of_segment(object_type@),
{
    let lower = to_lowercase(object_type);
    object_from_lowercase(lower.as_str())
}

/// What a request for the fields of the object kind named by a path
/// segment is answered from `definitions`: the definitions of that kind,
/// or `None` where the segment names no kind.
pub open spec fn listing_of(definitions: Seq<FieldExtensionView>, object_type: Seq<char>) -> Option<
    Seq<FieldExtensionView>,
> {
    match object_of_segment(object_type) {
        Some(object) => Some(definitions_of(definitions, object)),
        None => None,
    }
}

/// The case of the letters of a path segment does not count: two
/// segments with the same lowercase form stand for the same object kind,
/// and the fields of that kind are listed alike for both.
pub proof fn lemma_object_type_ignores_case(
    definitions: Seq<FieldExtensionView>,
    first: Seq<char>,
    second: Seq<char>,
)
    requires
        lowercase_of(first) == lowercase_of(second),
    ensures
        object_of_segment(first) == object_of_segment(second),
        listing_of(definitions, first) == listing_of(definitions, second),
{
}

/// What a request for the fields of an unknown object kind is told.
pub open spec fn unknown_object_type(object_type: Seq<char>) -> Seq<char> {
    "There is no object type '"@ + object_type + "'"@
}

/// The reply to a request for the fields of an object kind that the path
/// segment `object_type` does not name.
pub fn unknown_object_reply<T>(object_type: &str) -> (reply: CommercyfyResponse<T>)
    ensures
        fails_with(reply, STATUS_NOT_FOUND, unknown_object_type(object_type@)),
{
    commercyfy_fail_with(STATUS_NOT_FOUND, join3("There is no object type '", object_type, "'"))
}

/// The reply to a request for the fields of an object kind, given what
/// the registry answered.
pub fn extensions_reply(listed: DbServiceResult<Vec<FieldExtension>>) -> (reply: CommercyfyResponse<
    Vec<FieldExtension>,
>)
    ensures
        match listed {
            Ok(definitions) => succeeds_with(reply, STATUS_OK, definitions),
            Err(reason) => fails_with(reply, STATUS_BAD_REQUEST, reason@),
        },
{
    reply_with(STATUS_OK, listed)
}

/// Answers a request for the fields of the object kind that the path
/// segment `object_type` names.
pub fn get_extensions(registry: &MemoryFieldRegistry, object_type: &str) -> (reply:
    CommercyfyResponse<Vec<FieldExtension>>)
    ensures
        match listing_of(registry@.definitions, object_type@) {
            Some(listing) => {
                &&& reply.0 == STATUS_OK
                &&& reply.1 matches CommercyfyResponseData::Success(definitions)
                &&& definitions_view(definitions@) == listing
            },
            None => fails_with(reply, STATUS_NOT_FOUND, unknown_object_type(object_type@)),
        },
{
    let object = match parse_object_type(object_type) {
        Some(object) => object,
        None => return unknown_object_reply(object_type),
    };
    extensions_reply(registry.get_custom_fields(object))
}

/// A request for a new field that has passed validation and waits for
/// the registry to say whether the field exists.
pub struct PendingDefinition {
    pub payload: CreateCustomField,
}

/// Starts the creation of a field definition: a request without a name is
/// refused, any other is to be looked up in the registry.
pub fn begin_definition(payload: CreateCustomField) -> (begun: Result<
    PendingDefinition,
    ExtensionError,
>)
    ensures
        begun is Ok <==> payload.valid(),
        begun matches Ok(pending) ==> pending.payload == payload,
        begun matches Err(error) ==> error@ == ExtensionErrorView::Validation(
            "'name' is mandatory field"@,
        ),
{
    match payload.validate() {
        Ok(()) => Ok(PendingDefinition { payload }),
        Err(message) => Err(ExtensionError::Validation(message)),
    }
}

impl PendingDefinition {
    /// The object kind to look the field up on.
    pub fn object(&self) -> (object: FieldExtensionObject)
        ensures
            object == self.payload.object,
    {
        self.payload.object
    }

    /// The name to look up.
    pub fn name(&self) -> (name: &str)
        ensures
            name@ == self.payload.base_felds.name@,
    {
        self.payload.base_felds.name.as_str()
    }

    /// Takes the registry's answer to the lookup. A failure of the
    /// registry is passed on, an existing field is a duplicate, and
    /// otherwise the request is handed back to be registered.
    pub fn on_lookup(self, found: DbServiceResult<Option<FieldExtension>>) -> (next: Result<
        CreateCustomField,
        ExtensionError,
    >)
        ensures
            match found {
                Err(message) => next matches Err(error) && error@
                    == ExtensionErrorView::Persistence(message@),
                Ok(Some(_)) => next matches Err(error) && error@
                    == ExtensionErrorView::DuplicateField,
                Ok(None) => next == Ok::<CreateCustomField, ExtensionError>(self.payload),
            },
    {
        match found {
            Err(message) => Err(ExtensionError::Persistence(message)),
            Ok(Some(_)) => Err(ExtensionError::DuplicateField),
            Ok(None) => Ok(self.payload),
        }
    }
}

/// Takes the registry's answer to the registration: the definition, or
/// the registry's failure as it is.
pub fn definition_created(created: DbServiceResult<FieldExtension>) -> (result: Result<
    FieldExtension,
    ExtensionError,
>)
    ensures
        match created {
            Ok(definition) => result == Ok::<FieldExtension, ExtensionError>(definition),
            Err(message) => result matches Err(error) && error@
                == ExtensionErrorView::Persistence(message@),
        },
{
    match created {
        Ok(definition) => Ok(definition),
        Err(message) => Err(ExtensionError::Persistence(message)),
    }
}

/// Why the creation of the field that `payload` asks for fails on
/// `registry`, or `None` where it succeeds.
pub open spec fn creation_error(
    registry: FieldRegistryView,
    payload: CreateCustomFieldView,
) -> Option<ExtensionErrorView> {
    if payload.name.len() == 0 {
        Some(ExtensionErrorView::Validation("'name' is mandatory field"@))
    } else if find_definition(registry.definitions, payload.object, payload.name) is Some {
        Some(ExtensionErrorView::DuplicateField)
    } else if registry.next_id == u128::MAX {
        Some(ExtensionErrorView::Persistence("no identifier is left for a new field"@))
    } else {
        None
    }
}

/// The registry after the creation of the field that `payload` asks for:
/// with the new definition at its end where the creation succeeds, and as
/// it was where it fails.
pub open spec fn registry_after_creation(
    registry: FieldRegistryView,
    payload: CreateCustomFieldView,
) -> FieldRegistryView {
    if creation_error(registry, payload) is None {
        FieldRegistryView {
            definitions: registry.definitions.push(
                requested_definition(payload, registry.next_id),
            ),
            next_id: (registry.next_id + 1) as u128,
        }
    } else {
        registry
    }
}

/// Creates the field definition that `payload` asks for in `registry`.
pub fn create_field_definition(registry: &mut MemoryFieldRegistry, payload: CreateCustomField) -> (result:
    Result<FieldExtension, ExtensionError>)
    requires
        old(registry).wf(),
    ensures
        final(registry).wf(),
        final(registry)@ == registry_after_creation(old(registry)@, payload@),
        match creation_error(old(registry)@, payload@) {
            Some(reason) => result matches Err(error) && error@ == reason,
            None => result matches Ok(definition) && definition@ == requested_definition(
                payload@,
                old(registry)@.next_id,
            ),
        },
{
    let pending = match begin_definition(payload) {
        Ok(pending) => pending,
        Err(error) => return Err(error),
    };
    let found = registry.get_custom_field(pending.object(), pending.name());
    let accepted = match pending.on_lookup(found) {
        Ok(accepted) => accepted,
        Err(error) => return Err(error),
    };
    let created = registry.create_custom_field(accepted);
    definition_created(created)
}

/// The names of the fields of an object kind are unique: once a field was
/// created, a second creation under its name on its object kind fails as
/// a duplicate, whatever else the second request says.
pub proof fn lemma_second_creation_is_duplicate(
    registry: FieldRegistryView,
    first: CreateCustomFieldView,
    second: CreateCustomFieldView,
)
    requires
        creation_error(registry, first) is None,
        second.object == first.object,
        second.name == first.name,
    ensures
        creation_error(registry_after_creation(registry, first), second) == Some(
            ExtensionErrorView::DuplicateField,
        ),
{
    lemma_find_after_push(
        registry.definitions,
        requested_definition(first, registry.next_id),
        second.object,
        second.name,
    );
}

/// Uniqueness is scoped to the object kind: the creation of a field does
/// not change what a lookup on another object kind finds, so a valid
/// request for the same name on another kind, which was free before, still
/// succeeds while an identifier is left.
pub proof fn lemma_creation_leaves_other_objects(
    registry: FieldRegistryView,
    first: CreateCustomFieldView,
    second: CreateCustomFieldView,
)
    requires
        creation_error(registry, first) is None,
        second.object != first.object,
    ensures
        find_definition(
            registry_after_creation(registry, first).definitions,
            second.object,
            second.name,
        ) == find_definition(registry.definitions, second.object, second.name),
        second.name.len() > 0 && find_definition(
            registry.definitions,
            second.object,
            second.name,
        ) is None && registry.next_id + 1 < u128::MAX ==> creation_error(
            registry_after_creation(registry, first),
            second,
        ) is None,
{
    lemma_find_after_push(
        registry.definitions,
        requested_definition(first, registry.next_id),
        second.object,
        second.name,
    );
}

/// The reply to a request for a new field: the identifier of the
/// definition with the status 201, or the message of the failure with
/// the status 400.
pub fn extension_created_reply(result: Result<FieldExtension, ExtensionError>) -> (reply:
    CommercyfyResponse<CreatedEntryResponse>)
    ensures
        match result {
            Ok(definition) => succeeds_with(
                reply,
                STATUS_CREATED,
                CreatedEntryResponse { id: definition.id },
            ),
            Err(error) => fails_with(reply, STATUS_BAD_REQUEST, error@.message()),
        },
{
    match result {
        Ok(definition) => commercyfy_success_with(
            STATUS_CREATED,
            CreatedEntryResponse { id: definition.id },
        ),
        Err(error) => commercyfy_fail(error.message()),
    }
}

/// Answers a request for a new field.
pub fn create_extension(registry: &mut MemoryFieldRegistry, payload: CreateCustomField) -> (reply:
    CommercyfyResponse<CreatedEntryResponse>)
    requires
        old(registry).wf(),
    ensures
        final(registry).wf(),
        final(registry)@ == registry_after_creation(old(registry)@, payload@),
        match creation_error(old(registry)@, payload@) {
            Some(reason) => fails_with(reply, STATUS_BAD_REQUEST, reason.message()),
            None => succeeds_with(
                reply,
                STATUS_CREATED,
                CreatedEntryResponse { id: old(registry)@.next_id },
            ),
        },
{
    extension_created_reply(create_field_definition(registry, payload))
}

} // verus!
