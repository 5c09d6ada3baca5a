use commercyfy_core::models::base_extensions::FieldExtensionObject;
use commercyfy_core::models::error::ExtensionError;
use commercyfy_core::models::portal_user::{JWTClaims, PortalUsersRoles};
use commercyfy_core::route_utils::{
    commercyfy_fail, CommercyfyResponse, CommercyfyResponseData, CreatedEntryResponse,
};
use commercyfy_core::routes::entity::{
    begin_creation, begin_detail, creation_after_assignment, creation_after_attachment,
    creation_after_create, creation_after_reference, detail_after_id, detail_after_reference,
    entity_not_found, CreationAction, DetailAction,
};
use commercyfy_core::services::role_validation::RoleValidation;

const KINDS: [FieldExtensionObject; 4] = [
    FieldExtensionObject::PRODUCT,
    FieldExtensionObject::CATEGORY,
    FieldExtensionObject::INVENTORY,
    FieldExtensionObject::PRICEBOOK,
];

fn failure<T>(reply: CommercyfyResponse<T>) -> (u16, String) {
    match reply {
        (status, CommercyfyResponseData::Error { error }) => (status, error),
        _ => panic!("the reply is no failure"),
    }
}

fn shown(action: DetailAction<u8, u8>) -> String {
    match action {
        DetailAction::FindById => "find by id".to_string(),
        DetailAction::FindByReference => "find by reference".to_string(),
        DetailAction::Show(entity) => format!("show {}", entity),
        DetailAction::Reply(reply) => {
            let (status, message) = failure(reply);
            format!("{} {}", status, message)
        }
    }
}

fn told(action: CreationAction) -> String {
    match action {
        CreationAction::FindByReference => "find by reference".to_string(),
        CreationAction::Create => "create".to_string(),
        CreationAction::Assign { id, categories } => format!("assign {} {:?}", id, categories),
        CreationAction::Attach { id, extr_ref } => format!("attach {} {}", id, extr_ref),
        CreationAction::Reply((status, CommercyfyResponseData::Error { error })) => {
            format!("{} {}", status, error)
        }
        CreationAction::Reply((status, CommercyfyResponseData::Success(created))) => {
            format!("{} created {}", status, created.id)
        }
    }
}

#[test]
fn detail_begins_with_the_role_of_the_bearer() {
    let service = RoleValidation::default();
    let claims =
        |roles| JWTClaims { email: "a@b.c".to_string(), exp: 0, roles };
    assert_eq!(shown(begin_detail(&service, &claims(vec![PortalUsersRoles::READER]))), "find by id");
    assert_eq!(shown(begin_detail(&service, &claims(vec![PortalUsersRoles::ADMIN]))), "find by id");
    assert_eq!(
        shown(begin_detail(&service, &claims(vec![PortalUsersRoles::EDITOR]))),
        "400 Not enough permissions"
    );
    assert_eq!(shown(begin_detail(&service, &claims(vec![]))), "400 Not enough permissions");
}

#[test]
fn what_is_found_by_identifier_is_shown() {
    for object in KINDS {
        assert_eq!(shown(detail_after_id(object, Ok(Some(7)), "x")), "show 7");
    }
}

#[test]
fn only_a_product_is_missing_after_the_lookup_by_identifier() {
    assert_eq!(
        shown(detail_after_id(FieldExtensionObject::PRODUCT, Ok(None), "x")),
        "404 Product with 'id' 'x' is not found"
    );
    for object in &KINDS[1..] {
        assert_eq!(shown(detail_after_id(*object, Ok(None), "x")), "find by reference");
    }
}

#[test]
fn only_a_category_survives_a_failed_lookup() {
    let failed = || Err("db".to_string());
    assert_eq!(
        shown(detail_after_id(FieldExtensionObject::CATEGORY, failed(), "x")),
        "find by reference"
    );
    for object in [
        FieldExtensionObject::PRODUCT,
        FieldExtensionObject::INVENTORY,
        FieldExtensionObject::PRICEBOOK,
    ] {
        assert_eq!(shown(detail_after_id(object, failed(), "x")), "400 db");
    }
    assert_eq!(
        shown(detail_after_reference(FieldExtensionObject::CATEGORY, failed(), "x")),
        "404 Category with id 'x' not found"
    );
    assert_eq!(
        shown(detail_after_reference(FieldExtensionObject::INVENTORY, failed(), "x")),
        "400 db"
    );
    assert_eq!(
        shown(detail_after_reference(FieldExtensionObject::PRICEBOOK, failed(), "x")),
        "400 db"
    );
}

#[test]
fn lookup_by_reference_shows_or_misses() {
    for object in &KINDS[1..] {
        assert_eq!(shown(detail_after_reference(*object, Ok(Some(3)), "x")), "show 3");
    }
    assert_eq!(
        shown(detail_after_reference(FieldExtensionObject::CATEGORY, Ok(None), "x")),
        "404 Category with id 'x' not found"
    );
    assert_eq!(
        shown(detail_after_reference(FieldExtensionObject::INVENTORY, Ok(None), "x")),
        "404 Inventory with the provided id or reference could not be found"
    );
    assert_eq!(
        shown(detail_after_reference(FieldExtensionObject::PRICEBOOK, Ok(None), "x")),
        "404 Pricebook with the provided, x, id/reference was not found"
    );
    assert_eq!(
        failure(entity_not_found::<u8>(FieldExtensionObject::PRODUCT, "x")),
        (404, "Product with 'id' 'x' is not found".to_string())
    );
}

#[test]
fn creation_begins_with_the_reference_where_the_kind_has_one() {
    assert_eq!(told(begin_creation(FieldExtensionObject::CATEGORY, None)), "find by reference");
    assert_eq!(told(begin_creation(FieldExtensionObject::INVENTORY, None)), "find by reference");
    assert_eq!(told(begin_creation(FieldExtensionObject::PRODUCT, None)), "create");
    assert_eq!(told(begin_creation(FieldExtensionObject::PRICEBOOK, None)), "create");
    for object in KINDS {
        assert_eq!(
            told(begin_creation(object, Some(commercyfy_fail("no".to_string())))),
            "400 no"
        );
    }
}

#[test]
fn reference_in_use_ends_the_creation() {
    assert_eq!(
        told(creation_after_reference(FieldExtensionObject::CATEGORY, Ok(Some(1u8)), "shoes")),
        "400 Category with 'category_reference' 'shoes' already exists"
    );
    assert_eq!(
        told(creation_after_reference(FieldExtensionObject::INVENTORY, Ok(Some(1u8)), "main")),
        "400 Inventory with that reference already exists"
    );
    assert_eq!(
        told(creation_after_reference::<u8>(FieldExtensionObject::CATEGORY, Ok(None), "shoes")),
        "create"
    );
    assert_eq!(
        told(creation_after_reference::<u8>(FieldExtensionObject::INVENTORY, Ok(None), "main")),
        "create"
    );
    assert_eq!(
        told(creation_after_reference::<u8>(
            FieldExtensionObject::CATEGORY,
            Err("db".to_string()),
            "shoes"
        )),
        "create"
    );
    assert_eq!(
        told(creation_after_reference::<u8>(
            FieldExtensionObject::INVENTORY,
            Err("db".to_string()),
            "main"
        )),
        "400 db"
    );
}

#[test]
fn new_entity_gets_its_custom_fields_attached() {
    for object in KINDS {
        assert_eq!(
            told(creation_after_create(object, Ok(42), None)),
            "attach 42 00000000-0000-0000-0000-00000000002a"
        );
        assert_eq!(told(creation_after_create(object, Err("db".to_string()), None)), "400 db");
        assert_eq!(
            told(creation_after_create(object, Err("db".to_string()), Some(vec![1]))),
            "400 db"
        );
    }
    assert_eq!(
        told(creation_after_create(FieldExtensionObject::PRODUCT, Ok(42), Some(vec![1, 2]))),
        "assign 42 [1, 2]"
    );
    assert_eq!(
        told(creation_after_create(FieldExtensionObject::PRODUCT, Ok(42), Some(vec![]))),
        "assign 42 []"
    );
    assert_eq!(
        told(creation_after_create(FieldExtensionObject::CATEGORY, Ok(42), Some(vec![1, 2]))),
        "attach 42 00000000-0000-0000-0000-00000000002a"
    );
}

#[test]
fn failed_assignment_ends_the_creation_of_a_product() {
    assert_eq!(
        told(creation_after_assignment(42, Ok(()))),
        "attach 42 00000000-0000-0000-0000-00000000002a"
    );
    assert_eq!(
        told(creation_after_assignment(42, Err("fk".to_string()))),
        "400 Assignment failed because: fk, but the cretion of the product should be successfull"
    );
}

#[test]
fn creation_ends_with_the_identifier_or_the_failure_of_the_attachment() {
    for object in KINDS {
        let status = if object == FieldExtensionObject::INVENTORY { 200 } else { 201 };
        match creation_after_attachment(object, 9, Ok(())) {
            (given, CommercyfyResponseData::Success(created)) => {
                assert_eq!((given, created), (status, CreatedEntryResponse { id: 9 }))
            }
            _ => panic!("the creation did not succeed"),
        }
        assert_eq!(
            failure(creation_after_attachment(
                object,
                9,
                Err(ExtensionError::UnknownField("x".to_string()))
            )),
            (400, "Custom field with name 'x', does not exist".to_string())
        );
        assert_eq!(
            failure(creation_after_attachment(
                object,
                9,
                Err(ExtensionError::Persistence("mongo".to_string()))
            )),
            (400, "mongo".to_string())
        );
    }
}
