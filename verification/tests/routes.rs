use commercyfy_core::models::base_extensions::{
    FieldExtension, FieldExtensionObject, FieldExtensionType,
};
use commercyfy_core::models::category::Category;
use commercyfy_core::models::error::ExtensionError;
use commercyfy_core::models::inventory::{Inventory, ProductInventoryRecord};
use commercyfy_core::models::portal_user::{JWTClaims, PortalUser, PortalUsersRoles};
use commercyfy_core::models::pricebook::{DecimalParts, Pricebook, PricebookRecord};
use commercyfy_core::models::product::{Product, ProductImage};
use commercyfy_core::route_utils::{
    attached_reply, commercyfy_fail, commercyfy_fail_with, commercyfy_success,
    commercyfy_success_with, created_reply, editors, found_or_fail, found_or_nothing,
    listed_or_nothing, readers, refusal, refuse_editor, refuse_non_admin, refuse_reader,
    reply_with, stored_or_fail, taken_or_fail, CommercyfyResponse, CommercyfyResponseData,
    CreatedEntryResponse,
};
use commercyfy_core::routes::base_extensions::{
    create_extension, extension_created_reply, extensions_reply, get_extensions,
    unknown_object_reply,
};
use commercyfy_core::routes::category::{
    category_not_found, category_view, products_assigned_reply, refuse_assign_products,
    refuse_create_category,
};
use commercyfy_core::routes::inventory::{
    inventory_not_found, inventory_of_record, inventory_record_reply, inventory_record_taken,
    inventory_view, product_of_record, refuse_create_inventory, refuse_create_inventory_record,
};
use commercyfy_core::routes::portal::{
    password_refusal, portal_user_created_reply, portal_user_reply, portal_user_taken,
    refuse_create_portal_user, signin_claims, signin_reply, signin_secret, signin_user,
    CreatePortalUserError, TOKEN_LIFETIME,
};
use commercyfy_core::routes::portal_user::{
    new_user_roles, refuse_credentials, refuse_signin, NewPortalUser, Singin,
};
use commercyfy_core::routes::pricebook::{
    pricebook_not_found, pricebook_of_price,
    pricebook_record_created_reply, pricebook_record_reply, pricebook_view, product_of_price,
    refuse_create_pricebook, refuse_create_pricebook_record,
};
use commercyfy_core::routes::product::{
    image_created_reply, product_found, product_not_found, product_view,
    refuse_create_image, refuse_create_product, refuse_failed_assignment, with_categories,
    with_inventories, with_pricebooks,
};
use commercyfy_core::routes::shopper_context::{
    account_created_reply, account_taken, category_search, get_account, get_basket,
    hashed_or_fail, product_search, signin,
};
use commercyfy_core::schemas::base_extensions::{
    CreateBaseField, CreateCustomField, CreateCustomFieldEntry,
};
use commercyfy_core::schemas::category::{AssignProductToCategory, CreateCategory};
use commercyfy_core::schemas::inventory::{CreateInventory, CreateInventoryRecord};
use commercyfy_core::schemas::portal_user::PortalUserCreate;
use commercyfy_core::schemas::pricebook::{CreatePricebook, CreatePricebookRecord};
use commercyfy_core::schemas::product::{CreateProduct, CreateProductImage};
use commercyfy_core::services::db::MemoryFieldRegistry;
use commercyfy_core::services::role_validation::{contains_role, RoleService, RoleValidation};
use commercyfy_core::services::unstructureddb::entry::{UnstructuredEntry, UnstructuredEntryType};
use commercyfy_core::services::unstructureddb::{
    contains_name, missing_collections, required_collections,
};
use commercyfy_core::utils::passwords::PasswordCheck;

fn claims(roles: Vec<PortalUsersRoles>) -> JWTClaims {
    JWTClaims { email: "ada@example.com".to_string(), exp: 0, roles }
}

fn failure<T>(reply: CommercyfyResponse<T>) -> (u16, String) {
    match reply {
        (status, CommercyfyResponseData::Error { error }) => (status, error),
        _ => panic!("the reply is no failure"),
    }
}

fn success<T>(reply: CommercyfyResponse<T>) -> (u16, T) {
    match reply {
        (status, CommercyfyResponseData::Success(value)) => (status, value),
        _ => panic!("the reply is no success"),
    }
}

fn refused<T>(reply: Option<CommercyfyResponse<T>>) -> Option<(u16, String)> {
    reply.map(failure)
}

fn category() -> Category {
    Category {
        id: 9,
        category_name: "Shoes".to_string(),
        category_description: None,
        category_reference: "shoes".to_string(),
    }
}

fn product() -> Product {
    Product {
        id: 4,
        product_name: "Boot".to_string(),
        product_description: "A boot".to_string(),
        product_color: None,
    }
}

fn inventory() -> Inventory {
    Inventory {
        id: 5,
        inventory_name: "Main".to_string(),
        inventory_reference: "main".to_string(),
        products: vec![],
    }
}

fn pricebook() -> Pricebook {
    Pricebook {
        id: 6,
        pricebook_name: "EU".to_string(),
        pricebook_reference: "eu".to_string(),
        pricebook_currency_code: "EUR".to_string(),
    }
}

fn user() -> PortalUser {
    PortalUser {
        id: 11,
        email: "ada@example.com".to_string(),
        first_name: "Ada".to_string(),
        last_name: "L".to_string(),
        password: "hash".to_string(),
        roles: vec![PortalUsersRoles::EDITOR],
    }
}

fn entry(name: &str, number: i64) -> UnstructuredEntry {
    UnstructuredEntry {
        extr_ref: "e".to_string(),
        field_name: name.to_string(),
        value: UnstructuredEntryType::INT(number),
    }
}

#[test]
fn role_checks() {
    let service = RoleValidation::default();
    let reader = claims(vec![PortalUsersRoles::READER]);
    let nobody = claims(vec![]);
    let both = claims(vec![PortalUsersRoles::EDITOR, PortalUsersRoles::ADMIN]);
    assert_eq!(service.validate_role(&reader, PortalUsersRoles::READER), Ok(()));
    assert_eq!(
        service.validate_role(&reader, PortalUsersRoles::ADMIN),
        Err("Not enough permissions".to_string())
    );
    assert_eq!(service.validate_reader(&reader), Ok(()));
    assert_eq!(service.validate_editor(&reader), Err("Not enough permissions".to_string()));
    assert_eq!(service.validate_admin(&reader), Err("Not enough permissions".to_string()));
    assert_eq!(service.validate_admin(&both), Ok(()));
    assert_eq!(service.validate_editor(&both), Ok(()));
    assert_eq!(service.validate_reader(&both), Err("Not enough permissions".to_string()));
    assert_eq!(
        service.validate_any(&reader, vec![PortalUsersRoles::ADMIN, PortalUsersRoles::READER]),
        Ok(())
    );
    assert_eq!(
        service.validate_any(&reader, vec![PortalUsersRoles::ADMIN, PortalUsersRoles::EDITOR]),
        Err("Not enough permissions".to_string())
    );
    assert_eq!(
        service.validate_any(&nobody, vec![PortalUsersRoles::ADMIN]),
        Err("Not enough permissions".to_string())
    );
    assert_eq!(service.validate_any(&both, vec![]), Err("Not enough permissions".to_string()));
    assert!(contains_role(&both.roles, PortalUsersRoles::ADMIN));
    assert!(!contains_role(&both.roles, PortalUsersRoles::READER));
}

#[test]
fn roles_of_readers_and_editors() {
    assert_eq!(readers(), vec![PortalUsersRoles::ADMIN, PortalUsersRoles::READER]);
    assert_eq!(editors(), vec![PortalUsersRoles::ADMIN, PortalUsersRoles::EDITOR]);
    let service = RoleValidation::default();
    let reader = claims(vec![PortalUsersRoles::READER]);
    let editor = claims(vec![PortalUsersRoles::EDITOR]);
    let admin = claims(vec![PortalUsersRoles::ADMIN]);
    assert_eq!(refused(refuse_reader::<u8>(&service, &reader)), None);
    assert_eq!(
        refused(refuse_reader::<u8>(&service, &editor)),
        Some((400, "Not enough permissions".to_string()))
    );
    assert_eq!(refused(refuse_editor::<u8>(&service, &editor)), None);
    assert_eq!(refused(refuse_editor::<u8>(&service, &admin)), None);
    assert_eq!(
        refused(refuse_editor::<u8>(&service, &reader)),
        Some((400, "Not enough permissions".to_string()))
    );
    assert_eq!(refused(refuse_non_admin::<u8>(&service, &admin)), None);
    assert_eq!(
        refused(refuse_non_admin::<u8>(&service, &editor)),
        Some((400, "Not enough permissions".to_string()))
    );
}

#[test]
fn replies() {
    assert_eq!(success(commercyfy_success(7u8)), (200, 7));
    assert_eq!(success(commercyfy_success_with(201, 7u8)), (201, 7));
    assert_eq!(failure(commercyfy_fail::<u8>("no".to_string())), (400, "no".to_string()));
    assert_eq!(failure(commercyfy_fail_with::<u8>(404, "no".to_string())), (404, "no".to_string()));
    assert_eq!(refused(refusal::<u8>(Ok(()))), None);
    assert_eq!(refused(refusal::<u8>(Err("bad".to_string()))), Some((400, "bad".to_string())));
    assert_eq!(success(reply_with(200, Ok(3u8))), (200, 3));
    assert_eq!(failure(reply_with::<u8>(200, Err("db".to_string()))), (400, "db".to_string()));
    assert_eq!(success(created_reply(201, Ok(8))), (201, CreatedEntryResponse { id: 8 }));
    assert_eq!(failure(created_reply(201, Err("db".to_string()))), (400, "db".to_string()));
    assert_eq!(stored_or_fail::<u8, u8>(Ok(3)).ok(), Some(3));
    assert_eq!(
        stored_or_fail::<u8, u8>(Err("db".to_string())).err().map(failure),
        Some((400, "db".to_string()))
    );
    assert_eq!(found_or_nothing(Ok(Some(1u8))), Some(1));
    assert_eq!(found_or_nothing::<u8>(Ok(None)), None);
    assert_eq!(found_or_nothing::<u8>(Err("db".to_string())), None);
    assert_eq!(listed_or_nothing(Ok(vec![1u8, 2])), vec![1, 2]);
    assert_eq!(listed_or_nothing::<u8>(Err("db".to_string())), Vec::<u8>::new());
    assert_eq!(found_or_fail::<u8, u8>(Ok(Some(1)), 404, "gone".to_string()).ok(), Some(1));
    assert_eq!(
        found_or_fail::<u8, u8>(Ok(None), 404, "gone".to_string()).err().map(failure),
        Some((404, "gone".to_string()))
    );
    assert_eq!(
        found_or_fail::<u8, u8>(Err("db".to_string()), 404, "gone".to_string())
            .err()
            .map(failure),
        Some((400, "db".to_string()))
    );
    assert_eq!(refused(taken_or_fail::<u8, u8>(Ok(None), "taken".to_string())), None);
    assert_eq!(
        refused(taken_or_fail::<u8, u8>(Ok(Some(1)), "taken".to_string())),
        Some((400, "taken".to_string()))
    );
    assert_eq!(
        refused(taken_or_fail::<u8, u8>(Err("db".to_string()), "taken".to_string())),
        Some((400, "db".to_string()))
    );
    assert_eq!(success(attached_reply(201, 5, Ok(()))), (201, CreatedEntryResponse { id: 5 }));
    assert_eq!(
        failure(attached_reply(201, 5, Err(ExtensionError::UnknownField("x".to_string())))),
        (400, "Custom field with name 'x', does not exist".to_string())
    );
}

#[test]
fn extension_replies() {
    let definition = FieldExtension {
        id: 77,
        object: FieldExtensionObject::PRODUCT,
        value_type: FieldExtensionType::INT,
        name: "n".to_string(),
        mandatory: false,
        description: None,
        max_len: None,
        min_len: None,
    };
    assert_eq!(
        success(extension_created_reply(Ok(definition.clone()))),
        (201, CreatedEntryResponse { id: 77 })
    );
    assert_eq!(
        failure(extension_created_reply(Err(ExtensionError::DuplicateField))),
        (400, "Field with that name already exists on the provided object type".to_string())
    );
    assert_eq!(
        failure(unknown_object_reply::<u8>("basket")),
        (404, "There is no object type 'basket'".to_string())
    );
    let (status, listed) = success(extensions_reply(Ok(vec![definition])));
    assert_eq!(status, 200);
    assert_eq!(listed.len(), 1);
    assert_eq!(failure(extensions_reply(Err("db".to_string()))), (400, "db".to_string()));
}

#[test]
fn extension_requests_on_a_registry() {
    let mut registry = MemoryFieldRegistry::new();
    let request = |name: &str| CreateCustomField {
        object: FieldExtensionObject::PRODUCT,
        base_felds: CreateBaseField { name: name.to_string(), description: None, mandatory: false },
        custom: CreateCustomFieldEntry::INT,
    };
    assert_eq!(
        success(create_extension(&mut registry, request("warranty_months"))),
        (201, CreatedEntryResponse { id: 0 })
    );
    assert_eq!(
        failure(create_extension(&mut registry, request("warranty_months"))),
        (400, "Field with that name already exists on the provided object type".to_string())
    );
    assert_eq!(
        failure(create_extension(&mut registry, request(""))),
        (400, "'name' is mandatory field".to_string())
    );
    for segment in ["product", "Product", "PRODUCT"] {
        let (status, listed) = success(get_extensions(&registry, segment));
        assert_eq!(status, 200);
        let names: Vec<String> = listed.into_iter().map(|definition| definition.name).collect();
        assert_eq!(names, vec!["warranty_months".to_string()]);
    }
    let (status, listed) = success(get_extensions(&registry, "category"));
    assert_eq!((status, listed.len()), (200, 0));
    assert_eq!(
        failure(get_extensions(&registry, "Basket")),
        (404, "There is no object type 'Basket'".to_string())
    );
}

#[test]
fn category_decisions() {
    let service = RoleValidation::default();
    let editor = claims(vec![PortalUsersRoles::EDITOR]);
    let reader = claims(vec![PortalUsersRoles::READER]);
    let mut payload = CreateCategory {
        category_name: "Shoes".to_string(),
        category_description: None,
        category_reference: String::new(),
        custom_fields: None,
    };
    assert_eq!(
        refused(refuse_create_category(&service, &reader, &payload)),
        Some((400, "Not enough permissions".to_string()))
    );
    assert_eq!(
        refused(refuse_create_category(&service, &editor, &payload)),
        Some((400, "\"category_reference\" is a required field".to_string()))
    );
    payload.category_reference = "shoes".to_string();
    assert_eq!(refused(refuse_create_category(&service, &editor, &payload)), None);
    assert_eq!(
        failure(category_not_found::<u8>("abc")),
        (404, "Category with id 'abc' not found".to_string())
    );
    assert_eq!(
        success(products_assigned_reply(Ok(()))),
        (201, CreatedEntryResponse { id: 0 })
    );
    assert_eq!(failure(products_assigned_reply(Err("db".to_string()))), (400, "db".to_string()));
    let assignment = AssignProductToCategory { product_ids: vec![], category_id: 1 };
    assert_eq!(
        refused(refuse_assign_products(&service, &editor, &assignment)),
        Some((400, "\"product_ids\" should contain at least one product id".to_string()))
    );
    assert_eq!(
        refused(refuse_assign_products(&service, &reader, &assignment)),
        Some((400, "Not enough permissions".to_string()))
    );
}

#[test]
fn category_view_merges_products_and_custom_fields() {
    let view = category_view(
        category(),
        Ok(vec![product()]),
        Ok(vec![entry("priority", 1), entry("priority", 7)]),
    );
    assert_eq!(view.category.id, 9);
    assert_eq!(view.products.len(), 1);
    assert!(matches!(view.custom_fields.get("priority"), Some(UnstructuredEntryType::INT(7))));
    let view = category_view(category(), Err("db".to_string()), Err("mongo".to_string()));
    assert!(view.products.is_empty());
    assert!(view.custom_fields.into_pairs().is_empty());
}

#[test]
fn product_decisions() {
    let service = RoleValidation::default();
    let editor = claims(vec![PortalUsersRoles::EDITOR]);
    assert_eq!(product_found::<u8>(Ok(Some(product())), "4").ok().map(|p| p.id), Some(4));
    assert_eq!(
        product_found::<u8>(Ok(None), "4").err().map(failure),
        Some((404, "Product with 'id' '4' is not found".to_string()))
    );
    assert_eq!(
        product_found::<u8>(Err("db".to_string()), "4").err().map(failure),
        Some((400, "db".to_string()))
    );
    let image = ProductImage { id: 3, src: "a.png".to_string(), srcset: None, alt: None, product_id: 4 };
    let view = product_view(product(), Ok(vec![image]), Ok(vec![entry("warranty_months", 12)]));
    assert_eq!(view.images.len(), 1);
    assert!(view.categories.is_none() && view.inventories.is_none() && view.pricebooks.is_none());
    assert!(matches!(
        view.custom_fields.get("warranty_months"),
        Some(UnstructuredEntryType::INT(12))
    ));
    let view = with_categories(view, Ok(vec![category()])).ok().unwrap();
    assert_eq!(view.categories.as_ref().map(|found| found.len()), Some(1));
    let record = ProductInventoryRecord { product_id: 4, allocation: 2 };
    let view = with_inventories(view, Ok(vec![record])).ok().unwrap();
    assert_eq!(view.inventories, Some(vec![record]));
    let price = PricebookRecord {
        id: 1,
        pricebook_id: 6,
        product_id: 4,
        price: DecimalParts { lo: 5, mid: 0, hi: 0, negative: false, scale: 0 },
    };
    let view = with_pricebooks(view, Ok(vec![price])).ok().unwrap();
    assert_eq!(view.pricebooks, Some(vec![price]));
    assert_eq!(view.categories.as_ref().map(|found| found.len()), Some(1));
    assert_eq!(
        with_categories(view, Err("db".to_string())).err().map(failure),
        Some((400, "db".to_string()))
    );
    let view = product_view(product(), Err("db".to_string()), Err("mongo".to_string()));
    assert!(view.images.is_empty());
    assert_eq!(
        with_inventories(view, Err("db".to_string())).err().map(failure),
        Some((400, "db".to_string()))
    );
    let view = product_view(product(), Err("db".to_string()), Err("mongo".to_string()));
    assert_eq!(
        with_pricebooks(view, Err("db".to_string())).err().map(failure),
        Some((400, "db".to_string()))
    );
    let payload = CreateProduct {
        product_name: String::new(),
        product_description: "d".to_string(),
        product_color: None,
        category_assignments: None,
        custom_fields: None,
    };
    assert_eq!(
        refused(refuse_create_product(&service, &editor, &payload)),
        Some((400, "'product_name' is mandatory field".to_string()))
    );
    assert_eq!(refused(refuse_failed_assignment(Ok(()))), None);
    assert_eq!(
        refused(refuse_failed_assignment(Err("fk".to_string()))),
        Some((
            400,
            "Assignment failed because: fk, but the cretion of the product should be successfull"
                .to_string()
        ))
    );
    assert_eq!(
        failure(product_not_found::<u8>("4")),
        (404, "Product with 'id' '4' is not found".to_string())
    );
    let image_request = CreateProductImage { src: String::new(), srcset: None, alt: None };
    assert_eq!(
        refused(refuse_create_image(&service, &editor, &image_request)),
        Some((400, "The 'src' field is mandatory".to_string()))
    );
    let image = ProductImage { id: 3, src: "a.png".to_string(), srcset: None, alt: None, product_id: 4 };
    assert_eq!(success(image_created_reply(Ok(image))), (200, CreatedEntryResponse { id: 3 }));
    assert_eq!(failure(image_created_reply(Err("db".to_string()))), (400, "db".to_string()));
}

#[test]
fn inventory_decisions() {
    let service = RoleValidation::default();
    let editor = claims(vec![PortalUsersRoles::EDITOR]);
    let record = ProductInventoryRecord { product_id: 4, allocation: 2 };
    let view = inventory_view(inventory(), Ok(vec![record]), Ok(vec![entry("zone", 3)]));
    assert_eq!(view.records, vec![record]);
    assert!(matches!(view.custom_fields.get("zone"), Some(UnstructuredEntryType::INT(3))));
    assert_eq!(
        failure(inventory_not_found::<u8>()),
        (404, "Inventory with the provided id or reference could not be found".to_string())
    );
    let payload = CreateInventory {
        inventory_reference: "main".to_string(),
        inventory_name: String::new(),
        custom_fields: None,
    };
    assert_eq!(
        refused(refuse_create_inventory(&service, &editor, &payload)),
        Some((400, "'inventory_name' is mandatory field".to_string()))
    );
    let request = CreateInventoryRecord { product_id: 4, inventory_id: 5, allocation: -2 };
    assert_eq!(
        refused(refuse_create_inventory_record(&service, &editor, &request)),
        Some((400, "'allocation' should not be negative".to_string()))
    );
    assert_eq!(
        inventory_of_record(Ok(None), 5).err().map(failure),
        Some((
            400,
            "Inventory with reference '00000000-0000-0000-0000-000000000005' does not exist"
                .to_string()
        ))
    );
    assert_eq!(inventory_of_record(Ok(Some(inventory())), 5).ok().map(|found| found.id), Some(5));
    assert_eq!(
        product_of_record(Ok(None), 4).err().map(failure),
        Some((
            400,
            "Product with id '00000000-0000-0000-0000-000000000004' does not exist".to_string()
        ))
    );
    assert_eq!(
        product_of_record(Err("db".to_string()), 4).err().map(failure),
        Some((400, "db".to_string()))
    );
    assert_eq!(
        refused(inventory_record_taken(Ok(Some(record)))),
        Some((
            400,
            "Record for the provided product already exists in the provided inventory".to_string()
        ))
    );
    assert_eq!(refused(inventory_record_taken(Ok(None))), None);
    assert_eq!(success(inventory_record_reply(Ok(Some(record)))), (200, record));
    assert_eq!(
        failure(inventory_record_reply(Ok(None))),
        (404, "No record was found".to_string())
    );
    assert_eq!(failure(inventory_record_reply(Err("db".to_string()))), (400, "db".to_string()));
}

#[test]
fn pricebook_decisions() {
    let service = RoleValidation::default();
    let editor = claims(vec![PortalUsersRoles::EDITOR]);
    let price = PricebookRecord {
        id: 1,
        pricebook_id: 6,
        product_id: 4,
        price: DecimalParts { lo: 5, mid: 0, hi: 0, negative: false, scale: 0 },
    };
    let view = pricebook_view(pricebook(), Ok(vec![price]), Err("mongo".to_string()));
    assert_eq!(view.records, vec![price]);
    assert!(view.custom_fields.into_pairs().is_empty());
    assert_eq!(
        failure(pricebook_not_found::<u8>("eu")),
        (404, "Pricebook with the provided, eu, id/reference was not found".to_string())
    );
    let payload = CreatePricebook {
        pricebook_name: "EU".to_string(),
        pricebook_reference: "eu".to_string(),
        pricebook_currency_code: String::new(),
        custom_fields: None,
    };
    assert_eq!(
        refused(refuse_create_pricebook(&service, &editor, &payload)),
        Some((400, "'pricebook_currency_code' is a mandatory field.".to_string()))
    );
    let request = CreatePricebookRecord {
        pricebook_id: "6".to_string(),
        product_id: "4".to_string(),
        price: DecimalParts { lo: 5, mid: 0, hi: 0, negative: true, scale: 0 },
    };
    assert_eq!(
        refused(refuse_create_pricebook_record(&service, &editor, &request)),
        Some((400, "'price' should not be negative".to_string()))
    );
    assert_eq!(
        product_of_price(Ok(None), "4").err().map(failure),
        Some((400, "Product with id '4' was not found.".to_string()))
    );
    assert_eq!(
        pricebook_of_price(Ok(None), "6").err().map(failure),
        Some((400, "Pricebook with id '6' was not found.".to_string()))
    );
    assert_eq!(pricebook_of_price(Ok(Some(pricebook())), "6").ok().map(|found| found.id), Some(6));
    assert_eq!(
        success(pricebook_record_created_reply(Ok(price))),
        (201, CreatedEntryResponse { id: 1 })
    );
    assert_eq!(
        failure(pricebook_record_created_reply(Err("db".to_string()))),
        (400, "db".to_string())
    );
    assert_eq!(success(pricebook_record_reply(Ok(Some(price)))), (200, price));
    assert_eq!(
        failure(pricebook_record_reply(Ok(None))),
        (404, "There is no pricebook record with the provided ids.".to_string())
    );
}

#[test]
fn portal_decisions() {
    let service = RoleValidation::default();
    let admin = claims(vec![PortalUsersRoles::ADMIN]);
    let editor = claims(vec![PortalUsersRoles::EDITOR]);
    assert_eq!(success(portal_user_reply(Ok(Some(user())), "11")).1.id, 11);
    assert_eq!(
        failure(portal_user_reply(Ok(None), "11")),
        (404, "Portal user with id '11' was not found".to_string())
    );
    assert_eq!(failure(portal_user_reply(Err("db".to_string()), "11")), (400, "db".to_string()));
    let payload = PortalUserCreate {
        email: String::new(),
        first_name: "Ada".to_string(),
        last_name: "L".to_string(),
        password: "12345".to_string(),
        roles: vec![],
    };
    assert_eq!(
        refused(refuse_create_portal_user(&service, &editor, &payload)),
        Some((400, "Not enough permissions".to_string()))
    );
    assert_eq!(
        refused(refuse_create_portal_user(&service, &admin, &payload)),
        Some((400, "'email' field is mandatory".to_string()))
    );
    assert_eq!(
        refused(portal_user_taken(Ok(Some(user())))),
        Some((400, "User with that email already exists".to_string()))
    );
    assert_eq!(refused(portal_user_taken(Ok(None))), None);
    assert_eq!(
        success(portal_user_created_reply(Ok(user()))),
        (201, CreatedEntryResponse { id: 11 })
    );
    assert_eq!(
        failure(portal_user_created_reply(Err(CreatePortalUserError::Hashing))),
        (400, "There was an error creating a portal_user".to_string())
    );
    assert_eq!(
        failure(portal_user_created_reply(Err(CreatePortalUserError::Store("db".to_string())))),
        (400, "db".to_string())
    );
}

#[test]
fn signin_decisions() {
    assert_eq!(signin_user(Ok(Some(user()))).ok().map(|found| found.id), Some(11));
    assert_eq!(
        signin_user(Ok(None)).err().map(failure),
        Some((400, "No matching credentials".to_string()))
    );
    assert_eq!(
        signin_user(Err("db".to_string())).err().map(failure),
        Some((400, "db".to_string()))
    );
    assert_eq!(refused(password_refusal(PasswordCheck::Match)), None);
    assert_eq!(
        refused(password_refusal(PasswordCheck::Mismatch)),
        Some((400, "No matching credentials".to_string()))
    );
    assert_eq!(
        refused(password_refusal(PasswordCheck::Malformed)),
        Some((400, "There was an error handling your request".to_string()))
    );
    assert_eq!(TOKEN_LIFETIME, 60 * 60 * 3);
    let granted =
        signin_claims("a@b.c".to_string(), vec![PortalUsersRoles::READER], Some(1_700_000_000))
            .ok()
            .unwrap();
    assert_eq!(granted.exp, 1_700_010_800);
    assert_eq!(granted.email, "a@b.c");
    assert_eq!(granted.roles, vec![PortalUsersRoles::READER]);
    assert_eq!(
        signin_claims("a@b.c".to_string(), vec![], Some(u64::MAX - 10_800)).ok().map(|c| c.exp),
        Some(u64::MAX)
    );
    assert_eq!(
        signin_claims("a@b.c".to_string(), vec![], Some(u64::MAX - 10_799)).err().map(failure),
        Some((400, "Internal server error".to_string()))
    );
    assert_eq!(
        signin_claims("a@b.c".to_string(), vec![], None).err().map(failure),
        Some((400, "Internal server error".to_string()))
    );
    assert_eq!(signin_secret(Some("s".to_string())).ok(), Some("s".to_string()));
    assert_eq!(
        signin_secret(None).err().map(failure),
        Some((400, "There was an error logging in.".to_string()))
    );
    assert_eq!(success(signin_reply(Ok("jwt".to_string()))).1.jwt, "jwt");
    assert_eq!(failure(signin_reply(Err("key".to_string()))), (400, "key".to_string()));
}

#[test]
fn registration_signin_decisions() {
    let message = |refused: Option<commercyfy_core::models::error::ErrorResponse>| {
        refused.map(|response| response.error_message)
    };
    let mut data = Singin { email: String::new(), password: String::new() };
    assert_eq!(message(refuse_signin(&data)), Some("Email is required.".to_string()));
    data.email = "a@b.c".to_string();
    assert_eq!(message(refuse_signin(&data)), Some("Password is required.".to_string()));
    data.password = "x".to_string();
    assert_eq!(message(refuse_signin(&data)), None);
    assert_eq!(
        message(refuse_credentials(None)),
        Some("User with that email does not exist.".to_string())
    );
    assert_eq!(
        message(refuse_credentials(Some(PasswordCheck::Malformed))),
        Some("Password is not valid.".to_string())
    );
    assert_eq!(
        message(refuse_credentials(Some(PasswordCheck::Mismatch))),
        Some("Password is not valid.".to_string())
    );
    assert_eq!(message(refuse_credentials(Some(PasswordCheck::Match))), None);
    let mut user = NewPortalUser {
        id: 0,
        email: "a@b.c".to_string(),
        first_name: "A".to_string(),
        last_name: "B".to_string(),
        password: "12345".to_string(),
        roles: None,
    };
    assert_eq!(new_user_roles(&user), vec![]);
    user.roles = Some(vec![PortalUsersRoles::READER, PortalUsersRoles::ADMIN]);
    assert_eq!(new_user_roles(&user), vec![PortalUsersRoles::READER, PortalUsersRoles::ADMIN]);
}

#[test]
fn shopper_replies() {
    assert_eq!(success(get_account()).0, 200);
    assert_eq!(success(signin()).0, 200);
    assert_eq!(success(get_basket()).0, 200);
    assert_eq!(success(category_search()).0, 200);
    assert_eq!(success(product_search()).0, 200);
    assert_eq!(
        refused(account_taken(&Ok(Some(1u8)))),
        Some((400, "Account with that email already exists.".to_string()))
    );
    assert_eq!(refused(account_taken::<u8>(&Ok(None))), None);
    assert_eq!(refused(account_taken::<u8>(&Err("db".to_string()))), None);
    assert_eq!(hashed_or_fail(Ok("h".to_string())).ok(), Some("h".to_string()));
    assert_eq!(
        hashed_or_fail(Err("salt".to_string())).err().map(failure),
        Some((400, "salt".to_string()))
    );
    assert_eq!(success(account_created_reply(Ok(3))), (201, CreatedEntryResponse { id: 3 }));
    assert_eq!(failure(account_created_reply(Err("db".to_string()))), (400, "db".to_string()));
}

#[test]
fn collections_that_have_to_be_created() {
    let required = required_collections();
    assert_eq!(required, vec!["products", "categories", "inventories", "pricebooks"]);
    let existing = vec!["categories".to_string(), "orders".to_string()];
    assert_eq!(
        missing_collections(&required, &existing),
        vec!["products", "inventories", "pricebooks"]
    );
    assert_eq!(missing_collections(&required, &required), Vec::<String>::new());
    assert_eq!(missing_collections(&required, &vec![]), required);
    assert!(contains_name(&existing, "orders"));
    assert!(!contains_name(&existing, "Orders"));
}
