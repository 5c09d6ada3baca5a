use commercyfy_core::models::pricebook::DecimalParts;
use commercyfy_core::models::portal_user::PortalUsersRoles;
use commercyfy_core::schemas::base_extensions::{
    CreateBaseField, CreateCustomField, CreateCustomFieldEntry, ObjectCustomField,
};
use commercyfy_core::models::base_extensions::FieldExtensionObject;
use commercyfy_core::schemas::category::{AssignProductToCategory, CreateCategory};
use commercyfy_core::schemas::inventory::{CreateInventory, CreateInventoryRecord};
use commercyfy_core::schemas::portal_user::{PortalUserCreate, PortalUserSignin};
use commercyfy_core::schemas::pricebook::{CreatePricebook, CreatePricebookRecord};
use commercyfy_core::schemas::product::{CreateProduct, CreateProductImage};
use commercyfy_core::services::unstructureddb::entry::UnstructuredEntryType;

fn price(negative: bool) -> DecimalParts {
    DecimalParts { lo: 1999, mid: 0, hi: 0, negative, scale: 2 }
}

#[test]
fn custom_field_request_needs_a_name() {
    let mut payload = CreateCustomField {
        object: FieldExtensionObject::PRODUCT,
        base_felds: CreateBaseField { name: String::new(), description: None, mandatory: true },
        custom: CreateCustomFieldEntry::INT,
    };
    assert_eq!(payload.validate(), Err("'name' is mandatory field".to_string()));
    payload.base_felds.name = "n".to_string();
    assert_eq!(payload.validate(), Ok(()));
}

#[test]
fn category_request_checks_reference_before_name() {
    let mut payload = CreateCategory {
        category_name: String::new(),
        category_description: None,
        category_reference: String::new(),
        custom_fields: None,
    };
    assert_eq!(
        payload.validate(),
        Err("\"category_reference\" is a required field".to_string())
    );
    payload.category_reference = "shoes".to_string();
    assert_eq!(payload.validate(), Err("\"category_name\" is a required field".to_string()));
    payload.category_name = "Shoes".to_string();
    assert_eq!(payload.validate(), Ok(()));
}

#[test]
fn assignment_needs_a_product() {
    let mut payload = AssignProductToCategory { product_ids: vec![], category_id: 0 };
    assert_eq!(
        payload.validate(),
        Err("\"product_ids\" should contain at least one product id".to_string())
    );
    payload.product_ids.push(3);
    assert_eq!(payload.validate(), Ok(()));
}

#[test]
fn inventory_request_checks_name_before_reference() {
    let mut payload = CreateInventory {
        inventory_reference: String::new(),
        inventory_name: String::new(),
        custom_fields: None,
    };
    assert_eq!(payload.validate(), Err("'inventory_name' is mandatory field".to_string()));
    payload.inventory_name = "Main".to_string();
    assert_eq!(payload.validate(), Err("'inventory_reference' is mandatory field".to_string()));
    payload.inventory_reference = "main".to_string();
    assert_eq!(payload.validate(), Ok(()));
}

#[test]
fn allocation_must_not_be_negative() {
    let mut payload = CreateInventoryRecord { product_id: 1, inventory_id: 2, allocation: -1 };
    assert_eq!(payload.validate(), Err("'allocation' should not be negative".to_string()));
    payload.allocation = 0;
    assert_eq!(payload.validate(), Ok(()));
    payload.allocation = i32::MAX;
    assert_eq!(payload.validate(), Ok(()));
    payload.allocation = i32::MIN;
    assert_eq!(payload.validate(), Err("'allocation' should not be negative".to_string()));
}

#[test]
fn new_user_request_is_checked_in_order() {
    let mut payload = PortalUserCreate {
        email: String::new(),
        first_name: String::new(),
        last_name: String::new(),
        password: String::new(),
        roles: vec![PortalUsersRoles::READER],
    };
    assert_eq!(payload.validate(), Err("'email' field is mandatory".to_string()));
    payload.email = "a@b.c".to_string();
    assert_eq!(payload.validate(), Err("'first_name' field is mandatory".to_string()));
    payload.first_name = "Ada".to_string();
    assert_eq!(payload.validate(), Err("'last_name' field is mandatory".to_string()));
    payload.last_name = "L".to_string();
    assert_eq!(payload.validate(), Err("'password' field is mandatory".to_string()));
    payload.password = "1234".to_string();
    assert_eq!(
        payload.validate(),
        Err("'password' should be longer than 4 symbols".to_string())
    );
    payload.password = "12345".to_string();
    assert_eq!(payload.validate(), Ok(()));
}

#[test]
fn password_length_counts_bytes() {
    let mut payload = PortalUserCreate {
        email: "a@b.c".to_string(),
        first_name: "Ada".to_string(),
        last_name: "L".to_string(),
        password: "\u{e9}\u{e9}".to_string(),
        roles: vec![],
    };
    assert_eq!(
        payload.validate(),
        Err("'password' should be longer than 4 symbols".to_string())
    );
    payload.password = "\u{e9}\u{e9}\u{e9}".to_string();
    assert_eq!(payload.validate(), Ok(()));
}

#[test]
fn signin_request_needs_email_and_password() {
    let mut payload = PortalUserSignin { email: String::new(), password: String::new() };
    assert_eq!(payload.validate(), Err("'email' is mandatory field".to_string()));
    payload.email = "a@b.c".to_string();
    assert_eq!(payload.validate(), Err("'password' is mandatory field".to_string()));
    payload.password = "x".to_string();
    assert_eq!(payload.validate(), Ok(()));
}

#[test]
fn pricebook_request_is_checked_in_order() {
    let mut payload = CreatePricebook {
        pricebook_name: String::new(),
        pricebook_reference: String::new(),
        pricebook_currency_code: String::new(),
        custom_fields: Some(vec![("region".to_string(), ObjectCustomField::INT(1))]),
    };
    assert_eq!(payload.validate(), Err("'pricebook_name' is a mandatory field.".to_string()));
    payload.pricebook_name = "EU".to_string();
    assert_eq!(
        payload.validate(),
        Err("'pricebook_reference' is a mandatory field.".to_string())
    );
    payload.pricebook_reference = "eu".to_string();
    assert_eq!(
        payload.validate(),
        Err("'pricebook_currency_code' is a mandatory field.".to_string())
    );
    payload.pricebook_currency_code = "EUR".to_string();
    assert_eq!(payload.validate(), Ok(()));
}

#[test]
fn price_must_not_bear_a_negative_sign() {
    let mut payload = CreatePricebookRecord {
        pricebook_id: String::new(),
        product_id: String::new(),
        price: price(true),
    };
    assert_eq!(payload.validate(), Err("'pricebook_id' is a mandatory field".to_string()));
    payload.pricebook_id = "pb".to_string();
    assert_eq!(payload.validate(), Err("'product_id' is a mandatory field".to_string()));
    payload.product_id = "p".to_string();
    assert_eq!(payload.validate(), Err("'price' should not be negative".to_string()));
    payload.price = price(false);
    assert_eq!(payload.validate(), Ok(()));
}

#[test]
fn image_request_needs_a_source() {
    let mut payload = CreateProductImage { src: String::new(), srcset: None, alt: None };
    assert_eq!(payload.validate(), Err("The 'src' field is mandatory".to_string()));
    payload.src = "a.png".to_string();
    assert_eq!(payload.validate(), Ok(()));
}

#[test]
fn product_request_needs_name_and_description() {
    let mut payload = CreateProduct {
        product_name: String::new(),
        product_description: String::new(),
        product_color: None,
        category_assignments: None,
        custom_fields: None,
    };
    assert_eq!(payload.validate(), Err("'product_name' is mandatory field".to_string()));
    payload.product_name = "Boot".to_string();
    assert_eq!(payload.validate(), Err("'product_description' is mandatory field".to_string()));
    payload.product_description = "A boot".to_string();
    assert_eq!(payload.validate(), Ok(()));
}

#[test]
fn request_value_becomes_the_stored_value() {
    assert!(matches!(ObjectCustomField::INT(-4).to_entry_value(), UnstructuredEntryType::INT(-4)));
    assert!(matches!(
        ObjectCustomField::STRING("blue".to_string()).to_entry_value(),
        UnstructuredEntryType::STRING(text) if text == "blue"
    ));
}
