use argon2::password_hash::{PasswordHasher, SaltString};
use argon2::Argon2;
use commercyfy_core::middlewares::authentication::{authorization_token, authorized, bearer_token};
use commercyfy_core::models::identifier::{entity_reference, NIL_IDENTIFIER};
use commercyfy_core::routes::portal_user::{check_new_user, email_is_valid, NewPortalUser};
use commercyfy_core::routes::product::{extends_categories, extends_inventories, extends_pricebooks};
use commercyfy_core::text::{byte_len, chars_of, join3, same_text, text_between};
use commercyfy_core::utils::passwords::{
    check_password, hash_password, hash_password_with_salt, PasswordCheck,
};

#[test]
fn identifier_is_written_with_hyphens() {
    assert_eq!(entity_reference(NIL_IDENTIFIER), "00000000-0000-0000-0000-000000000000");
    assert_eq!(entity_reference(42), "00000000-0000-0000-0000-00000000002a");
    assert_eq!(
        entity_reference(0x0123456789abcdef_fedcba9876543210),
        "01234567-89ab-cdef-fedc-ba9876543210"
    );
    assert_eq!(entity_reference(u128::MAX), "ffffffff-ffff-ffff-ffff-ffffffffffff");
    assert_eq!(entity_reference(7).chars().count(), 36);
    assert_eq!(
        entity_reference(0x0123456789abcdef_fedcba9876543210),
        uuid::Uuid::from_u128(0x0123456789abcdef_fedcba9876543210).to_string()
    );
}

#[test]
fn text_helpers() {
    assert!(same_text("abc", "abc"));
    assert!(!same_text("abc", "abd"));
    assert!(!same_text("abc", "ab"));
    assert!(same_text("", ""));
    assert_eq!(join3("a", "", "c"), "ac");
    assert_eq!(join3("x'", "y", "'z"), "x'y'z");
    assert_eq!(byte_len(""), 0);
    assert_eq!(byte_len("abc"), 3);
    assert_eq!(byte_len("\u{e9}"), 2);
    assert_eq!(chars_of("a\u{e9}b"), vec!['a', '\u{e9}', 'b']);
    assert_eq!(text_between(&vec!['a', 'b', 'c', 'd'], 1, 3), "bc");
    assert_eq!(text_between(&vec!['a', 'b'], 2, 2), "");
}

#[test]
fn extensions_of_a_product_are_asked_for_by_name() {
    assert!(extends_categories(Some("categories")));
    assert!(extends_categories(Some("inventories,categories")));
    assert!(!extends_categories(Some("category")));
    assert!(!extends_categories(Some("")));
    assert!(!extends_categories(None));
    assert!(extends_inventories(Some("xinventoriesx")));
    assert!(!extends_inventories(Some("categories,pricebooks")));
    assert!(extends_pricebooks(Some("categories,pricebooks")));
    assert!(!extends_pricebooks(Some("Pricebooks")));
}

#[test]
fn email_pattern() {
    assert_eq!(email_is_valid("ada@example.com"), Some(true));
    assert_eq!(email_is_valid("a.b+c@host"), Some(true));
    assert_eq!(email_is_valid("no-at-sign"), Some(false));
    assert_eq!(email_is_valid("@host"), Some(false));
    assert_eq!(email_is_valid("a@b..c"), Some(false));
    assert_eq!(email_is_valid(""), Some(false));
}

#[test]
fn registration_is_checked_in_order() {
    let mut data = NewPortalUser {
        id: 0,
        email: "nobody".to_string(),
        first_name: String::new(),
        last_name: String::new(),
        password: "1234".to_string(),
        roles: None,
    };
    let message = |data: &NewPortalUser| {
        check_new_user(data).unwrap().map(|response| response.error_message)
    };
    assert_eq!(message(&data), Some("The provided email is not valid.".to_string()));
    data.email = "ada@example.com".to_string();
    assert_eq!(message(&data), Some("First name should not be empty.".to_string()));
    data.first_name = "Ada".to_string();
    assert_eq!(message(&data), Some("Last name should not be empty.".to_string()));
    data.last_name = "L".to_string();
    assert_eq!(message(&data), Some("Password should be at least 5 characters.".to_string()));
    data.password = "12345".to_string();
    assert_eq!(message(&data), None);
}

#[test]
fn password_is_checked_against_the_stored_hash() {
    let salt = SaltString::from_b64("c29tZXNhbHRzb21lc2FsdA").unwrap();
    let stored = Argon2::default().hash_password(b"correct horse", &salt).unwrap().to_string();
    assert_eq!(check_password("correct horse", &stored), PasswordCheck::Match);
    assert_eq!(check_password("wrong horse", &stored), PasswordCheck::Mismatch);
    assert_eq!(check_password("", &stored), PasswordCheck::Mismatch);
    assert_eq!(check_password("correct horse", "not a hash"), PasswordCheck::Malformed);
    assert_eq!(check_password("correct horse", ""), PasswordCheck::Malformed);
}

#[test]
fn token_is_the_second_piece_of_the_header() {
    assert_eq!(bearer_token("Bearer abc.def"), Some("abc.def".to_string()));
    assert_eq!(bearer_token("Bearer abc def"), Some("abc".to_string()));
    assert_eq!(bearer_token("Bearer"), None);
    assert_eq!(bearer_token(""), None);
    assert_eq!(bearer_token("Bearer "), Some(String::new()));
    assert_eq!(bearer_token(" abc"), Some("abc".to_string()));
    assert_eq!(bearer_token("a  b"), Some(String::new()));
    for header in ["Bearer abc.def", "Bearer abc def", "Bearer", "", "Bearer ", " abc", "a  b"] {
        let expected = header.split(" ").skip(1).take(1).nth(0).map(|piece| piece.to_string());
        assert_eq!(bearer_token(header), expected);
    }
}

#[test]
fn request_without_a_token_is_not_authorized() {
    assert_eq!(authorization_token(None), Err(401));
    assert_eq!(authorization_token(Some("")), Err(401));
    assert_eq!(authorization_token(Some("Bearer")), Err(401));
    assert_eq!(authorization_token(Some("Bearer t")), Ok("t".to_string()));
    assert_eq!(authorized(Some(5)), Ok(5));
    assert_eq!(authorized::<u8>(None), Err(401));
}

#[test]
fn hash_under_a_given_salt() {
    let salt = "c29tZXNhbHRzb21lc2FsdA";
    let parsed = SaltString::from_b64(salt).unwrap();
    let expected = Argon2::default().hash_password(b"correct horse", &parsed).unwrap().to_string();
    let hashed = hash_password_with_salt("correct horse", salt).unwrap();
    assert_eq!(hashed, expected);
    assert!(hashed.starts_with("$argon2id$v=19$m=19456,t=2,p=1$c29tZXNhbHRzb21lc2FsdA$"));
    assert_ne!(hashed, "correct horse");
    assert_eq!(hash_password_with_salt("correct horse", salt).unwrap(), hashed);
    assert_ne!(hash_password_with_salt("wrong horse", salt).unwrap(), hashed);
    assert_eq!(check_password("correct horse", &hashed), PasswordCheck::Match);
    assert_eq!(check_password("wrong horse", &hashed), PasswordCheck::Mismatch);
}

#[test]
fn salt_that_is_none_is_reported() {
    assert!(hash_password_with_salt("correct horse", "").is_err());
    assert!(hash_password_with_salt("correct horse", "abc").is_err());
    assert!(hash_password_with_salt("correct horse", "not a salt!").is_err());
}

#[test]
fn hash_under_a_salt_of_its_own() {
    let first = hash_password("correct horse").unwrap();
    let second = hash_password("correct horse").unwrap();
    assert_ne!(first, second);
    assert!(first.starts_with("$argon2id$"));
    assert_eq!(check_password("correct horse", &first), PasswordCheck::Match);
    assert_eq!(check_password("correct horse", &second), PasswordCheck::Match);
    assert_eq!(check_password("Correct horse", &first), PasswordCheck::Mismatch);
    let empty = hash_password("").unwrap();
    assert_eq!(check_password("", &empty), PasswordCheck::Match);
}
