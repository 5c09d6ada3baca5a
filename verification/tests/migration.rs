use commercyfy_core::migration_generator::MigrationGenerator;
use commercyfy_core::schemas::base_extensions::migration::{
    CreateExtensionField, CreateExtensionFieldVariant, ExtensionType, Field,
};

fn text_field(name: &str, description: Option<&str>, default_value: Option<&str>, mandatory: bool) -> CreateExtensionField {
    CreateExtensionField {
        variant: CreateExtensionFieldVariant::STRING(Field {
            name: name.to_string(),
            description: description.map(|d| d.to_string()),
            mandatory,
            default_value: default_value.map(|d| d.to_string()),
        }),
    }
}

fn bool_field(name: &str, default_value: Option<bool>, mandatory: bool) -> CreateExtensionField {
    CreateExtensionField {
        variant: CreateExtensionFieldVariant::BOOLEAN(Field {
            name: name.to_string(),
            description: None,
            mandatory,
            default_value,
        }),
    }
}

#[test]
fn generator_without_a_kind_writes_nothing() {
    let mut generator = MigrationGenerator::new();
    assert!(generator.kind.is_none());
    assert!(generator.fields.is_empty());
    generator.set_field(bool_field("gift", None, false));
    assert_eq!(generator.generate_query(), None);
    assert_eq!(
        generator.checked_query(),
        Err("Invalid data provided. Migration could not be generated.".to_string())
    );
}

#[test]
fn generator_without_fields_writes_an_empty_query() {
    let mut generator = MigrationGenerator::new();
    generator.set_what_to_extend(ExtensionType::Product);
    assert_eq!(generator.generate_query(), Some(String::new()));
    assert_eq!(generator.checked_query(), Ok(String::new()));
}

#[test]
fn generator_writes_one_statement_for_each_field() {
    let mut generator = MigrationGenerator::new();
    generator.set_what_to_extend(ExtensionType::Product);
    generator.set_field(text_field("color", Some("'the color'"), None, true));
    let fields = generator.set_field(bool_field("gift", Some(true), false)).fields.len();
    assert_eq!(fields, 2);
    generator.set_field(bool_field("fragile", None, true));
    generator.set_field(text_field("size", None, Some("'M'"), false));
    let expected = "INSERT INTO __meta_product_custom_fields (name, description, value_type, default_value, mandatory) VALUES ('color', 'the color', 'string', NULL, true);\n\
INSERT INTO __meta_product_custom_fields (name, description, value_type, default_value, mandatory) VALUES ('gift', NULL, 'bool', true, false);\n\
INSERT INTO __meta_product_custom_fields (name, description, value_type, default_value, mandatory) VALUES ('fragile', NULL, 'bool', false, true);\n\
INSERT INTO __meta_product_custom_fields (name, description, value_type, default_value, mandatory) VALUES ('size', NULL, 'string', 'M', false);\n";
    assert_eq!(generator.generate_query(), Some(expected.to_string()));
}

#[test]
fn single_statements_are_added_to_the_query() {
    let generator = MigrationGenerator::new();
    let mut query = "-- head\n".to_string();
    let field = Field {
        name: "n".to_string(),
        description: None,
        mandatory: false,
        default_value: Some("d".to_string()),
    };
    generator.gen_string_extend(&field, &mut query, "t");
    assert_eq!(
        query,
        "-- head\nINSERT INTO t (name, description, value_type, default_value, mandatory) VALUES ('n', NULL, 'string', d, false);\n"
    );
    let mut query = String::new();
    let field = Field {
        name: "b".to_string(),
        description: Some("x".to_string()),
        mandatory: true,
        default_value: None,
    };
    generator.gen_boolean_extend(&field, &mut query, "t");
    assert_eq!(
        query,
        "INSERT INTO t (name, description, value_type, default_value, mandatory) VALUES ('b', x, 'bool', false, true);\n"
    );
}

#[test]
fn set_what_to_extend_hands_the_generator_back() {
    let mut generator = MigrationGenerator::new();
    let kind = generator.set_what_to_extend(ExtensionType::Product).kind;
    assert_eq!(kind, Some(ExtensionType::Product));
}
