pub mod custom_field_values;
pub mod custom_fields;
pub mod passwords;
