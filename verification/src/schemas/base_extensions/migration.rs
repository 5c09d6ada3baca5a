use vstd::prelude::*;

verus! {

/// What a request says of one field of a table of custom fields.
#[derive(Debug)]
pub struct Field<T> {
    pub name: String,
    pub description: Option<String>,
    pub mandatory: bool,
    pub default_value: Option<T>,
}

/// The field of a request, by the type of its values.
#[derive(Debug)]
pub enum CreateExtensionFieldVariant {
    STRING(Field<String>),
    BOOLEAN(Field<bool>),
}

/// One field of a request to extend an object.
#[derive(Debug)]
pub struct CreateExtensionField {
    pub variant: CreateExtensionFieldVariant,
}

/// The objects that a migration can extend.
#[derive(Clone, Copy, Debug, PartialEq, Eq, Structural)]
pub enum ExtensionType {
    Product,
}

/// A request to extend an object by fields.
#[derive(Debug)]
pub struct CreateExtension {
    pub extension_type: ExtensionType,
    pub fields: Vec<CreateExtensionField>,
}

/// A request to apply a generated migration.
#[derive(Debug)]
pub struct CreateMigrationUpdate {
    pub file_path: String,
}

} // verus!
