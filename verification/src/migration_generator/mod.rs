use vstd::prelude::*;
use vstd::string::*;
use crate::schemas::base_extensions::migration::{
    CreateExtensionField, CreateExtensionFieldVariant, ExtensionType, Field,
};

verus! {

/// A truth value as it is written in a statement.
pub open spec fn bool_text(value: bool) -> Seq<char> {
    if value {
        "true"@
    } else {
        "false"@
    }
}

/// An optional text as it is written in a statement: itself, or `NULL`.
pub open spec fn text_or_null(text: Option<String>) -> Seq<char> {
    match text {
        Some(text) => text@,
        None => "NULL"@,
    }
}

/// The statement that adds one field to the table `table`.
pub open spec fn insert_statement(
    table: Seq<char>,
    name: Seq<char>,
    description: Seq<char>,
    value_type: Seq<char>,
    default_value: Seq<char>,
    mandatory: bool,
) -> Seq<char> {
    "INSERT INTO "@ + table
        + " (name, description, value_type, default_value, mandatory) VALUES ('"@ + name + "', "@
        + description + ", '"@ + value_type + "', "@ + default_value + ", "@ + bool_text(mandatory)
        + ");\n"@
}

/// The statement that adds `field` to the table `table`. A text field
/// without a default gets `NULL`, a truth field without one `false`.
pub open spec fn field_statement(table: Seq<char>, field: CreateExtensionField) -> Seq<char> {
    match field.variant {
        CreateExtensionFieldVariant::STRING(text_field) => insert_statement(
            table,
            text_field.name@,
            text_or_null(text_field.description),
            "string"@,
            text_or_null(text_field.default_value),
            text_field.mandatory,
        ),
        CreateExtensionFieldVariant::BOOLEAN(bool_field) => insert_statement(
            table,
            bool_field.name@,
            text_or_null(bool_field.description),
            "bool"@,
            bool_text(
                match bool_field.default_value {
                    Some(value) => value,
                    None => false,
                },
            ),
            bool_field.mandatory,
        ),
    }
}

/// The statements that add `fields` to the table `table`, one after the
/// other in the order of the fields.
pub open spec fn migration_statements(table: Seq<char>, fields: Seq<CreateExtensionField>) -> Seq<
    char,
>
    decreases fields.len(),
{
    if fields.len() == 0 {
        Seq::empty()
    } else {
        migration_statements(table, fields.drop_last()) + field_statement(table, fields.last())
    }
}

/// The table that holds the custom fields of the objects of a kind.
pub open spec fn table_of(kind: ExtensionType) -> Seq<char> {
    match kind {
        ExtensionType::Product => "__meta_product_custom_fields"@,
    }
}

/// What a migration is refused with when it does not say what to extend.
pub open spec fn invalid_migration() -> Seq<char> {
    "Invalid data provided. Migration could not be generated."@
}

/// Collects what to extend and by which fields, and writes the
/// statements of the migration.
#[derive(Debug)]
pub struct MigrationGenerator {
    pub kind: Option<ExtensionType>,
    pub fields: Vec<CreateExtensionField>,
}

/// Writes a truth value as it stands in a statement.
fn write_bool(value: bool) -> (text: &'static str)
    ensures
        text@ == bool_text(value),
{
    if value {
        "true"
    } else {
        "false"
    }
}

/// Writes an optional text as it stands in a statement.
fn write_text_or_null(text: &Option<String>) -> (written: String)
    ensures
        written@ == text_or_null(*text),
{
    match text {
        Some(text) => text.clone(),
        None => String::from_str("NULL"),
    }
}

/// Adds to `query` the statement that adds one field to `table`.
fn push_insert(
    query: &mut String,
    table: &str,
    name: &str,
    description: &str,
    value_type: &str,
    default_value: &str,
    mandatory: bool,
)
    ensures
        final(query)@ == old(query)@ + insert_statement(
            table@,
            name@,
            description@,
            value_type@,
            default_value@,
            mandatory,
        ),
{
    let mut statement = String::from_str("INSERT INTO ");
    statement.append(table);
    statement.append(" (name, description, value_type, default_value, mandatory) VALUES ('");
    statement.append(name);
    statement.append("', ");
    statement.append(description);
    statement.append(", '");
    statement.append(value_type);
    statement.append("', ");
    statement.append(default_value);
    statement.append(", ");
    statement.append(write_bool(mandatory));
    statement.append(");\n");
    query.append(statement.as_str());
}

impl MigrationGenerator {
    pub fn new() -> (generator: Self)
        ensures
            generator.kind is None,
            generator.fields@.len() == 0,
    {
        MigrationGenerator { kind: None, fields: Vec::new() }
    }

    /// Says which objects the migration extends.
    pub fn set_what_to_extend(&mut self, kind: ExtensionType) -> (generator: &Self)
        ensures
            final(self).kind == Some(kind),
            final(self).fields == old(self).fields,
            *generator == *final(self),
    {
        self.kind = Some(kind);
        self
    }

    /// Adds a field to the fields of the migration.
    pub fn set_field(&mut self, field: CreateExtensionField) -> (generator: &Self)
        ensures
            final(self).kind == old(self).kind,
            final(self).fields@ == old(self).fields@.push(field),
            *generator == *final(self),
    {
        self.fields.push(field);
        self
    }

    /// Adds to `query` the statement for a text field.
    pub fn gen_string_extend(&self, string_field: &Field<String>, query: &mut String, table_to_extend: &str)
        ensures
            final(query)@ == old(query)@ + insert_statement(
                table_to_extend@,
                string_field.name@,
                text_or_null(string_field.description),
                "string"@,
                text_or_null(string_field.default_value),
                string_field.mandatory,
            ),
    {
        let description = write_text_or_null(&string_field.description);
        let default_value = write_text_or_null(&string_field.default_value);
        push_insert(
            query,
            table_to_extend,
            string_field.name.as_str(),
            description.as_str(),
            "string",
            default_value.as_str(),
            string_field.mandatory,
        );
    }

    /// Adds to `query` the statement for a truth field.
    pub fn gen_boolean_extend(&self, bool_field: &Field<bool>, query: &mut String, table_to_extend: &str)
        ensures
            final(query)@ == old(query)@ + insert_statement(
                table_to_extend@,
                bool_field.name@,
                text_or_null(bool_field.description),
                "bool"@,
                bool_text(
                    match bool_field.default_value {
                        Some(value) => value,
                        None => false,
                    },
                ),
                bool_field.mandatory,
            ),
    {
        let description = write_text_or_null(&bool_field.description);
        let default_value = match bool_field.default_value {
            Some(value) => value,
            None => false,
        };
        push_insert(
            query,
            table_to_extend,
            bool_field.name.as_str(),
            description.as_str(),
            "bool",
            write_bool(default_value),
            bool_field.mandatory,
        );
    }

    /// The statements of the migration; `None` where it was not said what
    /// to extend.
    pub fn generate_query(&self) -> (query: Option<String>)
        ensures
            match self.kind {
                Some(kind) => query matches Some(text) && text@ == migration_statements(
                    table_of(kind),
                    self.fields@,
                ),
                None => query is None,
            },
    {
        match self.kind {
            Some(ExtensionType::Product) => {
                let table_to_extend = "__meta_product_custom_fields";
                let mut query = String::new();
                let mut i: usize = 0;
                while i < self.fields.len()
                    invariant
                        i <= self.fields.len(),
                        table_to_extend@ == "__meta_product_custom_fields"@,
                        query@ == migration_statements(table_to_extend@, self.fields@.take(i as int)),
                    decreases self.fields.len() - i,
                {
                    proof {
                        let prefix = self.fields@.take(i as int + 1);
                        assert(prefix.drop_last() =~= self.fields@.take(i as int));
                    }
                    match &self.fields[i].variant {
                        CreateExtensionFieldVariant::STRING(strng_field) => {
                            self.gen_string_extend(strng_field, &mut query, table_to_extend);
                        },
                        CreateExtensionFieldVariant::BOOLEAN(bool_field) => {
                            self.gen_boolean_extend(bool_field, &mut query, table_to_extend);
                        },
                    }
                    i += 1;
                }
                assert(self.fields@.take(i as int) =~= self.fields@);
                Some(query)
            },
            None => None,
        }
    }

    /// The statements of the migration, or the refusal of a migration
    /// that does not say what to extend.
    pub fn checked_query(&self) -> (query: Result<String, String>)
        ensures
            match self.kind {
                Some(kind) => query matches Ok(text) && text@ == migration_statements(
                    table_of(kind),
                    self.fields@,
                ),
                None => query matches Err(reason) && reason@ == invalid_migration(),
            },
    {
        match self.generate_query() {
            Some(query) => Ok(query),
            None => Err(String::from_str("Invalid data provided. Migration could not be generated.")),
        }
    }
}

} // verus!
