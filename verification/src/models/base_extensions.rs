use vstd::prelude::*;

verus! {

/// The kinds of catalog object that can carry custom fields.
#[derive(Clone, Copy, Debug, PartialEq, Eq, Structural)]
pub enum FieldExtensionObject {
    PRODUCT,
    CATEGORY,
    INVENTORY,
    PRICEBOOK,
}

/// The scalar kind of the values of a custom field.
#[derive(Clone, Copy, Debug, PartialEq, Eq, Structural)]
pub enum FieldExtensionType {
    STRING,
    INT,
}

impl FieldExtensionObject {
    /// The name of the value collection that belongs to this kind.
    pub open spec fn collection_name(self) -> Seq<char> {
        match self {
            FieldExtensionObject::PRODUCT => "products"@,
            FieldExtensionObject::CATEGORY => "categories"@,
            FieldExtensionObject::INVENTORY => "inventories"@,
            FieldExtensionObject::PRICEBOOK => "pricebooks"@,
        }
    }

    pub fn get_collection(self) -> (name: &'static str)
        ensures
            name@ == self.collection_name(),
    {
        match self {
            FieldExtensionObject::PRODUCT => "products",
            FieldExtensionObject::CATEGORY => "categories",
            FieldExtensionObject::INVENTORY => "inventories",
            FieldExtensionObject::PRICEBOOK => "pricebooks",
        }
    }
}

/// What a field definition holds, as plain mathematical values.
pub struct FieldExtensionView {
    pub id: u128,
    pub object: FieldExtensionObject,
    pub value_type: FieldExtensionType,
    pub name: Seq<char>,
    pub mandatory: bool,
    pub description: Option<Seq<char>>,
    pub max_len: Option<i64>,
    pub min_len: Option<i64>,
}

/// The registered schema of one custom field of one object kind.
///
/// `max_len` and `min_len` are bounds on the length of the values and are
/// only ever set on a definition whose `value_type` is `STRING`.
#[derive(Debug)]
pub struct FieldExtension {
    pub id: u128,
    pub object: FieldExtensionObject,
    pub value_type: FieldExtensionType,
    pub name: String,
    pub mandatory: bool,
    pub description: Option<String>,
    pub max_len: Option<i64>,
    pub min_len: Option<i64>,
}

/// The characters of an optional text.
pub open spec fn optional_text(text: Option<String>) -> Option<Seq<char>> {
    match text {
        Some(t) => Some(t@),
        None => None,
    }
}

/// A copy of an optional text.
pub fn clone_optional_text(text: &Option<String>) -> (copy: Option<String>)
    ensures
        optional_text(copy) == optional_text(*text),
{
    match text {
        Some(t) => Some(t.clone()),
        None => None,
    }
}

impl View for FieldExtension {
    type V = FieldExtensionView;

    open spec fn view(&self) -> FieldExtensionView {
        FieldExtensionView {
            id: self.id,
            object: self.object,
            value_type: self.value_type,
            name: self.name@,
            mandatory: self.mandatory,
            description: optional_text(self.description),
            max_len: self.max_len,
            min_len: self.min_len,
        }
    }
}

impl Clone for FieldExtension {
    fn clone(&self) -> (copy: Self)
        ensures
            copy@ == self@,
    {
        FieldExtension {
            id: self.id,
            object: self.object,
            value_type: self.value_type,
            name: self.name.clone(),
            mandatory: self.mandatory,
            description: clone_optional_text(&self.description),
            max_len: self.max_len,
            min_len: self.min_len,
        }
    }
}

} // verus!
