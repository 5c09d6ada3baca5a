pub mod migration;

use vstd::prelude::*;
use vstd::string::*;
use crate::models::base_extensions::{optional_text, FieldExtensionObject};
use crate::services::unstructureddb::entry::{ScalarView, UnstructuredEntryType};
use crate::text::same_text;
use crate::utils::custom_field_values::{distinct_names, lemma_values_map_update, values_map};

verus! {

/// What every new field definition states, whatever its type.
#[derive(Debug)]
pub struct CreateBaseField {
    pub name: String,
    pub description: Option<String>,
    pub mandatory: bool,
}

/// The optional length bounds of a text field.
#[derive(Clone, Copy, Debug)]
pub struct CreateStringField {
    pub max_len: Option<i64>,
    pub min_len: Option<i64>,
}

/// The type of a new field, with what that type lets one constrain.
#[derive(Clone, Copy, Debug)]
pub enum CreateCustomFieldEntry {
    STRING(CreateStringField),
    INT,
}

/// A request to register a custom field on one object kind.
#[derive(Debug)]
pub struct CreateCustomField {
    pub object: FieldExtensionObject,
    pub base_felds: CreateBaseField,
    pub custom: CreateCustomFieldEntry,
}

/// A request to register a custom field, as plain mathematical values.
pub struct CreateCustomFieldView {
    pub object: FieldExtensionObject,
    pub name: Seq<char>,
    pub description: Option<Seq<char>>,
    pub mandatory: bool,
    pub custom: CreateCustomFieldEntry,
}

impl View for CreateCustomField {
    type V = CreateCustomFieldView;

    open spec fn view(&self) -> CreateCustomFieldView {
        CreateCustomFieldView {
            object: self.object,
            name: self.base_felds.name@,
            description: optional_text(self.base_felds.description),
            mandatory: self.base_felds.mandatory,
            custom: self.custom,
        }
    }
}

impl CreateCustomField {
    /// A request is valid when it names the field.
    pub open spec fn valid(&self) -> bool {
        self.base_felds.name@.len() > 0
    }

    pub fn validate(&self) -> (checked: Result<(), String>)
        ensures
            checked is Ok <==> self.valid(),
            checked matches Err(message) ==> message@ == "'name' is mandatory field"@,
    {
        if self.base_felds.name.as_str().is_empty() {
            return Err(String::from_str("'name' is mandatory field"));
        }
        Ok(())
    }
}

/// The value of a custom field as a caller supplies it.
#[derive(Debug)]
pub enum ObjectCustomField {
    STRING(String),
    INT(i64),
}

impl View for ObjectCustomField {
    type V = ScalarView;

    open spec fn view(&self) -> ScalarView {
        match self {
            ObjectCustomField::STRING(text) => ScalarView::Text(text@),
            ObjectCustomField::INT(number) => ScalarView::Int(*number),
        }
    }
}

impl ObjectCustomField {
    /// The same value in the form in which the value store holds it.
    pub fn to_entry_value(&self) -> (stored: UnstructuredEntryType)
        ensures
            stored@ == self@,
    {
        match self {
            ObjectCustomField::STRING(text) => UnstructuredEntryType::STRING(text.clone()),
            ObjectCustomField::INT(number) => UnstructuredEntryType::INT(*number),
        }
    }
}

/// The custom fields of a request: absent, or names with their values in
/// the order in which the caller gave them.
///
/// A list that is built with `set_custom_field` holds each name once, as
/// a map does, and `has_distinct_names` says of any list whether it does.
/// Nothing asks for it: a name that occurs more than once is attached
/// once for each of its pairs, in the order of the list, and on reading
/// the value of its last pair counts.
pub type ObjectCustomFields = Option<Vec<(String, ObjectCustomField)>>;

/// The names and values of a list of custom fields.
pub open spec fn fields_view(fields: Seq<(String, ObjectCustomField)>) -> Seq<(Seq<char>, ScalarView)> {
    fields.map_values(|field: (String, ObjectCustomField)| (field.0@, field.1@))
}

/// The names and values of the custom fields of a request; none where the
/// request has no custom fields.
pub open spec fn custom_fields_view(custom_fields: ObjectCustomFields) -> Seq<(Seq<char>, ScalarView)> {
    match custom_fields {
        Some(fields) => fields_view(fields@),
        None => Seq::empty(),
    }
}

/// Whether no name occurs twice among the custom fields of a request.
pub open spec fn names_are_distinct(custom_fields: ObjectCustomFields) -> bool {
    distinct_names(custom_fields_view(custom_fields))
}

/// Whether no name occurs twice among the custom fields of a request.
pub fn has_distinct_names(custom_fields: &ObjectCustomFields) -> (distinct: bool)
    ensures
        distinct == names_are_distinct(*custom_fields),
{
    let fields = match custom_fields {
        Some(fields) => fields,
        None => return true,
    };
    let ghost pairs = fields_view(fields@);
    let mut i: usize = 0;
    while i < fields.len()
        invariant
            i <= fields.len(),
            pairs == fields_view(fields@),
            pairs == custom_fields_view(*custom_fields),
            forall|a: int, b: int| 0 <= a < b < i ==> (#[trigger] pairs[a]).0 != (#[trigger] pairs[b]).0,
        decreases fields.len() - i,
    {
        let mut j: usize = 0;
        while j < i
            invariant
                j <= i < fields.len(),
                pairs == fields_view(fields@),
                pairs == custom_fields_view(*custom_fields),
                forall|a: int| 0 <= a < j ==> (#[trigger] pairs[a]).0 != pairs[i as int].0,
            decreases i - j,
        {
            if same_text(fields[j].0.as_str(), fields[i].0.as_str()) {
                assert(pairs[j as int].0 == pairs[i as int].0);
                return false;
            }
            j += 1;
        }
        i += 1;
    }
    true
}

/// The place of the pair named `name` among `pairs`, if there is one.
pub open spec fn place_of_name(pairs: Seq<(Seq<char>, ScalarView)>, name: Seq<char>) -> Option<int> {
    if exists|i: int| 0 <= i < pairs.len() && (#[trigger] pairs[i]).0 == name {
        Some(choose|i: int| 0 <= i < pairs.len() && (#[trigger] pairs[i]).0 == name)
    } else {
        None
    }
}

/// The pairs after `name` was given the value `value`: the pair of the
/// name holds the new value at its old place, and a name that had no pair
/// gets one at the end.
pub open spec fn with_field(
    pairs: Seq<(Seq<char>, ScalarView)>,
    name: Seq<char>,
    value: ScalarView,
) -> Seq<(Seq<char>, ScalarView)> {
    match place_of_name(pairs, name) {
        Some(place) => pairs.update(place, (name, value)),
        None => pairs.push((name, value)),
    }
}

/// Gives `name` the value `value` among `fields`, as a map would: in
/// place of the value that it had, if it had one, and as a new pair at
/// the end otherwise. The other pairs and the order stay, and no name
/// comes to occur twice.
pub fn set_custom_field(
    fields: &mut Vec<(String, ObjectCustomField)>,
    name: String,
    value: ObjectCustomField,
)
    requires
        distinct_names(fields_view(old(fields)@)),
    ensures
        fields_view(final(fields)@) == with_field(fields_view(old(fields)@), name@, value@),
        distinct_names(fields_view(final(fields)@)),
        values_map(fields_view(final(fields)@)) == values_map(fields_view(old(fields)@)).insert(
            name@,
            value@,
        ),
{
    let ghost before = fields_view(fields@);
    let mut i: usize = 0;
    while i < fields.len()
        invariant
            i <= fields.len(),
            fields@ == old(fields)@,
            before == fields_view(fields@),
            distinct_names(before),
            forall|k: int| 0 <= k < i ==> (#[trigger] before[k]).0 != name@,
        decreases fields.len() - i,
    {
        if same_text(fields[i].0.as_str(), name.as_str()) {
            proof {
                assert(before[i as int].0 == name@);
                let place = place_of_name(before, name@)->0;
                assert(place == i) by {
                    if place < i {
                        assert(before[place].0 != before[i as int].0);
                    } else if place > i {
                        assert(before[i as int].0 != before[place].0);
                    }
                }
                lemma_values_map_update(before, i as int, value@);
            }
            fields.set(i, (name, value));
            assert(fields_view(fields@) =~= before.update(i as int, (name@, value@)));
            return ;
        }
        i += 1;
    }
    fields.push((name, value));
    proof {
        let after = fields_view(fields@);
        assert(after =~= before.push((name@, value@)));
        assert(after.drop_last() =~= before);
        assert forall|a: int, b: int| 0 <= a < b < after.len() implies (#[trigger] after[a]).0 != (
        #[trigger] after[b]).0 by {
            assert(after[a] == before[a]);
            if b < before.len() {
                assert(after[b] == before[b]);
            }
        }
    }
}

} // verus!
