use vstd::prelude::*;
use vstd::string::*;
use crate::models::base_extensions::{
    FieldExtension, FieldExtensionObject, FieldExtensionType, FieldExtensionView,
};
use crate::schemas::base_extensions::{
    CreateCustomField, CreateCustomFieldEntry, CreateCustomFieldView,
};
use crate::text::same_text;

verus! {

pub type DbServiceResult<T> = Result<T, String>;

/// Whether `definition` is the field `name` of `object`.
pub open spec fn is_definition_of(
    definition: FieldExtensionView,
    object: FieldExtensionObject,
    name: Seq<char>,
) -> bool {
    definition.object == object && definition.name == name
}

/// The first definition of the field `name` of `object` among
/// `definitions`, if there is one.
pub open spec fn find_definition(
    definitions: Seq<FieldExtensionView>,
    object: FieldExtensionObject,
    name: Seq<char>,
) -> Option<FieldExtensionView>
    decreases definitions.len(),
{
    if definitions.len() == 0 {
        None
    } else if is_definition_of(definitions[0], object, name) {
        Some(definitions[0])
    } else {
        find_definition(definitions.drop_first(), object, name)
    }
}

/// The definitions among `definitions` that belong to `object`, in the
/// order in which they were registered.
pub open spec fn definitions_of(
    definitions: Seq<FieldExtensionView>,
    object: FieldExtensionObject,
) -> Seq<FieldExtensionView> {
    definitions.filter(|definition: FieldExtensionView| definition.object == object)
}

/// No object kind has two fields of one name.
pub open spec fn unique_names(definitions: Seq<FieldExtensionView>) -> bool {
    forall|i: int, j: int|
        0 <= i < j < definitions.len() ==> !is_definition_of(
            #[trigger] definitions[i],
            (#[trigger] definitions[j]).object,
            definitions[j].name,
        )
}

/// The type of the field that a request asks for.
pub open spec fn requested_type(custom: CreateCustomFieldEntry) -> FieldExtensionType {
    match custom {
        CreateCustomFieldEntry::STRING(_) => FieldExtensionType::STRING,
        CreateCustomFieldEntry::INT => FieldExtensionType::INT,
    }
}

/// The definition that a request asks for, under the identifier `id`.
/// Length bounds are taken from a text field and are absent otherwise.
pub open spec fn requested_definition(payload: CreateCustomFieldView, id: u128) -> FieldExtensionView {
    FieldExtensionView {
        id,
        object: payload.object,
        value_type: requested_type(payload.custom),
        name: payload.name,
        mandatory: payload.mandatory,
        description: payload.description,
        max_len: match payload.custom {
            CreateCustomFieldEntry::STRING(bounds) => bounds.max_len,
            CreateCustomFieldEntry::INT => None,
        },
        min_len: match payload.custom {
            CreateCustomFieldEntry::STRING(bounds) => bounds.min_len,
            CreateCustomFieldEntry::INT => None,
        },
    }
}

/// Builds the definition that `payload` asks for, under the identifier
/// `id`.
pub fn definition_from(payload: CreateCustomField, id: u128) -> (definition: FieldExtension)
    ensures
        definition@ == requested_definition(payload@, id),
{
    let field_type = match payload.custom {
        CreateCustomFieldEntry::STRING(_) => FieldExtensionType::STRING,
        CreateCustomFieldEntry::INT => FieldExtensionType::INT,
    };
    let max_len = match &payload.custom {
        CreateCustomFieldEntry::STRING(fields) => fields.max_len,
        _ => None,
    };
    let min_len = match &payload.custom {
        CreateCustomFieldEntry::STRING(fields) => fields.min_len,
        _ => None,
    };
    FieldExtension {
        id,
        object: payload.object,
        value_type: field_type,
        name: payload.base_felds.name,
        mandatory: payload.base_felds.mandatory,
        description: payload.base_felds.description,
        max_len,
        min_len,
    }
}

/// The definitions of a list, as plain mathematical values.
pub open spec fn definitions_view(definitions: Seq<FieldExtension>) -> Seq<FieldExtensionView> {
    definitions.map_values(|definition: FieldExtension| definition@)
}

/// An optional definition, as plain mathematical values.
pub open spec fn optional_definition(definition: Option<FieldExtension>) -> Option<FieldExtensionView> {
    match definition {
        Some(found) => Some(found@),
        None => None,
    }
}

/// A lookup finds a definition exactly when one of the definitions is
/// the field that is looked for, and what it finds is that field.
pub proof fn lemma_find_definition(
    definitions: Seq<FieldExtensionView>,
    object: FieldExtensionObject,
    name: Seq<char>,
)
    ensures
        find_definition(definitions, object, name) is Some <==> exists|i: int|
            0 <= i < definitions.len() && is_definition_of(#[trigger] definitions[i], object, name),
        find_definition(definitions, object, name) matches Some(found) ==> is_definition_of(
            found,
            object,
            name,
        ) && definitions.contains(found),
    decreases definitions.len(),
{
    if definitions.len() > 0 {
        let rest = definitions.drop_first();
        lemma_find_definition(rest, object, name);
        if !is_definition_of(definitions[0], object, name) {
            if find_definition(rest, object, name) is Some {
                let i = choose|i: int|
                    0 <= i < rest.len() && is_definition_of(#[trigger] rest[i], object, name);
                assert(is_definition_of(definitions[i + 1], object, name));
                let found = find_definition(rest, object, name)->0;
                let k = choose|k: int| 0 <= k < rest.len() && rest[k] == found;
                assert(definitions[k + 1] == found);
            }
            if exists|i: int|
                0 <= i < definitions.len() && is_definition_of(
                    #[trigger] definitions[i],
                    object,
                    name,
                ) {
                let i = choose|i: int|
                    0 <= i < definitions.len() && is_definition_of(
                        #[trigger] definitions[i],
                        object,
                        name,
                    );
                assert(is_definition_of(rest[i - 1], object, name));
            }
        }
    }
}

/// A lookup after one more definition was registered finds what it found
/// before; where it found nothing, it finds the new definition if that is
/// the field looked for.
pub proof fn lemma_find_after_push(
    definitions: Seq<FieldExtensionView>,
    added: FieldExtensionView,
    object: FieldExtensionObject,
    name: Seq<char>,
)
    ensures
        find_definition(definitions.push(added), object, name) == match find_definition(
            definitions,
            object,
            name,
        ) {
            Some(found) => Some(found),
            None => if is_definition_of(added, object, name) {
                Some(added)
            } else {
                None
            },
        },
    decreases definitions.len(),
{
    let extended = definitions.push(added);
    if definitions.len() == 0 {
        assert(extended.drop_first() =~= Seq::empty());
        assert(find_definition(extended.drop_first(), object, name) is None);
    } else {
        assert(extended.drop_first() =~= definitions.drop_first().push(added));
        lemma_find_after_push(definitions.drop_first(), added, object, name);
    }
}

/// What a registry of field definitions holds: the definitions in the
/// order in which they were registered, and the identifier that the next
/// one gets.
pub struct FieldRegistryView {
    pub definitions: Seq<FieldExtensionView>,
    pub next_id: u128,
}

/// A registry of field definitions that is kept in memory. It gives out
/// identifiers in ascending order and refuses a second field of one name
/// on one object kind.
pub struct MemoryFieldRegistry {
    definitions: Vec<FieldExtension>,
    next_id: u128,
}

impl View for MemoryFieldRegistry {
    type V = FieldRegistryView;

    closed spec fn view(&self) -> FieldRegistryView {
        FieldRegistryView {
            definitions: definitions_view(self.definitions@),
            next_id: self.next_id,
        }
    }
}

impl MemoryFieldRegistry {
    /// The registry keeps the names of the fields of each object kind
    /// distinct.
    pub open spec fn wf(&self) -> bool {
        unique_names(self@.definitions)
    }

    pub fn new() -> (registry: Self)
        ensures
            registry.wf(),
            registry@.definitions == Seq::<FieldExtensionView>::empty(),
            registry@.next_id == 0,
    {
        let registry = MemoryFieldRegistry { definitions: Vec::new(), next_id: 0 };
        registry
    }

    /// A registry without definitions whose first identifier is
    /// `next_id`.
    pub fn starting_at(next_id: u128) -> (registry: Self)
        ensures
            registry.wf(),
            registry@.definitions == Seq::<FieldExtensionView>::empty(),
            registry@.next_id == next_id,
    {
        MemoryFieldRegistry { definitions: Vec::new(), next_id }
    }

    /// The definition of the field `field_name` of `object_type`, or
    /// `None` where the registry holds none.
    pub fn get_custom_field(&self, object_type: FieldExtensionObject, field_name: &str) -> (found:
        DbServiceResult<Option<FieldExtension>>)
        ensures
            found matches Ok(definition) && optional_definition(definition) == find_definition(
                self@.definitions,
                object_type,
                field_name@,
            ),
    {
        let ghost all = definitions_view(self.definitions@);
        let mut i: usize = 0;
        assert(all.skip(0) =~= all);
        while i < self.definitions.len()
            invariant
                i <= self.definitions.len(),
                all == definitions_view(self.definitions@),
                find_definition(all, object_type, field_name@) == find_definition(
                    all.skip(i as int),
                    object_type,
                    field_name@,
                ),
            decreases self.definitions.len() - i,
        {
            proof {
                assert(all.skip(i as int).drop_first() =~= all.skip(i as int + 1));
            }
            if self.definitions[i].object == object_type && same_text(
                self.definitions[i].name.as_str(),
                field_name,
            ) {
                return Ok(Some(self.definitions[i].clone()));
            }
            i += 1;
        }
        Ok(None)
    }

    /// The definitions of the fields of `object_type`, in the order in
    /// which they were registered.
    pub fn get_custom_fields(&self, object_type: FieldExtensionObject) -> (found: DbServiceResult<
        Vec<FieldExtension>,
    >)
        ensures
            found matches Ok(definitions) && definitions_view(definitions@) == definitions_of(
                self@.definitions,
                object_type,
            ),
    {
        let mut found: Vec<FieldExtension> = Vec::new();
        let ghost all = definitions_view(self.definitions@);
        let ghost belongs = |definition: FieldExtensionView| definition.object == object_type;
        proof {
            reveal_with_fuel(Seq::filter, 1);
        }
        let mut i: usize = 0;
        while i < self.definitions.len()
            invariant
                i <= self.definitions.len(),
                all == definitions_view(self.definitions@),
                belongs == |definition: FieldExtensionView| definition.object == object_type,
                definitions_view(found@) == all.take(i as int).filter(belongs),
            decreases self.definitions.len() - i,
        {
            proof {
                reveal_with_fuel(Seq::filter, 2);
                assert(all.take(i as int + 1).drop_last() =~= all.take(i as int));
            }
            if self.definitions[i].object == object_type {
                found.push(self.definitions[i].clone());
            }
            i += 1;
        }
        assert(all.take(i as int) =~= all);
        Ok(found)
    }

    /// Registers the field that `payload` asks for and returns its
    /// definition. The registry refuses a field that it already holds, and
    /// fails when no identifier is left; it is then as it was.
    pub fn create_custom_field(&mut self, payload: CreateCustomField) -> (created: DbServiceResult<
        FieldExtension,
    >)
        requires
            old(self).wf(),
        ensures
            final(self).wf(),
            created is Ok <==> find_definition(
                old(self)@.definitions,
                payload@.object,
                payload@.name,
            ) is None && old(self)@.next_id < u128::MAX,
            created matches Ok(definition) ==> {
                &&& definition@ == requested_definition(payload@, old(self)@.next_id)
                &&& final(self)@.definitions == old(self)@.definitions.push(definition@)
                &&& final(self)@.next_id == old(self)@.next_id + 1
            },
            created matches Err(message) ==> {
                &&& final(self)@ == old(self)@
                &&& message@ == if find_definition(
                    old(self)@.definitions,
                    payload@.object,
                    payload@.name,
                ) is Some {
                    "duplicate key value violates unique constraint"@
                } else {
                    "no identifier is left for a new field"@
                }
            },
    {
        let ghost before = self@.definitions;
        let existing = match self.get_custom_field(
            payload.object,
            payload.base_felds.name.as_str(),
        ) {
            Ok(existing) => existing,
            Err(message) => return Err(message),
        };
        if existing.is_some() {
            return Err(String::from_str("duplicate key value violates unique constraint"));
        }
        let id = self.next_id;
        if id == u128::MAX {
            return Err(String::from_str("no identifier is left for a new field"));
        }
        let ghost object = payload@.object;
        let ghost name = payload@.name;
        let definition = definition_from(payload, id);
        let stored = definition.clone();
        self.definitions.push(stored);
        self.next_id = id + 1;
        proof {
            lemma_find_definition(before, object, name);
            assert forall|i: int, j: int| 0 <= i < j < self@.definitions.len() implies !is_definition_of(
                #[trigger] self@.definitions[i],
                (#[trigger] self@.definitions[j]).object,
                self@.definitions[j].name,
            ) by {
                assert(self@.definitions[i] == before[i]);
                if j < before.len() {
                    assert(self@.definitions[j] == before[j]);
                }
            }
        }
        Ok(definition)
    }
}

} // verus!
