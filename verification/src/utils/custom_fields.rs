use vstd::prelude::*;
use crate::models::base_extensions::{FieldExtension, FieldExtensionObject, FieldExtensionView};
use crate::models::error::{outcome_view, ExtensionError, ExtensionErrorView};
use crate::schemas::base_extensions::{
    custom_fields_view, fields_view, ObjectCustomField, ObjectCustomFields,
};
use crate::services::db::{find_definition, MemoryFieldRegistry};
use crate::services::unstructureddb::entry::{
    entries_view, ScalarView, UnstructuredEntry, UnstructuredEntryView,
};
use crate::services::unstructureddb::{entries_of, MemoryUnstructuredDb, UnstructuredDbView};
use crate::utils::custom_field_values::{
    distinct_names, entry_pairs, fold_custom_fields, lemma_values_map_value, values_map,
    CustomFieldValues,
};

verus! {

/// The entry that is stored for one custom field of an entity.
pub open spec fn planned_entry(extr_ref: Seq<char>, field: (Seq<char>, ScalarView)) -> UnstructuredEntryView {
    UnstructuredEntryView { extr_ref, field_name: field.0, value: field.1 }
}

/// The batch that is stored for the custom fields of an entity: one entry
/// for each field, in the order of the fields.
pub open spec fn planned_entries(
    extr_ref: Seq<char>,
    fields: Seq<(Seq<char>, ScalarView)>,
) -> Seq<UnstructuredEntryView> {
    fields.map_values(|field: (Seq<char>, ScalarView)| planned_entry(extr_ref, field))
}

/// What the caller of an attachment has to do next.
#[derive(Debug)]
pub enum AttachAction {
    /// Ask the registry for the definition of the field `name` of `object`
    /// and report what it answered.
    Lookup { object: FieldExtensionObject, name: String },
    /// Hand `entries` to the value store of `object` as one batch and
    /// report what it answered.
    Write { object: FieldExtensionObject, entries: Vec<UnstructuredEntry> },
    /// Nothing is left to do: the attachment ended with this result.
    Finish(Result<(), ExtensionError>),
}

/// What the caller of an attachment has to do next, as plain values.
pub enum AttachActionView {
    Lookup { object: FieldExtensionObject, name: Seq<char> },
    Write { object: FieldExtensionObject, entries: Seq<UnstructuredEntryView> },
    Finish(Result<(), ExtensionErrorView>),
}

impl View for AttachAction {
    type V = AttachActionView;

    open spec fn view(&self) -> AttachActionView {
        match self {
            AttachAction::Lookup { object, name } => AttachActionView::Lookup {
                object: *object,
                name: name@,
            },
            AttachAction::Write { object, entries } => AttachActionView::Write {
                object: *object,
                entries: entries_view(entries@),
            },
            AttachAction::Finish(Ok(())) => AttachActionView::Finish(Ok(())),
            AttachAction::Finish(Err(error)) => AttachActionView::Finish(Err(error@)),
        }
    }
}

/// What a registry answered to a lookup, as far as an attachment reads
/// it: whether the field is defined, or the failure that it reported.
pub open spec fn lookup_view(found: Result<Option<FieldExtension>, String>) -> Result<bool, Seq<char>> {
    match found {
        Ok(definition) => Ok(definition is Some),
        Err(message) => Err(message@),
    }
}

/// The first action of an attachment.
pub open spec fn first_action(
    object: FieldExtensionObject,
    fields: Seq<(Seq<char>, ScalarView)>,
) -> AttachActionView {
    if fields.len() == 0 {
        AttachActionView::Finish(Ok(()))
    } else {
        AttachActionView::Lookup { object, name: fields[0].0 }
    }
}

/// The action that follows the answer to the lookup of the field at
/// `position`.
pub open spec fn action_after_lookup(
    extr_ref: Seq<char>,
    object: FieldExtensionObject,
    fields: Seq<(Seq<char>, ScalarView)>,
    position: int,
    found: Result<bool, Seq<char>>,
) -> AttachActionView {
    match found {
        Err(message) => AttachActionView::Finish(Err(ExtensionErrorView::Persistence(message))),
        Ok(false) => AttachActionView::Finish(
            Err(ExtensionErrorView::UnknownField(fields[position].0)),
        ),
        Ok(true) => if position + 1 < fields.len() {
            AttachActionView::Lookup { object, name: fields[position + 1].0 }
        } else {
            AttachActionView::Write { object, entries: planned_entries(extr_ref, fields) }
        },
    }
}

/// The result of an attachment, given what the value store answered to
/// the batch.
pub open spec fn result_after_write(written: Result<(), String>) -> Result<(), ExtensionErrorView> {
    match written {
        Ok(()) => Ok(()),
        Err(message) => Err(ExtensionErrorView::Persistence(message@)),
    }
}

/// Where an attachment stands.
#[derive(Clone, Copy, Debug, PartialEq, Eq, Structural)]
pub enum AttachPhase {
    /// It waits for the answer to a lookup.
    Looking,
    /// It waits for the answer to the batch.
    Writing,
    /// It has ended.
    Finished,
}

/// The attachment of custom fields to one entity, as a sequence of steps
/// that performs no store access itself: each step says what to ask of a
/// store, and the next step takes the answer.
///
/// Every field is looked up in the registry, in the order of the request;
/// the first field without a definition ends the attachment, and nothing
/// is written. Only when all fields are defined is one batch handed to the
/// value store.
pub struct CustomFieldsAttachment<'a> {
    pub extr_ref: String,
    pub object: FieldExtensionObject,
    pub fields: &'a [(String, ObjectCustomField)],
    pub entries: Vec<UnstructuredEntry>,
    pub phase: AttachPhase,
}

impl<'a> CustomFieldsAttachment<'a> {
    /// The names and values to attach.
    pub open spec fn fields(&self) -> Seq<(Seq<char>, ScalarView)> {
        fields_view(self.fields@)
    }

    /// The number of fields that the registry has confirmed.
    pub open spec fn position(&self) -> int {
        self.entries@.len() as int
    }

    /// While it looks fields up, the attachment holds the entries of the
    /// fields that were confirmed, and one field at least is left.
    pub open spec fn wf(&self) -> bool {
        self.phase == AttachPhase::Looking ==> {
            &&& self.position() < self.fields().len()
            &&& entries_view(self.entries@) == planned_entries(self.extr_ref@, self.fields()).take(
                self.position(),
            )
        }
    }

    /// Starts the attachment of `custom_fields` to the entity `extr_ref`.
    /// Without fields it ends at once, with success.
    pub fn begin(
        extr_ref: String,
        object: FieldExtensionObject,
        custom_fields: &'a ObjectCustomFields,
    ) -> (started: (Self, AttachAction))
        ensures
            started.0.wf(),
            started.0.extr_ref@ == extr_ref@,
            started.0.object == object,
            started.0.fields() == custom_fields_view(*custom_fields),
            started.0.position() == 0,
            started.1@ == first_action(object, custom_fields_view(*custom_fields)),
            started.0.phase == if custom_fields_view(*custom_fields).len() == 0 {
                AttachPhase::Finished
            } else {
                AttachPhase::Looking
            },
    {
        let fields: &[(String, ObjectCustomField)] = match custom_fields {
            Some(fields) => fields.as_slice(),
            None => &[],
        };
        let mut attachment = CustomFieldsAttachment {
            extr_ref,
            object,
            fields,
            entries: Vec::new(),
            phase: AttachPhase::Finished,
        };
        if fields.len() == 0 {
            (attachment, AttachAction::Finish(Ok(())))
        } else {
            let name = fields[0].0.clone();
            attachment.phase = AttachPhase::Looking;
            assert(entries_view(attachment.entries@) =~= planned_entries(
                attachment.extr_ref@,
                attachment.fields(),
            ).take(0));
            (attachment, AttachAction::Lookup { object, name })
        }
    }

    /// Takes the registry's answer to the last lookup and says what to do
    /// next.
    pub fn on_lookup(&mut self, found: Result<Option<FieldExtension>, String>) -> (action:
        AttachAction)
        requires
            old(self).wf(),
            old(self).phase == AttachPhase::Looking,
        ensures
            final(self).wf(),
            final(self).extr_ref == old(self).extr_ref,
            final(self).object == old(self).object,
            final(self).fields == old(self).fields,
            action@ == action_after_lookup(
                old(self).extr_ref@,
                old(self).object,
                old(self).fields(),
                old(self).position(),
                lookup_view(found),
            ),
            final(self).phase == match action@ {
                AttachActionView::Lookup { .. } => AttachPhase::Looking,
                AttachActionView::Write { .. } => AttachPhase::Writing,
                AttachActionView::Finish(_) => AttachPhase::Finished,
            },
            action@ is Lookup ==> final(self).position() == old(self).position() + 1,
    {
        let fields = self.fields;
        let position = self.entries.len();
        assert(position < fields.len());
        match found {
            Err(message) => {
                self.phase = AttachPhase::Finished;
                AttachAction::Finish(Err(ExtensionError::Persistence(message)))
            },
            Ok(None) => {
                self.phase = AttachPhase::Finished;
                AttachAction::Finish(
                    Err(ExtensionError::UnknownField(fields[position].0.clone())),
                )
            },
            Ok(Some(_)) => {
                let entry = UnstructuredEntry {
                    extr_ref: self.extr_ref.clone(),
                    field_name: fields[position].0.clone(),
                    value: fields[position].1.to_entry_value(),
                };
                self.entries.push(entry);
                assert(entries_view(self.entries@) =~= planned_entries(
                    self.extr_ref@,
                    self.fields(),
                ).take(position + 1));
                if position + 1 < fields.len() {
                    AttachAction::Lookup {
                        object: self.object,
                        name: fields[position + 1].0.clone(),
                    }
                } else {
                    let mut entries: Vec<UnstructuredEntry> = Vec::new();
                    std::mem::swap(&mut entries, &mut self.entries);
                    self.phase = AttachPhase::Writing;
                    assert(entries_view(entries@) =~= planned_entries(
                        self.extr_ref@,
                        self.fields(),
                    ));
                    AttachAction::Write { object: self.object, entries }
                }
            },
        }
    }

    /// Takes the value store's answer to the batch and gives the result of
    /// the attachment. A failure of the store is passed on as it is.
    pub fn on_written(&mut self, written: Result<(), String>) -> (result: Result<
        (),
        ExtensionError,
    >)
        requires
            old(self).phase == AttachPhase::Writing,
        ensures
            final(self).phase == AttachPhase::Finished,
            final(self).wf(),
            outcome_view(result) == result_after_write(written),
    {
        self.phase = AttachPhase::Finished;
        match written {
            Ok(()) => Ok(()),
            Err(message) => Err(ExtensionError::Persistence(message)),
        }
    }
}

/// The position of the first field from `from` on that has no definition
/// for `object`; the number of fields where all of them are defined.
pub open spec fn first_undefined(
    definitions: Seq<FieldExtensionView>,
    object: FieldExtensionObject,
    fields: Seq<(Seq<char>, ScalarView)>,
    from: int,
) -> int
    decreases fields.len() - from,
{
    if from < 0 || from >= fields.len() {
        fields.len() as int
    } else if find_definition(definitions, object, fields[from].0) is None {
        from
    } else {
        first_undefined(definitions, object, fields, from + 1)
    }
}

/// Why the attachment of `fields` to an entity of kind `object` fails
/// when the stores work: the first field without a definition is unknown.
/// `None` where all fields are defined.
pub open spec fn attachment_error(
    definitions: Seq<FieldExtensionView>,
    object: FieldExtensionObject,
    fields: Seq<(Seq<char>, ScalarView)>,
) -> Option<ExtensionErrorView> {
    let unknown = first_undefined(definitions, object, fields, 0);
    if unknown < fields.len() {
        Some(ExtensionErrorView::UnknownField(fields[unknown].0))
    } else {
        None
    }
}

/// The value store after the attachment of `fields` to the entity
/// `extr_ref`: one batch was written where there are fields and all are
/// defined, and nothing otherwise.
pub open spec fn store_after_attachment(
    definitions: Seq<FieldExtensionView>,
    store: UnstructuredDbView,
    extr_ref: Seq<char>,
    object: FieldExtensionObject,
    fields: Seq<(Seq<char>, ScalarView)>,
) -> UnstructuredDbView {
    if fields.len() > 0 && attachment_error(definitions, object, fields) is None {
        store.with_batch(object, planned_entries(extr_ref, fields))
    } else {
        store
    }
}

/// Attaches `custom_fields` to the entity `extr_ref` of kind `object`:
/// every field is looked up in `registry`, and the values are written to
/// `store` as one batch if all fields are defined.
pub fn create_custom_fields(
    registry: &MemoryFieldRegistry,
    store: &mut MemoryUnstructuredDb,
    extr_ref: String,
    object: FieldExtensionObject,
    custom_fields: &ObjectCustomFields,
) -> (result: Result<(), ExtensionError>)
    ensures
        outcome_view(result) == match attachment_error(
            registry@.definitions,
            object,
            custom_fields_view(*custom_fields),
        ) {
            Some(reason) => Err::<(), ExtensionErrorView>(reason),
            None => Ok(()),
        },
        final(store)@ == store_after_attachment(
            registry@.definitions,
            old(store)@,
            extr_ref@,
            object,
            custom_fields_view(*custom_fields),
        ),
{
    let ghost definitions = registry@.definitions;
    let ghost fields = custom_fields_view(*custom_fields);
    let ghost reference = extr_ref@;
    let (mut attachment, first) = CustomFieldsAttachment::begin(extr_ref, object, custom_fields);
    let mut action = first;
    loop
        invariant
            attachment.wf(),
            reference == extr_ref@,
            attachment.extr_ref@ == reference,
            attachment.object == object,
            attachment.fields() == fields,
            definitions == registry@.definitions,
            fields == custom_fields_view(*custom_fields),
            store@ == old(store)@,
            match action@ {
                AttachActionView::Lookup { object: kind, name } => {
                    &&& attachment.phase == AttachPhase::Looking
                    &&& kind == object
                    &&& name == fields[attachment.position()].0
                    &&& first_undefined(definitions, object, fields, 0) == first_undefined(
                        definitions,
                        object,
                        fields,
                        attachment.position(),
                    )
                },
                AttachActionView::Write { object: kind, entries } => {
                    &&& attachment.phase == AttachPhase::Writing
                    &&& kind == object
                    &&& entries == planned_entries(reference, fields)
                    &&& fields.len() > 0
                    &&& attachment_error(definitions, object, fields) is None
                },
                AttachActionView::Finish(ended) => {
                    &&& ended == match attachment_error(definitions, object, fields) {
                        Some(reason) => Err::<(), ExtensionErrorView>(reason),
                        None => Ok(()),
                    }
                    &&& (fields.len() == 0 || attachment_error(definitions, object, fields) is Some)
                },
            },
        decreases
            if action@ is Lookup {
                2 + fields.len() - attachment.position()
            } else {
                1
            },
    {
        match action {
            AttachAction::Lookup { object: kind, name } => {
                let found = registry.get_custom_field(kind, name.as_str());
                proof {
                    reveal_with_fuel(first_undefined, 2);
                }
                action = attachment.on_lookup(found);
            },
            AttachAction::Write { object: kind, entries } => {
                let written = store.put_custom_fields(kind, entries);
                return attachment.on_written(written);
            },
            AttachAction::Finish(ended) => {
                return ended;
            },
        }
    }
}

/// The values by name that `store` holds for the entity `extr_ref` of
/// kind `object`. Where a name has several entries, the last one counts.
pub fn get_values_view(store: &MemoryUnstructuredDb, object: FieldExtensionObject, extr_ref: &str) -> (view:
    Result<CustomFieldValues, String>)
    ensures
        view matches Ok(values) && values.wf() && values@ == values_map(
            entry_pairs(store@.values_of(object, extr_ref@)),
        ),
{
    match store.get_custom_fields(object, extr_ref) {
        Ok(entries) => Ok(fold_custom_fields(entries)),
        Err(message) => Err(message),
    }
}

/// What `first_undefined` finds: no field from `from` up to it lacks a
/// definition, and the field at it, if there is one, does.
pub proof fn lemma_first_undefined(
    definitions: Seq<FieldExtensionView>,
    object: FieldExtensionObject,
    fields: Seq<(Seq<char>, ScalarView)>,
    from: int,
)
    requires
        0 <= from <= fields.len(),
    ensures
        from <= first_undefined(definitions, object, fields, from) <= fields.len(),
        first_undefined(definitions, object, fields, from) < fields.len() ==> find_definition(
            definitions,
            object,
            fields[first_undefined(definitions, object, fields, from)].0,
        ) is None,
        forall|k: int|
            from <= k < first_undefined(definitions, object, fields, from) ==> find_definition(
                definitions,
                object,
                (#[trigger] fields[k]).0,
            ) is Some,
    decreases fields.len() - from,
{
    if from < fields.len() && find_definition(definitions, object, fields[from].0) is Some {
        lemma_first_undefined(definitions, object, fields, from + 1);
    }
}

/// A request that names a field without a definition is rejected: the
/// attachment fails on the first such field as unknown, and the value
/// store is as it was.
pub proof fn lemma_unknown_field_is_rejected(
    definitions: Seq<FieldExtensionView>,
    store: UnstructuredDbView,
    extr_ref: Seq<char>,
    object: FieldExtensionObject,
    fields: Seq<(Seq<char>, ScalarView)>,
)
    requires
        exists|i: int|
            0 <= i < fields.len() && find_definition(definitions, object, (#[trigger] fields[i]).0)
                is None,
    ensures
        attachment_error(definitions, object, fields) matches Some(
            ExtensionErrorView::UnknownField(name),
        ) && find_definition(definitions, object, name) is None,
        store_after_attachment(definitions, store, extr_ref, object, fields) == store,
{
    lemma_first_undefined(definitions, object, fields, 0);
}

/// To attach no fields always succeeds, asks nothing of a store and
/// leaves the value store as it was.
pub proof fn lemma_empty_attachment(
    definitions: Seq<FieldExtensionView>,
    store: UnstructuredDbView,
    extr_ref: Seq<char>,
    object: FieldExtensionObject,
    fields: Seq<(Seq<char>, ScalarView)>,
)
    requires
        fields.len() == 0,
    ensures
        first_action(object, fields) == AttachActionView::Finish(Ok(())),
        attachment_error(definitions, object, fields) is None,
        store_after_attachment(definitions, store, extr_ref, object, fields) == store,
{
}

/// The entries of a batch that was planned for an entity all belong to
/// that entity, and none of them to another.
pub proof fn lemma_planned_entries_belong(
    extr_ref: Seq<char>,
    fields: Seq<(Seq<char>, ScalarView)>,
    other: Seq<char>,
)
    ensures
        entries_of(planned_entries(extr_ref, fields), extr_ref) == planned_entries(extr_ref, fields),
        other != extr_ref ==> entries_of(planned_entries(extr_ref, fields), other)
            == Seq::<UnstructuredEntryView>::empty(),
        entry_pairs(planned_entries(extr_ref, fields)) == fields,
    decreases fields.len(),
{
    reveal_with_fuel(Seq::filter, 2);
    let planned = planned_entries(extr_ref, fields);
    if fields.len() > 0 {
        lemma_planned_entries_belong(extr_ref, fields.drop_last(), other);
        assert(planned.drop_last() =~= planned_entries(extr_ref, fields.drop_last()));
    }
}

/// The map of two lists of pairs, one after the other, is the map of the
/// first with the map of the second laid over it.
pub proof fn lemma_values_map_concat(
    first: Seq<(Seq<char>, ScalarView)>,
    second: Seq<(Seq<char>, ScalarView)>,
)
    ensures
        values_map(first + second) == values_map(first).union_prefer_right(values_map(second)),
    decreases second.len(),
{
    if second.len() > 0 {
        lemma_values_map_concat(first, second.drop_last());
        assert((first + second).drop_last() =~= first + second.drop_last());
        assert(values_map(first + second) =~= values_map(first).union_prefer_right(
            values_map(second),
        ));
    }
}

/// What was attached is read back: after a successful attachment the
/// entity holds the entries that it held, followed by one entry for each
/// field, so its values by name are the values that it had with the
/// attached ones laid over them. For an entity that held no values they
/// are the attached ones. The values of every other entity and of the
/// other object kinds are as they were.
pub proof fn lemma_attached_values_are_read_back(
    definitions: Seq<FieldExtensionView>,
    store: UnstructuredDbView,
    extr_ref: Seq<char>,
    object: FieldExtensionObject,
    fields: Seq<(Seq<char>, ScalarView)>,
    other_ref: Seq<char>,
    other_object: FieldExtensionObject,
)
    requires
        attachment_error(definitions, object, fields) is None,
    ensures
        ({
            let after = store_after_attachment(definitions, store, extr_ref, object, fields);
            &&& after.values_of(object, extr_ref) == store.values_of(object, extr_ref)
                + planned_entries(extr_ref, fields)
            &&& values_map(entry_pairs(after.values_of(object, extr_ref))) == values_map(
                entry_pairs(store.values_of(object, extr_ref)),
            ).union_prefer_right(values_map(fields))
            &&& store.values_of(object, extr_ref).len() == 0 ==> values_map(
                entry_pairs(after.values_of(object, extr_ref)),
            ) == values_map(fields)
            &&& other_ref != extr_ref ==> after.values_of(object, other_ref) == store.values_of(
                object,
                other_ref,
            )
            &&& other_object != object ==> after.collection(other_object) == store.collection(
                other_object,
            )
        }),
{
    let planned = planned_entries(extr_ref, fields);
    let held = store.values_of(object, extr_ref);
    lemma_planned_entries_belong(extr_ref, fields, other_ref);
    if fields.len() > 0 {
        Seq::filter_distributes_over_add(
            store.collection(object),
            planned,
            |entry: UnstructuredEntryView| entry.extr_ref == extr_ref,
        );
        Seq::filter_distributes_over_add(
            store.collection(object),
            planned,
            |entry: UnstructuredEntryView| entry.extr_ref == other_ref,
        );
    }
    assert(entry_pairs(held + planned) =~= entry_pairs(held) + fields);
    lemma_values_map_concat(entry_pairs(held), fields);
    if held.len() == 0 {
        assert(values_map(entry_pairs(held)).union_prefer_right(values_map(fields)) =~= values_map(
            fields,
        ));
    }
}

/// Where a request names each of its fields once and the entity held no
/// values, every field is read back with the value that the request gave
/// it.
pub proof fn lemma_distinct_fields_are_read_back(
    definitions: Seq<FieldExtensionView>,
    store: UnstructuredDbView,
    extr_ref: Seq<char>,
    object: FieldExtensionObject,
    fields: Seq<(Seq<char>, ScalarView)>,
    i: int,
)
    requires
        attachment_error(definitions, object, fields) is None,
        distinct_names(fields),
        store.values_of(object, extr_ref).len() == 0,
        0 <= i < fields.len(),
    ensures
        ({
            let after = store_after_attachment(definitions, store, extr_ref, object, fields);
            let view = values_map(entry_pairs(after.values_of(object, extr_ref)));
            view.contains_key(fields[i].0) && view[fields[i].0] == fields[i].1
        }),
{
    lemma_attached_values_are_read_back(
        definitions,
        store,
        extr_ref,
        object,
        fields,
        extr_ref,
        object,
    );
    lemma_values_map_value(fields, i);
}

} // verus!
