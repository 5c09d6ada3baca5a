pub mod entry;

use vstd::prelude::*;
use vstd::string::*;
use crate::models::base_extensions::FieldExtensionObject;
use crate::services::unstructureddb::entry::{
    entries_view, UnstructuredEntry, UnstructuredEntryView,
};
use crate::text::same_text;

verus! {

pub type UnstructuredDbResult = Result<(), String>;

pub type UnstructuredDbObjectResult = Result<Vec<UnstructuredEntry>, String>;

/// The entries among `stored` that belong to the entity `extr_ref`, in the
/// order in which they are stored.
pub open spec fn entries_of(stored: Seq<UnstructuredEntryView>, extr_ref: Seq<char>) -> Seq<
    UnstructuredEntryView,
> {
    stored.filter(|entry: UnstructuredEntryView| entry.extr_ref == extr_ref)
}

/// What a value store holds: for each object kind the entries of its
/// collection, in the order in which they were written.
pub struct UnstructuredDbView {
    pub products: Seq<UnstructuredEntryView>,
    pub categories: Seq<UnstructuredEntryView>,
    pub inventories: Seq<UnstructuredEntryView>,
    pub pricebooks: Seq<UnstructuredEntryView>,
}

impl UnstructuredDbView {
    /// A store without entries.
    pub open spec fn empty() -> UnstructuredDbView {
        UnstructuredDbView {
            products: Seq::empty(),
            categories: Seq::empty(),
            inventories: Seq::empty(),
            pricebooks: Seq::empty(),
        }
    }

    /// The entries of the collection of `object`.
    pub open spec fn collection(self, object: FieldExtensionObject) -> Seq<UnstructuredEntryView> {
        match object {
            FieldExtensionObject::PRODUCT => self.products,
            FieldExtensionObject::CATEGORY => self.categories,
            FieldExtensionObject::INVENTORY => self.inventories,
            FieldExtensionObject::PRICEBOOK => self.pricebooks,
        }
    }

    /// The store after `batch` was written to the collection of `object`:
    /// the batch follows what the collection held, and the other
    /// collections are as they were.
    pub open spec fn with_batch(
        self,
        object: FieldExtensionObject,
        batch: Seq<UnstructuredEntryView>,
    ) -> UnstructuredDbView {
        match object {
            FieldExtensionObject::PRODUCT => UnstructuredDbView {
                products: self.products + batch,
                ..self
            },
            FieldExtensionObject::CATEGORY => UnstructuredDbView {
                categories: self.categories + batch,
                ..self
            },
            FieldExtensionObject::INVENTORY => UnstructuredDbView {
                inventories: self.inventories + batch,
                ..self
            },
            FieldExtensionObject::PRICEBOOK => UnstructuredDbView {
                pricebooks: self.pricebooks + batch,
                ..self
            },
        }
    }

    /// The entries that the store holds for the entity `extr_ref` of kind
    /// `object`.
    pub open spec fn values_of(self, object: FieldExtensionObject, extr_ref: Seq<char>) -> Seq<
        UnstructuredEntryView,
    > {
        entries_of(self.collection(object), extr_ref)
    }
}

/// The characters of each text of a list.
pub open spec fn texts_view(texts: Seq<String>) -> Seq<Seq<char>> {
    texts.map_values(|text: String| text@)
}

/// The collections that a value store needs, one for each object kind.
pub open spec fn required_names() -> Seq<Seq<char>> {
    seq!["products"@, "categories"@, "inventories"@, "pricebooks"@]
}

/// The names of the collections that a value store needs.
pub fn required_collections() -> (names: Vec<String>)
    ensures
        texts_view(names@) == required_names(),
{
    let mut names: Vec<String> = Vec::new();
    names.push(String::from_str("products"));
    names.push(String::from_str("categories"));
    names.push(String::from_str("inventories"));
    names.push(String::from_str("pricebooks"));
    names
}

/// The collection of every object kind is among the collections that a
/// value store needs.
pub proof fn lemma_every_collection_is_required(object: FieldExtensionObject)
    ensures
        required_names().contains(object.collection_name()),
{
    let names = required_names();
    assert(names[0] == "products"@);
    assert(names[1] == "categories"@);
    assert(names[2] == "inventories"@);
    assert(names[3] == "pricebooks"@);
}

/// Once the missing collections are created, none that is required is
/// left out: each required collection either exists or is among the
/// missing ones.
pub proof fn lemma_missing_collections_complete(
    required: Seq<Seq<char>>,
    existing: Seq<Seq<char>>,
    name: Seq<char>,
)
    requires
        required.contains(name),
    ensures
        existing.contains(name) || required.filter(
            |wanted: Seq<char>| !existing.contains(wanted),
        ).contains(name),
{
    if !existing.contains(name) {
        let i = choose|i: int| 0 <= i < required.len() && required[i] == name;
        required.lemma_filter_contains(|wanted: Seq<char>| !existing.contains(wanted), i);
    }
}

/// Whether `name` is among `names`.
pub fn contains_name(names: &Vec<String>, name: &str) -> (found: bool)
    ensures
        found == texts_view(names@).contains(name@),
{
    let mut i: usize = 0;
    while i < names.len()
        invariant
            i <= names.len(),
            forall|k: int| 0 <= k < i ==> texts_view(names@)[k] != name@,
        decreases names.len() - i,
    {
        if same_text(names[i].as_str(), name) {
            assert(texts_view(names@)[i as int] == name@);
            return true;
        }
        i += 1;
    }
    false
}

/// The collections among `required` that are not among `existing`, in the
/// order of `required`: those that have to be created before the store
/// can be used.
pub fn missing_collections(required: &Vec<String>, existing: &Vec<String>) -> (missing: Vec<String>)
    ensures
        texts_view(missing@) == texts_view(required@).filter(
            |name: Seq<char>| !texts_view(existing@).contains(name),
        ),
{
    let mut missing: Vec<String> = Vec::new();
    let ghost all = texts_view(required@);
    let ghost absent = |name: Seq<char>| !texts_view(existing@).contains(name);
    proof {
        reveal_with_fuel(Seq::filter, 1);
    }
    let mut i: usize = 0;
    while i < required.len()
        invariant
            i <= required.len(),
            all == texts_view(required@),
            absent == |name: Seq<char>| !texts_view(existing@).contains(name),
            texts_view(missing@) == all.take(i as int).filter(absent),
        decreases required.len() - i,
    {
        proof {
            reveal_with_fuel(Seq::filter, 2);
            assert(all.take(i as int + 1).drop_last() =~= all.take(i as int));
        }
        if !contains_name(existing, required[i].as_str()) {
            missing.push(required[i].clone());
        }
        i += 1;
    }
    assert(all.take(i as int) =~= all);
    missing
}

/// A value store that keeps its collections in memory. It never fails.
pub struct MemoryUnstructuredDb {
    products: Vec<UnstructuredEntry>,
    categories: Vec<UnstructuredEntry>,
    inventories: Vec<UnstructuredEntry>,
    pricebooks: Vec<UnstructuredEntry>,
}

impl View for MemoryUnstructuredDb {
    type V = UnstructuredDbView;

    closed spec fn view(&self) -> UnstructuredDbView {
        UnstructuredDbView {
            products: entries_view(self.products@),
            categories: entries_view(self.categories@),
            inventories: entries_view(self.inventories@),
            pricebooks: entries_view(self.pricebooks@),
        }
    }
}

/// Copies the entries of `stored` that belong to `extr_ref`.
fn select_entries(stored: &Vec<UnstructuredEntry>, extr_ref: &str) -> (found: Vec<
    UnstructuredEntry,
>)
    ensures
        entries_view(found@) == entries_of(entries_view(stored@), extr_ref@),
{
    let mut found: Vec<UnstructuredEntry> = Vec::new();
    let ghost belongs = |entry: UnstructuredEntryView| entry.extr_ref == extr_ref@;
    proof {
        reveal_with_fuel(Seq::filter, 1);
    }
    let mut i: usize = 0;
    while i < stored.len()
        invariant
            i <= stored.len(),
            belongs == |entry: UnstructuredEntryView| entry.extr_ref == extr_ref@,
            entries_view(found@) == entries_view(stored@).take(i as int).filter(belongs),
        decreases stored.len() - i,
    {
        proof {
            reveal_with_fuel(Seq::filter, 2);
            assert(entries_view(stored@).take(i as int + 1).drop_last() =~= entries_view(
                stored@,
            ).take(i as int));
        }
        if same_text(stored[i].extr_ref.as_str(), extr_ref) {
            found.push(stored[i].clone());
        }
        i += 1;
    }
    assert(entries_view(stored@).take(i as int) =~= entries_view(stored@));
    found
}

impl MemoryUnstructuredDb {
    pub fn new() -> (store: Self)
        ensures
            store@ == UnstructuredDbView::empty(),
    {
        let store = MemoryUnstructuredDb {
            products: Vec::new(),
            categories: Vec::new(),
            inventories: Vec::new(),
            pricebooks: Vec::new(),
        };
        assert(store@.products =~= Seq::empty());
        assert(store@.categories =~= Seq::empty());
        assert(store@.inventories =~= Seq::empty());
        assert(store@.pricebooks =~= Seq::empty());
        store
    }

    /// Writes `entry` to the collection of `object` as one batch.
    pub fn put_custom_fields(
        &mut self,
        object: FieldExtensionObject,
        entry: Vec<UnstructuredEntry>,
    ) -> (written: UnstructuredDbResult)
        ensures
            written is Ok,
            final(self)@ == old(self)@.with_batch(object, entries_view(entry@)),
    {
        let mut batch = entry;
        let ghost added = entries_view(batch@);
        match object {
            FieldExtensionObject::PRODUCT => {
                self.products.append(&mut batch);
                assert(entries_view(self.products@) =~= old(self)@.products + added);
            },
            FieldExtensionObject::CATEGORY => {
                self.categories.append(&mut batch);
                assert(entries_view(self.categories@) =~= old(self)@.categories + added);
            },
            FieldExtensionObject::INVENTORY => {
                self.inventories.append(&mut batch);
                assert(entries_view(self.inventories@) =~= old(self)@.inventories + added);
            },
            FieldExtensionObject::PRICEBOOK => {
                self.pricebooks.append(&mut batch);
                assert(entries_view(self.pricebooks@) =~= old(self)@.pricebooks + added);
            },
        }
        Ok(())
    }

    /// The entries that the collection of `object` holds for the entity
    /// `extr_ref`, in the order in which they were written.
    pub fn get_custom_fields(&self, object: FieldExtensionObject, extr_ref: &str) -> (found:
        UnstructuredDbObjectResult)
        ensures
            found matches Ok(entries) && entries_view(entries@) == self@.values_of(
                object,
                extr_ref@,
            ),
    {
        match object {
            FieldExtensionObject::PRODUCT => Ok(select_entries(&self.products, extr_ref)),
            FieldExtensionObject::CATEGORY => Ok(select_entries(&self.categories, extr_ref)),
            FieldExtensionObject::INVENTORY => Ok(select_entries(&self.inventories, extr_ref)),
            FieldExtensionObject::PRICEBOOK => Ok(select_entries(&self.pricebooks, extr_ref)),
        }
    }
}

} // verus!
