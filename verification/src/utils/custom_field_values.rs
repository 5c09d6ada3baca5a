use vstd::prelude::*;
use crate::services::unstructureddb::entry::{
    entries_view, ScalarView, UnstructuredEntry, UnstructuredEntryType, UnstructuredEntryView,
};
use crate::services::unstructureddb::UnstructuredDbObjectResult;
use crate::text::same_text;

verus! {

/// The map from names to values that a list of pairs folds into: a later
/// pair overwrites an earlier one of the same name.
pub open spec fn values_map(pairs: Seq<(Seq<char>, ScalarView)>) -> Map<Seq<char>, ScalarView>
    decreases pairs.len(),
{
    if pairs.len() == 0 {
        Map::empty()
    } else {
        values_map(pairs.drop_last()).insert(pairs.last().0, pairs.last().1)
    }
}

/// The name and value of each entry of a list.
pub open spec fn entry_pairs(entries: Seq<UnstructuredEntryView>) -> Seq<(Seq<char>, ScalarView)> {
    entries.map_values(|entry: UnstructuredEntryView| (entry.field_name, entry.value))
}

/// No two pairs have the same name.
pub open spec fn distinct_names(pairs: Seq<(Seq<char>, ScalarView)>) -> bool {
    forall|i: int, j: int|
        0 <= i < j < pairs.len() ==> (#[trigger] pairs[i]).0 != (#[trigger] pairs[j]).0
}

/// The names and values of a list of stored pairs.
pub open spec fn pairs_view(pairs: Seq<(String, UnstructuredEntryType)>) -> Seq<
    (Seq<char>, ScalarView),
> {
    pairs.map_values(|pair: (String, UnstructuredEntryType)| (pair.0@, pair.1@))
}

/// The map of a list of pairs holds exactly the names of the pairs.
pub proof fn lemma_values_map_names(pairs: Seq<(Seq<char>, ScalarView)>, name: Seq<char>)
    ensures
        values_map(pairs).contains_key(name) <==> exists|i: int|
            0 <= i < pairs.len() && (#[trigger] pairs[i]).0 == name,
    decreases pairs.len(),
{
    if pairs.len() > 0 {
        let front = pairs.drop_last();
        lemma_values_map_names(front, name);
        if values_map(front).contains_key(name) {
            let i = choose|i: int| 0 <= i < front.len() && (#[trigger] front[i]).0 == name;
            assert(pairs[i].0 == name);
        }
        if exists|i: int| 0 <= i < pairs.len() && (#[trigger] pairs[i]).0 == name {
            let i = choose|i: int| 0 <= i < pairs.len() && (#[trigger] pairs[i]).0 == name;
            if i < front.len() {
                assert(front[i].0 == name);
            }
        }
    }
}

/// Where no name occurs twice among pairs, none does among all but the
/// last of them.
proof fn lemma_distinct_front(pairs: Seq<(Seq<char>, ScalarView)>)
    requires
        distinct_names(pairs),
        pairs.len() > 0,
    ensures
        distinct_names(pairs.drop_last()),
{
    let front = pairs.drop_last();
    assert forall|a: int, b: int| 0 <= a < b < front.len() implies (#[trigger] front[a]).0 != (
    #[trigger] front[b]).0 by {
        assert(front[a] == pairs[a] && front[b] == pairs[b]);
    }
}

/// Where no name occurs twice, the map gives each name the value of its
/// pair.
pub proof fn lemma_values_map_value(pairs: Seq<(Seq<char>, ScalarView)>, i: int)
    requires
        distinct_names(pairs),
        0 <= i < pairs.len(),
    ensures
        values_map(pairs).contains_key(pairs[i].0),
        values_map(pairs)[pairs[i].0] == pairs[i].1,
    decreases pairs.len(),
{
    let front = pairs.drop_last();
    if i < front.len() {
        lemma_distinct_front(pairs);
        lemma_values_map_value(front, i);
    }
}

/// Where no name occurs twice, to give the pair at `i` a new value is to
/// insert the value under the name of that pair.
pub proof fn lemma_values_map_update(
    pairs: Seq<(Seq<char>, ScalarView)>,
    i: int,
    value: ScalarView,
)
    requires
        distinct_names(pairs),
        0 <= i < pairs.len(),
    ensures
        values_map(pairs.update(i, (pairs[i].0, value))) == values_map(pairs).insert(
            pairs[i].0,
            value,
        ),
        distinct_names(pairs.update(i, (pairs[i].0, value))),
    decreases pairs.len(),
{
    let name = pairs[i].0;
    let updated = pairs.update(i, (name, value));
    let front = pairs.drop_last();
    assert forall|a: int, b: int| 0 <= a < b < updated.len() implies (#[trigger] updated[a]).0
        != (#[trigger] updated[b]).0 by {
        assert(updated[a].0 == pairs[a].0 && updated[b].0 == pairs[b].0);
    }
    if i == pairs.len() - 1 {
        assert(updated.drop_last() =~= front);
    } else {
        lemma_distinct_front(pairs);
        lemma_values_map_update(front, i, value);
        assert(updated.drop_last() =~= front.update(i, (name, value)));
    }
}

/// The custom field values of one entity by name. A name has one value.
pub struct CustomFieldValues {
    pairs: Vec<(String, UnstructuredEntryType)>,
}

impl View for CustomFieldValues {
    type V = Map<Seq<char>, ScalarView>;

    closed spec fn view(&self) -> Map<Seq<char>, ScalarView> {
        values_map(pairs_view(self.pairs@))
    }
}

impl CustomFieldValues {
    /// No name is held twice.
    pub closed spec fn wf(&self) -> bool {
        distinct_names(pairs_view(self.pairs@))
    }

    pub fn new() -> (values: Self)
        ensures
            values.wf(),
            values@ == Map::<Seq<char>, ScalarView>::empty(),
    {
        let values = CustomFieldValues { pairs: Vec::new() };
        values
    }

    /// The position of the pair named `name`, if there is one.
    fn position(&self, name: &str) -> (found: Option<usize>)
        ensures
            match found {
                Some(i) => i < self.pairs@.len() && self.pairs@[i as int].0@ == name@,
                None => forall|i: int| 0 <= i < self.pairs@.len() ==> (#[trigger] self.pairs@[i]).0@ != name@,
            },
    {
        let mut i: usize = 0;
        while i < self.pairs.len()
            invariant
                i <= self.pairs.len(),
                forall|k: int| 0 <= k < i ==> (#[trigger] self.pairs@[k]).0@ != name@,
            decreases self.pairs.len() - i,
        {
            if same_text(self.pairs[i].0.as_str(), name) {
                return Some(i);
            }
            i += 1;
        }
        None
    }

    /// Gives `name` the value `value`, in place of the value that it had,
    /// if it had one.
    pub fn insert(&mut self, name: String, value: UnstructuredEntryType)
        requires
            old(self).wf(),
        ensures
            final(self).wf(),
            final(self)@ == old(self)@.insert(name@, value@),
    {
        let ghost before = pairs_view(self.pairs@);
        match self.position(name.as_str()) {
            Some(i) => {
                proof {
                    lemma_values_map_update(before, i as int, value@);
                }
                self.pairs.set(i, (name, value));
                assert(pairs_view(self.pairs@) =~= before.update(i as int, (name@, value@)));
            },
            None => {
                self.pairs.push((name, value));
                let ghost after = pairs_view(self.pairs@);
                assert(after.drop_last() =~= before);
                assert forall|a: int, b: int| 0 <= a < b < after.len() implies (#[trigger] after[a]).0
                    != (#[trigger] after[b]).0 by {
                    assert(after[a] == before[a]);
                    if b < before.len() {
                        assert(after[b] == before[b]);
                    }
                }
            },
        }
    }

    /// The value of `name`, if it has one.
    pub fn get(&self, name: &str) -> (value: Option<&UnstructuredEntryType>)
        requires
            self.wf(),
        ensures
            match value {
                Some(held) => self@.contains_key(name@) && self@[name@] == held@,
                None => !self@.contains_key(name@),
            },
    {
        let ghost pairs = pairs_view(self.pairs@);
        proof {
            lemma_values_map_names(pairs, name@);
        }
        match self.position(name) {
            Some(i) => {
                proof {
                    lemma_values_map_value(pairs, i as int);
                }
                Some(&self.pairs[i].1)
            },
            None => {
                assert forall|i: int| 0 <= i < pairs.len() implies (#[trigger] pairs[i]).0
                    != name@ by {
                    assert(self.pairs@[i].0@ != name@);
                }
                None
            },
        }
    }

    /// The names with their values. No name occurs twice.
    pub fn into_pairs(self) -> (pairs: Vec<(String, UnstructuredEntryType)>)
        requires
            self.wf(),
        ensures
            distinct_names(pairs_view(pairs@)),
            values_map(pairs_view(pairs@)) == self@,
    {
        self.pairs
    }
}

/// Folds the entries of an entity into its values by name. Where a name
/// has several entries, the last one counts.
pub fn fold_custom_fields(entries: Vec<UnstructuredEntry>) -> (values: CustomFieldValues)
    ensures
        values.wf(),
        values@ == values_map(entry_pairs(entries_view(entries@))),
{
    let mut values = CustomFieldValues::new();
    let ghost all = entry_pairs(entries_view(entries@));
    let mut i: usize = 0;
    while i < entries.len()
        invariant
            i <= entries.len(),
            values.wf(),
            all == entry_pairs(entries_view(entries@)),
            values@ == values_map(all.take(i as int)),
        decreases entries.len() - i,
    {
        proof {
            let prefix = all.take(i as int + 1);
            assert(prefix.drop_last() =~= all.take(i as int));
        }
        values.insert(entries[i].field_name.clone(), entries[i].value.clone());
        i += 1;
    }
    assert(all.take(i as int) =~= all);
    values
}

/// The values by name of an entity, given what the value store answered:
/// a failure of the store counts as an entity without custom fields.
pub fn custom_fields_or_empty(fetched: UnstructuredDbObjectResult) -> (values: CustomFieldValues)
    ensures
        values.wf(),
        values@ == match fetched {
            Ok(entries) => values_map(entry_pairs(entries_view(entries@))),
            Err(_) => Map::<Seq<char>, ScalarView>::empty(),
        },
{
    match fetched {
        Ok(entries) => fold_custom_fields(entries),
        Err(_) => CustomFieldValues::new(),
    }
}

} // verus!
