use vstd::prelude::*;

verus! {

/// A scalar value as mathematics sees it: a text or an integer.
pub enum ScalarView {
    Text(Seq<char>),
    Int(i64),
}

/// One stored value of a custom field, as plain mathematical values.
pub struct UnstructuredEntryView {
    pub extr_ref: Seq<char>,
    pub field_name: Seq<char>,
    pub value: ScalarView,
}

/// The value of a custom field as the value store holds it.
#[derive(Debug)]
pub enum UnstructuredEntryType {
    STRING(String),
    INT(i64),
}

impl View for UnstructuredEntryType {
    type V = ScalarView;

    open spec fn view(&self) -> ScalarView {
        match self {
            UnstructuredEntryType::STRING(text) => ScalarView::Text(text@),
            UnstructuredEntryType::INT(number) => ScalarView::Int(*number),
        }
    }
}

impl Clone for UnstructuredEntryType {
    fn clone(&self) -> (copy: Self)
        ensures
            copy@ == self@,
    {
        match self {
            UnstructuredEntryType::STRING(text) => UnstructuredEntryType::STRING(text.clone()),
            UnstructuredEntryType::INT(number) => UnstructuredEntryType::INT(*number),
        }
    }
}

/// One stored value: the entity it belongs to, the field and the value.
#[derive(Debug)]
pub struct UnstructuredEntry {
    pub extr_ref: String,
    pub field_name: String,
    pub value: UnstructuredEntryType,
}

impl View for UnstructuredEntry {
    type V = UnstructuredEntryView;

    open spec fn view(&self) -> UnstructuredEntryView {
        UnstructuredEntryView {
            extr_ref: self.extr_ref@,
            field_name: self.field_name@,
            value: self.value@,
        }
    }
}

impl Clone for UnstructuredEntry {
    fn clone(&self) -> (copy: Self)
        ensures
            copy@ == self@,
    {
        UnstructuredEntry {
            extr_ref: self.extr_ref.clone(),
            field_name: self.field_name.clone(),
            value: self.value.clone(),
        }
    }
}

/// The entries of a list, as plain mathematical values.
pub open spec fn entries_view(entries: Seq<UnstructuredEntry>) -> Seq<UnstructuredEntryView> {
    entries.map_values(|entry: UnstructuredEntry| entry@)
}

} // verus!
