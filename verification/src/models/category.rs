use vstd::prelude::*;

verus! {

/// A category of the catalog.
#[derive(Debug)]
pub struct Category {
    pub id: u128,
    pub category_name: String,
    pub category_description: Option<String>,
    pub category_reference: String,
}

} // verus!
