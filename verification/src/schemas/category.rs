use vstd::prelude::*;
use vstd::string::*;
use crate::models::identifier::write_identifier;
use crate::schemas::base_extensions::ObjectCustomFields;

verus! {

/// A request to create a category.
#[derive(Debug)]
pub struct CreateCategory {
    pub category_name: String,
    pub category_description: Option<String>,
    pub category_reference: String,
    pub custom_fields: ObjectCustomFields,
}

impl CreateCategory {
    /// Why the request is refused: the first of its required texts that
    /// is empty, the reference before the name. `None` for a valid one.
    pub open spec fn rejection(&self) -> Option<Seq<char>> {
        if self.category_reference@.len() == 0 {
            Some("\"category_reference\" is a required field"@)
        } else if self.category_name@.len() == 0 {
            Some("\"category_name\" is a required field"@)
        } else {
            None
        }
    }

    pub fn validate(&self) -> (checked: Result<(), String>)
        ensures
            match self.rejection() {
                Some(reason) => checked matches Err(message) && message@ == reason,
                None => checked is Ok,
            },
    {
        if self.category_reference.as_str().is_empty() {
            return Err(String::from_str("\"category_reference\" is a required field"));
        }
        if self.category_name.as_str().is_empty() {
            return Err(String::from_str("\"category_name\" is a required field"));
        }
        Ok(())
    }
}

/// A request to put products into a category.
#[derive(Debug)]
pub struct AssignProductToCategory {
    pub product_ids: Vec<u128>,
    pub category_id: u128,
}

impl AssignProductToCategory {
    /// Why the request is refused: it names no product. The text of an
    /// identifier is never empty, so the category is never missing.
    pub open spec fn rejection(&self) -> Option<Seq<char>> {
        if self.product_ids@.len() == 0 {
            Some("\"product_ids\" should contain at least one product id"@)
        } else {
            None
        }
    }

    pub fn validate(&self) -> (checked: Result<(), String>)
        ensures
            match self.rejection() {
                Some(reason) => checked matches Err(message) && message@ == reason,
                None => checked is Ok,
            },
    {
        if self.product_ids.len() == 0 {
            return Err(String::from_str("\"product_ids\" should contain at least one product id"));
        }
        if write_identifier(self.category_id).as_str().is_empty() {
            return Err(String::from_str("\"category_id\" is a required field"));
        }
        Ok(())
    }
}

} // verus!
