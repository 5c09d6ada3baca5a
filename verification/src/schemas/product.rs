use vstd::prelude::*;
use vstd::string::*;
use crate::schemas::base_extensions::ObjectCustomFields;

verus! {

/// A request to add an image to a product.
#[derive(Debug)]
pub struct CreateProductImage {
    pub src: String,
    pub srcset: Option<String>,
    pub alt: Option<String>,
}

impl CreateProductImage {
    /// Why the request is refused: it has no source. `None` for a valid
    /// one.
    pub open spec fn rejection(&self) -> Option<Seq<char>> {
        if self.src@.len() == 0 {
            Some("The 'src' field is mandatory"@)
        } else {
            None
        }
    }

    pub fn validate(&self) -> (checked: Result<(), String>)
        ensures
            match self.rejection() {
                Some(reason) => checked matches Err(message) && message@ == reason,
                None => checked is Ok,
            },
    {
        if self.src.as_str().is_empty() {
            return Err(String::from_str("The 'src' field is mandatory"));
        }
        Ok(())
    }
}

/// A request to create a product.
#[derive(Debug)]
pub struct CreateProduct {
    pub product_name: String,
    pub product_description: String,
    pub product_color: Option<String>,
    pub category_assignments: Option<Vec<u128>>,
    pub custom_fields: ObjectCustomFields,
}

impl CreateProduct {
    /// Why the request is refused: its name is empty, or else its
    /// description is. `None` for a valid one.
    pub open spec fn rejection(&self) -> Option<Seq<char>> {
        if self.product_name@.len() == 0 {
            Some("'product_name' is mandatory field"@)
        } else if self.product_description@.len() == 0 {
            Some("'product_description' is mandatory field"@)
        } else {
            None
        }
    }

    pub fn validate(&self) -> (checked: Result<(), String>)
        ensures
            match self.rejection() {
                Some(reason) => checked matches Err(message) && message@ == reason,
                None => checked is Ok,
            },
    {
        if self.product_name.as_str().is_empty() {
            return Err(String::from_str("'product_name' is mandatory field"));
        }
        if self.product_description.as_str().is_empty() {
            return Err(String::from_str("'product_description' is mandatory field"));
        }
        Ok(())
    }
}

} // verus!
