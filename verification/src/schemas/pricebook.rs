use vstd::prelude::*;
use vstd::string::*;
use crate::models::pricebook::DecimalParts;
use crate::schemas::base_extensions::ObjectCustomFields;

verus! {

/// A request to create a price list.
#[derive(Debug)]
pub struct CreatePricebook {
    pub pricebook_name: String,
    pub pricebook_reference: String,
    pub pricebook_currency_code: String,
    pub custom_fields: ObjectCustomFields,
}

impl CreatePricebook {
    /// Why the request is refused: the first of its required texts that
    /// is empty, in the order name, reference, currency code. `None` for
    /// a valid one.
    pub open spec fn rejection(&self) -> Option<Seq<char>> {
        if self.pricebook_name@.len() == 0 {
            Some("'pricebook_name' is a mandatory field."@)
        } else if self.pricebook_reference@.len() == 0 {
            Some("'pricebook_reference' is a mandatory field."@)
        } else if self.pricebook_currency_code@.len() == 0 {
            Some("'pricebook_currency_code' is a mandatory field."@)
        } else {
            None
        }
    }

    pub fn validate(&self) -> (checked: Result<(), String>)
        ensures
            match self.rejection() {
                Some(reason) => checked matches Err(message) && message@ == reason,
                None => checked is Ok,
            },
    {
        if self.pricebook_name.as_str().is_empty() {
            return Err(String::from_str("'pricebook_name' is a mandatory field."));
        }
        if self.pricebook_reference.as_str().is_empty() {
            return Err(String::from_str("'pricebook_reference' is a mandatory field."));
        }
        if self.pricebook_currency_code.as_str().is_empty() {
            return Err(String::from_str("'pricebook_currency_code' is a mandatory field."));
        }
        Ok(())
    }
}

/// A request to price a product in a price list.
#[derive(Debug)]
pub struct CreatePricebookRecord {
    pub pricebook_id: String,
    pub product_id: String,
    pub price: DecimalParts,
}

impl CreatePricebookRecord {
    /// Why the request is refused: the price list is not named, or else
    /// the product is not, or else the price bears a negative sign.
    /// `None` for a valid one.
    pub open spec fn rejection(&self) -> Option<Seq<char>> {
        if self.pricebook_id@.len() == 0 {
            Some("'pricebook_id' is a mandatory field"@)
        } else if self.product_id@.len() == 0 {
            Some("'product_id' is a mandatory field"@)
        } else if self.price.negative {
            Some("'price' should not be negative"@)
        } else {
            None
        }
    }

    pub fn validate(&self) -> (checked: Result<(), String>)
        ensures
            match self.rejection() {
                Some(reason) => checked matches Err(message) && message@ == reason,
                None => checked is Ok,
            },
    {
        if self.pricebook_id.as_str().is_empty() {
            return Err(String::from_str("'pricebook_id' is a mandatory field"));
        }
        if self.product_id.as_str().is_empty() {
            return Err(String::from_str("'product_id' is a mandatory field"));
        }
        if self.price.negative {
            return Err(String::from_str("'price' should not be negative"));
        }
        Ok(())
    }
}

} // verus!
