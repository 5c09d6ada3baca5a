use vstd::prelude::*;
use vstd::string::*;
use crate::models::identifier::write_identifier;
use crate::schemas::base_extensions::ObjectCustomFields;

verus! {

/// A request to create an inventory.
#[derive(Debug)]
pub struct CreateInventory {
    pub inventory_reference: String,
    pub inventory_name: String,
    pub custom_fields: ObjectCustomFields,
}

impl CreateInventory {
    /// Why the request is refused: the first of its required texts that
    /// is empty, the name before the reference. `None` for a valid one.
    pub open spec fn rejection(&self) -> Option<Seq<char>> {
        if self.inventory_name@.len() == 0 {
            Some("'inventory_name' is mandatory field"@)
        } else if self.inventory_reference@.len() == 0 {
            Some("'inventory_reference' is mandatory field"@)
        } else {
            None
        }
    }

    pub fn validate(&self) -> (checked: Result<(), String>)
        ensures
            match self.rejection() {
                Some(reason) => checked matches Err(message) && message@ == reason,
                None => checked is Ok,
            },
    {
        if self.inventory_name.as_str().is_empty() {
            return Err(String::from_str("'inventory_name' is mandatory field"));
        }
        if self.inventory_reference.as_str().is_empty() {
            return Err(String::from_str("'inventory_reference' is mandatory field"));
        }
        Ok(())
    }
}

/// A request to record how much of a product an inventory holds.
#[derive(Clone, Copy, Debug, PartialEq, Eq, Structural)]
pub struct CreateInventoryRecord {
    pub product_id: u128,
    pub inventory_id: u128,
    pub allocation: i32,
}

impl CreateInventoryRecord {
    /// Why the request is refused: its allocation is negative. The text
    /// of an identifier is never empty, so neither identifier is ever
    /// missing.
    pub open spec fn rejection(&self) -> Option<Seq<char>> {
        if self.allocation < 0 {
            Some("'allocation' should not be negative"@)
        } else {
            None
        }
    }

    pub fn validate(&self) -> (checked: Result<(), String>)
        ensures
            match self.rejection() {
                Some(reason) => checked matches Err(message) && message@ == reason,
                None => checked is Ok,
            },
    {
        if write_identifier(self.product_id).as_str().is_empty() {
            return Err(String::from_str("'product_id' is mandatory"));
        }
        if write_identifier(self.inventory_id).as_str().is_empty() {
            return Err(String::from_str("'inventory_id' is mandatory"));
        }
        if self.allocation < 0 {
            return Err(String::from_str("'allocation' should not be negative"));
        }
        Ok(())
    }
}

} // verus!
