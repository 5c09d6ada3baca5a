use vstd::prelude::*;

verus! {

/// How much of a product an inventory holds.
#[derive(Clone, Copy, Debug, PartialEq, Eq, Structural)]
pub struct ProductInventoryRecord {
    pub product_id: u128,
    pub allocation: i32,
}

/// An inventory with the records of its products.
#[derive(Debug)]
pub struct Inventory {
    pub id: u128,
    pub inventory_name: String,
    pub inventory_reference: String,
    pub products: Vec<ProductInventoryRecord>,
}

} // verus!
