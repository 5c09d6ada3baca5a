use vstd::prelude::*;

verus! {

/// A decimal number in the parts in which it is held: a magnitude of 96
/// bits in three words, a sign, and the power of ten by which the
/// magnitude is divided.
#[derive(Clone, Copy, Debug, PartialEq, Eq, Structural)]
pub struct DecimalParts {
    pub lo: u32,
    pub mid: u32,
    pub hi: u32,
    pub negative: bool,
    pub scale: u32,
}

/// A price list.
#[derive(Debug)]
pub struct Pricebook {
    pub id: u128,
    pub pricebook_name: String,
    pub pricebook_reference: String,
    pub pricebook_currency_code: String,
}

/// The price of a product in a price list.
#[derive(Clone, Copy, Debug, PartialEq, Eq, Structural)]
pub struct PricebookRecord {
    pub id: u128,
    pub pricebook_id: u128,
    pub product_id: u128,
    pub price: DecimalParts,
}

} // verus!
