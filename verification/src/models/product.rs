use vstd::prelude::*;

verus! {

/// An image of a product.
#[derive(Debug)]
pub struct ProductImage {
    pub id: u128,
    pub src: String,
    pub srcset: Option<String>,
    pub alt: Option<String>,
    pub product_id: u128,
}

/// A product of the catalog.
#[derive(Debug)]
pub struct Product {
    pub id: u128,
    pub product_name: String,
    pub product_description: String,
    pub product_color: Option<String>,
}

} // verus!
