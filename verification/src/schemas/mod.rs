pub mod base_extensions;
pub mod category;
pub mod inventory;
pub mod logs;
pub mod portal_user;
pub mod pricebook;
pub mod product;

use vstd::prelude::*;
use crate::text::{byte_len, byte_length};

verus! {

/// What a request that can be validated offers.
pub trait ValidationSchema {
    /// Whether `value` is the empty text.
    fn string_empty(&self, value: &str) -> (empty: bool)
        ensures
            empty == (byte_length(value@) == 0),
    {
        if byte_len(value) <= 0 {
            return true;
        }
        false
    }

    /// Accepts the request or says why it is refused.
    fn validate(&self) -> Result<(), String>;
}

} // verus!
