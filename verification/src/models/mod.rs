pub mod base_extensions;
pub mod category;
pub mod error;
pub mod identifier;
pub mod inventory;
pub mod portal_user;
pub mod pricebook;
pub mod product;
