pub mod base_extensions;
pub mod category;
pub mod entity;
pub mod inventory;
pub mod logs;
pub mod portal;
pub mod portal_user;
pub mod pricebook;
pub mod product;
pub mod shopper_context;
