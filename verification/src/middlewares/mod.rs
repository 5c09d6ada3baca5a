pub mod authentication;
