pub mod db;
pub mod logger;
pub mod role_validation;
pub mod unstructureddb;
