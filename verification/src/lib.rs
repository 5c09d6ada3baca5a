pub mod middlewares;
pub mod migration_generator;
pub mod models;
pub mod route_utils;
pub mod routes;
pub mod schemas;
pub mod services;
pub mod text;
pub mod utils;
