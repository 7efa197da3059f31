pub mod routes;
pub mod types;
