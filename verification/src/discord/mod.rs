pub mod adapter;
pub mod errors;
pub mod models;
