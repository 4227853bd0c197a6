pub mod manager;
pub mod types;
