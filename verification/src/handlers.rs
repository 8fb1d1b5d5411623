//! The requests of each resource.

pub mod customers;
pub mod orders;
pub mod products;
