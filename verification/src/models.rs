//! The three entities and the payloads that create or replace them.

pub mod customer;
pub mod order;
pub mod product;
