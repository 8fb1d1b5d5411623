//! Request validation, referential-integrity checks and error classification
//! for a CRUD service over customers, products and orders.
//!
//! The library never talks to the store itself. Each request is a small
//! state machine: it names the statement to run next, takes the store's
//! answer, and either names another statement or ends with a response.
//! The program around it runs the statements and sends the responses.
//!
//! - `models`: the entities, their payloads and the rules of each payload.
//! - `validation`: failures by field, gathered in a `validator::ValidationErrors`.
//! - `store`: statements with their text and values, and the answers to them.
//! - `flow`: the state machine.
//! - `handlers`: the requests of each resource.
//! - `utils`: error kinds, headers and shared checks.
//! - `guarantees`: theorems on requests that run against a store.

pub mod date;
pub mod flow;
pub mod guarantees;
pub mod handlers;
pub mod models;
pub mod price;
pub mod store;
pub mod text;
pub mod utils;
pub mod validation;
