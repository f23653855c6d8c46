//! A small users service: payload validation, sanitization, merge logic and
//! error mapping for a CRUD API over a single `users` table, together with a
//! verified in-memory model of that table.

pub mod email;
pub mod handlers;
pub mod laws;
pub mod models;
pub mod store;
pub mod validate;
