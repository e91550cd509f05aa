//! A todo-item service core: the item model, request validation, the
//! statements the repository sends to the store, the interpretation of the
//! store's replies, and the mapping of errors to HTTP responses.

pub mod config;
pub mod error;
pub mod handlers;
pub mod model;
pub mod repo;
