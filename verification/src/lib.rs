//! Hierarchical task management: the rules of the service, with proofs.
//!
//! The service keeps a table of tasks, each of one user and each with at most
//! one parent.  Everything that waits for the database or the message bus is
//! written here as a state that says what to ask for next and a `resume` that
//! takes the reply; whoever drives the library performs the request.

pub mod config;
pub mod domain;
pub mod exchanges;
pub mod handlers;
pub mod headers;
pub mod identifier;
pub mod infrastructure;
pub mod json;
pub mod laws;
pub mod outcomes;
pub mod repository;
pub mod service;
pub mod statements;
pub mod table;
pub mod text;
pub mod tree;
pub mod validation;
