//! A small CRUD service core: an in-memory store of todo records, the
//! request handlers for todos, posts and users written as functions from
//! plain values to replies, input validation and password hashing.
//!
//! Everything that touches a socket or a database lives with the caller.
//! The functions here decide what is stored, what is asked of the database
//! and what is answered, and state that in their contracts.

pub mod clock;
pub mod crypto;
pub mod ident;
pub mod models;
pub mod post;
pub mod posts;
pub mod reply;
pub mod state;
pub mod store;
pub mod todos;
pub mod user;
pub mod validation;
