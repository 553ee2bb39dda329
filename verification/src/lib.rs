//! Persistence core of a local-first chat application.
//!
//! The library models an embedded document-relational store — a lazily
//! initialized singleton connection, idempotent schema enforcement, and
//! repositories for users, conversations, and messages — and verifies the
//! invariants those repositories maintain: unique non-empty usernames,
//! referential integrity from conversations to users and from messages to
//! conversations, creation-time ordering, atomic message appends, and
//! cascading deletes. Surrounding glue (desktop shell, HTTP routing, model
//! inference) lives outside the library.

pub mod errors;
pub mod digest;
pub mod content;
pub mod records;
pub mod schema;
pub mod store;
pub mod db;
pub mod users;
pub mod conversations;
pub mod service;
pub mod laws;

pub mod chat;
pub mod provider;
pub mod tools;
pub mod images;
pub mod routes;
pub mod state;
pub mod cuda;
pub mod numfmt;
pub mod commands;
pub mod paths;
