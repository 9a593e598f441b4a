//! Verified core of the Preaching Partner server: the messages exchanged with
//! the app, the database statements and what is made of their results, the
//! login exchange, the decisions of a client connection, and synchronisation.
pub mod account;
pub mod auth;
pub mod authorise;
pub mod connection;
pub mod database;
pub mod datatypes;
pub mod services;
pub mod sync;
pub mod text;
pub mod third_party;
pub mod tokens;
