//! The database layer: the statements the server runs and what it makes of
//! their results.
pub mod queries;
pub mod rows;
pub mod outcomes;
