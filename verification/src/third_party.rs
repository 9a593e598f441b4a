//! Declarations of the error types of the crates this server builds on, so
//! that they can be carried through verified code, and the calls that turn
//! them into text.
use vstd::prelude::*;

verus! {

/// `sqlx::Error`, the error of every database operation.
#[verifier::external_type_specification]
#[verifier::external_body]
pub struct ExSqlxError(sqlx::Error);

/// `rand::rngs::SysError` (re-exported from `getrandom`), the error of the
/// operating system's random number source.
#[verifier::external_type_specification]
#[verifier::external_body]
pub struct ExSysError(rand::rngs::SysError);

/// `rmp_serde::decode::Error`, the error of decoding MessagePack.
#[verifier::external_type_specification]
#[verifier::external_body]
pub struct ExDecodeError(rmp_serde::decode::Error);

/// The `Display` text of an `sqlx::Error` (its `fmt::Display` impl, written by
/// `thiserror`). Nothing is promised of the text.
#[verifier::external_body]
pub(crate) fn sqlx_error_text(error: &sqlx::Error) -> (text: String) {
    format!("{}", error)
}

/// The `Display` text of a `rand::rngs::SysError` (`getrandom::Error`'s
/// `fmt::Display` impl). Nothing is promised of the text.
#[verifier::external_body]
pub(crate) fn sys_error_text(error: &rand::rngs::SysError) -> (text: String) {
    format!("{}", error)
}

/// The `Display` text of an `rmp_serde::decode::Error` (its `fmt::Display`
/// impl). Nothing is promised of the text.
#[verifier::external_body]
pub(crate) fn decode_error_text(error: &rmp_serde::decode::Error) -> (text: String) {
    format!("{}", error)
}

} // verus!
