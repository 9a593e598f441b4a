use preaching_partner_server::datatypes::{AddressError, DbError};
use preaching_partner_server::text::decimal;

fn sql_error(column: &str) -> sqlx::Error {
    sqlx::Error::ColumnNotFound(column.to_string())
}

#[test]
fn decimal_writes_numbers() {
    assert_eq!(decimal(0), "0");
    assert_eq!(decimal(7), "7");
    assert_eq!(decimal(42), "42");
    assert_eq!(decimal(1000), "1000");
    assert_eq!(decimal(u32::MAX), "4294967295");
}

#[test]
fn db_error_descriptions_with_detail() {
    assert_eq!(
        DbError::InvalidLocation(sql_error("a")).describe_with("bad path"),
        "db not found: bad path"
    );
    assert_eq!(
        DbError::InvalidToken(3).describe_with("ignored"),
        "token returned an invalid number of users: 3"
    );
    assert_eq!(
        DbError::InvalidRow(sql_error("a")).describe_with("x"),
        "an invalid row was passed to a parsing function: x"
    );
    assert_eq!(
        DbError::ConnectionFailure(sql_error("a")).describe_with("x"),
        "connection to db failed: x"
    );
    assert_eq!(
        DbError::QueryFailure(sql_error("a")).describe_with("x"),
        "a query failed to run: x"
    );
    assert_eq!(
        DbError::TokenRngFailure(rand::rngs::SysError::UNEXPECTED).describe_with("x"),
        "a token failed to generate: x"
    );
    assert_eq!(
        DbError::AddressFailure(AddressError::SqlxError(sql_error("a"))).describe_with("x"),
        "something went wrong with the addresses: something went wrong with sqlx: x"
    );
    assert_eq!(
        DbError::AddressFailure(AddressError::DeserialiseError(
            rmp_serde::decode::Error::OutOfRange
        ))
        .describe_with("x"),
        "something went wrong with the addresses: something went wrong deserialising the tags: x"
    );
    assert_eq!(
        DbError::UnknownError(sql_error("a")).describe_with("x"),
        "an unknown error occured: x"
    );
    assert_eq!(DbError::Error.describe_with("x"), "a dberror::error error occured");
}

#[test]
fn db_error_descriptions_carry_the_inner_error() {
    let inner = sql_error("name");
    let expected = format!("a query failed to run: {}", inner);
    assert_eq!(DbError::QueryFailure(inner).describe(), expected);
    assert_eq!(
        DbError::InvalidToken(0).describe(),
        "token returned an invalid number of users: 0"
    );
    let decode = rmp_serde::decode::Error::OutOfRange;
    let expected = format!("something went wrong deserialising the tags: {}", decode);
    assert_eq!(AddressError::DeserialiseError(decode).describe(), expected);
}

#[test]
fn address_errors_convert_from_their_causes() {
    let from_sql: AddressError = sql_error("tags").into();
    assert!(matches!(from_sql, AddressError::SqlxError(sqlx::Error::ColumnNotFound(c)) if c == "tags"));
    let from_decode: AddressError = rmp_serde::decode::Error::OutOfRange.into();
    assert!(matches!(
        from_decode,
        AddressError::DeserialiseError(rmp_serde::decode::Error::OutOfRange)
    ));
}
