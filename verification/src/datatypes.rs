//! The messages exchanged with the app, the records kept in the database, and
//! the errors of the database layer.
use vstd::prelude::*;
use vstd::string::*;

use crate::text::{decimal, spec_decimal};
use crate::third_party::{decode_error_text, sqlx_error_text, sys_error_text};

verus! {

/// A message sent by a client.
#[derive(Debug, PartialEq, Eq)]
pub struct ClientMessage {
    pub id: u32,
    pub access_token: Option<[u8; 32]>,
    pub payload: ClientPayload,
}

/// What a client asks for.
#[derive(Debug, PartialEq, Eq)]
pub enum ClientPayload {
    Login { name: String, password: String },
    RequestAccessToken([u8; 32]),
    RequestSync(u32),
    CompleteAddress { id: u32, checked: bool },
}

/// A message sent by the server.
#[derive(Debug, PartialEq, Eq)]
pub struct ServerMessage {
    pub id: u32,
    pub timestamp: u32,
    pub payload: ServerPayload,
}

/// What the server tells a client.
#[derive(Debug, PartialEq, Eq)]
pub enum ServerPayload {
    ConfirmLogin {
        success: bool,
        refresh_token: Option<[u8; 32]>,
        access_token: Option<[u8; 32]>,
    },
    SyncInformation(SyncInformation),
    NewAccessToken([u8; 32]),
    AddressCompleted { id: u32, checked: bool },
    UnknownError,
}

/// An event that every connected client hears about.
#[derive(Debug, Clone, Copy, PartialEq, Eq)]
pub enum ServerEvent {
    AddressCompleted { id: u32, checked: bool },
}

/// An action a client may ask permission for.
#[derive(Debug, Clone, Copy, PartialEq, Eq)]
pub enum ClientAction {
    RequestSync,
    CompleteAddress,
}

/// A territory map, with its image when the image file could be read.
#[derive(Debug, PartialEq, Eq)]
pub struct MapDetails {
    pub id: u32,
    pub name: String,
    pub image_name: String,
    pub assignee: u32,
    pub assigner: u32,
    pub image: Option<Vec<u8>>,
    pub category: u32,
    pub deleted: bool,
}

/// A tag on an address.
#[derive(Debug, PartialEq, Eq)]
pub enum AddressTags {
    DoNotCall,
    NoJunkMail,
    Custom(String),
}

/// An address on a street.
#[derive(Debug, PartialEq, Eq)]
pub struct AddressDetails {
    pub id: u32,
    pub street_id: u32,
    pub number: String,
    pub tags: Vec<AddressTags>,
    pub visited: bool,
    pub deleted: bool,
}

/// A street of a map.
#[derive(Debug, PartialEq, Eq)]
pub struct StreetDetails {
    pub id: u32,
    pub map_id: u32,
    pub name: String,
    pub deleted: bool,
}

/// A congregation a user belongs to.
#[derive(Debug, PartialEq, Eq)]
pub struct CongDetails {
    pub cong_id: u32,
    pub cong_name: String,
    pub remove: bool,
    pub updated: u32,
}

/// A category of maps.
#[derive(Debug, PartialEq, Eq)]
pub struct CategoryDetails {
    pub id: u32,
    pub name: String,
    pub prefix: String,
    pub congregation: u32,
    pub updated: u32,
    pub remove: bool,
}

/// A service group a user belongs to.
#[derive(Debug, PartialEq, Eq)]
pub struct GroupDetails {
    pub id: u32,
    pub name: String,
    pub cong: u32,
    pub elder: u32,
    pub updated: u32,
    pub group_deleted: bool,
    pub pair_deleted: bool,
}

/// What other users see of a user.
#[derive(Debug, PartialEq, Eq)]
pub struct UserPublicDetails {
    pub id: u32,
    pub name: String,
    pub deleted: bool,
}

/// Everything a client receives when it synchronises.
#[derive(Debug, PartialEq, Eq)]
pub struct SyncInformation {
    pub congregations: Vec<CongDetails>,
    pub categories: Vec<CategoryDetails>,
    pub service_groups: Vec<GroupDetails>,
    pub users: Vec<UserPublicDetails>,
    pub maps: Vec<MapDetails>,
    pub streets: Vec<StreetDetails>,
    pub addresses: Vec<AddressDetails>,
}

/// The record types below are read as they are, except for the user record,
/// whose name is read by its text.
impl View for CongDetails {
    type V = CongDetails;

    open spec fn view(&self) -> CongDetails {
        *self
    }
}

impl View for CategoryDetails {
    type V = CategoryDetails;

    open spec fn view(&self) -> CategoryDetails {
        *self
    }
}

impl View for GroupDetails {
    type V = GroupDetails;

    open spec fn view(&self) -> GroupDetails {
        *self
    }
}

impl View for MapDetails {
    type V = MapDetails;

    open spec fn view(&self) -> MapDetails {
        *self
    }
}

impl View for StreetDetails {
    type V = StreetDetails;

    open spec fn view(&self) -> StreetDetails {
        *self
    }
}

/// The view of an address: its number by its text, its tags as a sequence.
pub struct AddressView {
    pub id: u32,
    pub street_id: u32,
    pub number: Seq<char>,
    pub tags: Seq<AddressTags>,
    pub visited: bool,
    pub deleted: bool,
}

impl View for AddressDetails {
    type V = AddressView;

    open spec fn view(&self) -> AddressView {
        AddressView {
            id: self.id,
            street_id: self.street_id,
            number: self.number@,
            tags: self.tags@,
            visited: self.visited,
            deleted: self.deleted,
        }
    }
}

/// The view of a user's public details: the name by its text.
pub struct UserPublicView {
    pub id: u32,
    pub name: Seq<char>,
    pub deleted: bool,
}

impl View for UserPublicDetails {
    type V = UserPublicView;

    open spec fn view(&self) -> UserPublicView {
        UserPublicView { id: self.id, name: self.name@, deleted: self.deleted }
    }
}

/// All errors relating to the database.
#[derive(Debug)]
pub enum DbError {
    InvalidLocation(sqlx::Error),
    InvalidToken(u32),
    InvalidRow(sqlx::Error),
    ConnectionFailure(sqlx::Error),
    QueryFailure(sqlx::Error),
    TokenRngFailure(rand::rngs::SysError),
    AddressFailure(AddressError),
    UnknownError(sqlx::Error),
    Error,
}

/// Errors while reading an address row.
#[derive(Debug)]
pub enum AddressError {
    SqlxError(sqlx::Error),
    DeserialiseError(rmp_serde::decode::Error),
}

impl From<sqlx::Error> for AddressError {
    fn from(err: sqlx::Error) -> (res: Self) {
        AddressError::SqlxError(err)
    }
}

impl vstd::std_specs::convert::FromSpecImpl<sqlx::Error> for AddressError {
    open spec fn obeys_from_spec() -> bool {
        true
    }

    open spec fn from_spec(err: sqlx::Error) -> Self {
        AddressError::SqlxError(err)
    }
}

impl From<rmp_serde::decode::Error> for AddressError {
    fn from(err: rmp_serde::decode::Error) -> (res: Self) {
        AddressError::DeserialiseError(err)
    }
}

impl vstd::std_specs::convert::FromSpecImpl<rmp_serde::decode::Error> for AddressError {
    open spec fn obeys_from_spec() -> bool {
        true
    }

    open spec fn from_spec(err: rmp_serde::decode::Error) -> Self {
        AddressError::DeserialiseError(err)
    }
}

/// The text that describes an `AddressError`, given the text of the error it
/// wraps.
pub open spec fn address_error_text(error: AddressError, detail: Seq<char>) -> Seq<char> {
    match error {
        AddressError::DeserialiseError(_) => "something went wrong deserialising the tags: "@
            + detail,
        AddressError::SqlxError(_) => "something went wrong with sqlx: "@ + detail,
    }
}

/// The text that describes a `DbError`, given the text of the error it wraps
/// (unused by the variants that wrap none).
pub open spec fn db_error_text(error: DbError, detail: Seq<char>) -> Seq<char> {
    match error {
        DbError::InvalidLocation(_) => "db not found: "@ + detail,
        DbError::InvalidToken(count) => "token returned an invalid number of users: "@
            + spec_decimal(count as nat),
        DbError::InvalidRow(_) => "an invalid row was passed to a parsing function: "@ + detail,
        DbError::ConnectionFailure(_) => "connection to db failed: "@ + detail,
        DbError::QueryFailure(_) => "a query failed to run: "@ + detail,
        DbError::TokenRngFailure(_) => "a token failed to generate: "@ + detail,
        DbError::AddressFailure(inner) => "something went wrong with the addresses: "@
            + address_error_text(inner, detail),
        DbError::UnknownError(_) => "an unknown error occured: "@ + detail,
        DbError::Error => "a dberror::error error occured"@,
    }
}

fn prefixed(prefix: &str, detail: &str) -> (text: String)
    ensures
        text@ == prefix@ + detail@,
{
    String::from_str(prefix).concat(detail)
}

impl AddressError {
    /// The description of this error, `detail` standing for the text of the
    /// error it wraps.
    pub fn describe_with(&self, detail: &str) -> (text: String)
        ensures
            text@ == address_error_text(*self, detail@),
    {
        match self {
            AddressError::DeserialiseError(_) => prefixed(
                "something went wrong deserialising the tags: ",
                detail,
            ),
            AddressError::SqlxError(_) => prefixed("something went wrong with sqlx: ", detail),
        }
    }

    /// The description of this error, with the text of the error it wraps.
    pub fn describe(&self) -> (text: String)
        ensures
            exists|detail: Seq<char>| text@ == address_error_text(*self, detail),
    {
        let detail = match self {
            AddressError::DeserialiseError(inner) => decode_error_text(inner),
            AddressError::SqlxError(inner) => sqlx_error_text(inner),
        };
        self.describe_with(detail.as_str())
    }
}

impl DbError {
    /// The description of this error, `detail` standing for the text of the
    /// error it wraps.
    pub fn describe_with(&self, detail: &str) -> (text: String)
        ensures
            text@ == db_error_text(*self, detail@),
    {
        match self {
            DbError::InvalidLocation(_) => prefixed("db not found: ", detail),
            DbError::InvalidToken(count) => {
                let number = decimal(*count);
                prefixed("token returned an invalid number of users: ", number.as_str())
            },
            DbError::InvalidRow(_) => prefixed(
                "an invalid row was passed to a parsing function: ",
                detail,
            ),
            DbError::ConnectionFailure(_) => prefixed("connection to db failed: ", detail),
            DbError::QueryFailure(_) => prefixed("a query failed to run: ", detail),
            DbError::TokenRngFailure(_) => prefixed("a token failed to generate: ", detail),
            DbError::AddressFailure(inner) => {
                let inner_text = inner.describe_with(detail);
                prefixed("something went wrong with the addresses: ", inner_text.as_str())
            },
            DbError::UnknownError(_) => prefixed("an unknown error occured: ", detail),
            DbError::Error => String::from_str("a dberror::error error occured"),
        }
    }

    /// The description of this error, with the text of the error it wraps.
    pub fn describe(&self) -> (text: String)
        ensures
            exists|detail: Seq<char>| text@ == db_error_text(*self, detail),
    {
        let detail = match self {
            DbError::InvalidLocation(inner) => sqlx_error_text(inner),
            DbError::InvalidRow(inner) => sqlx_error_text(inner),
            DbError::ConnectionFailure(inner) => sqlx_error_text(inner),
            DbError::QueryFailure(inner) => sqlx_error_text(inner),
            DbError::UnknownError(inner) => sqlx_error_text(inner),
            DbError::TokenRngFailure(inner) => sys_error_text(inner),
            DbError::AddressFailure(AddressError::SqlxError(inner)) => sqlx_error_text(inner),
            DbError::AddressFailure(AddressError::DeserialiseError(inner)) => decode_error_text(
                inner,
            ),
            DbError::InvalidToken(_) => String::new(),
            DbError::Error => String::new(),
        };
        self.describe_with(detail.as_str())
    }
}

} // verus!
