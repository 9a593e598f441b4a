//! The statements the server runs against its SQLite database: their text and
//! the values bound to their placeholders, in order.
use vstd::prelude::*;
use vstd::string::*;

use crate::tokens::{hashed_key, hashed_token_key};

verus! {

/// A value bound to a `?` placeholder.
#[derive(Debug, PartialEq, Eq)]
pub enum SqlParam {
    Integer(u32),
    Boolean(bool),
    Text(String),
}

/// A statement against the database.
#[derive(Debug, PartialEq, Eq)]
pub enum Query {
    /// The congregations of a user, with the user's membership state.
    CongregationsOfUser { user_id: u32 },
    /// Removes a user's membership of a congregation.
    DeleteUserCongPair { user_id: u32, cong_id: u32 },
    /// Marks the memberships of a congregation deleted.
    MarkCongregationPairsDeleted { cong_id: u32 },
    /// Marks a congregation deleted.
    MarkCongregationDeleted { cong_id: u32 },
    /// The users updated since a time who share a congregation with a user.
    UsersSince { last_sync: u32, user_id: u32 },
    /// The owner of a refresh token, looked up by key.
    RefreshTokenOwner { key: String },
    /// The owner of an access token, looked up by key.
    AccessTokenOwner { key: String },
    /// The user with a name and a password.
    UserByCredentials { name: String, password: String },
    /// Removes the token with a key.
    DeleteToken { key: String },
    /// Stores a token key for a user.
    InsertToken { user: u32, refresh: bool, key: String },
    /// Removes every token of a user.
    DeleteUserTokens { user: u32 },
    /// Removes the access tokens of a user.
    DeleteAccessTokensOfUser { user: u32 },
    /// The categories updated since a time.
    CategoriesSince { last_sync: u32 },
    /// The service groups of a user.
    GroupsOfUser { user_id: u32 },
    /// Removes a user's membership of a group.
    DeleteUserGroupPair { user_id: u32, group_id: u32 },
    /// The members of a group.
    GroupMembers { group_id: u32 },
    /// Removes a group.
    DeleteGroup { group_id: u32 },
    /// The maps updated since a time in the congregations of a user.
    MapsSince { last_sync: u32, user_id: u32 },
    /// Every street.
    AllStreets,
    /// Every address.
    AllAddresses,
    /// Marks an address visited or not.
    SetAddressVisited { address_id: u32, visited: bool },
}

/// The SQL text of a statement.
pub open spec fn query_sql(query: Query) -> Seq<char> {
    match query {
        Query::CongregationsOfUser { .. } => "SELECT user_cong_pair.congregation_id, congregation.name, user_cong_pair.deleted, user_cong_pair.updated FROM user_cong_pair INNER JOIN congregation ON user_cong_pair.congregation_id=congregation.id WHERE user_id = ? "@,
        Query::DeleteUserCongPair { .. } => "DELETE FROM user_cong_pair WHERE user_id = ? AND congregation_id = ?"@,
        Query::MarkCongregationPairsDeleted { .. } => "UPDATE user_cong_pair SET deleted = TRUE WHERE congregation_id = ?"@,
        Query::MarkCongregationDeleted { .. } => "UPDATE congregation SET deleted = TRUE WHERE id = ?"@,
        Query::UsersSince { .. } => "SELECT users.id, users.firstname, users.lastname, users.updated, users.deleted FROM users INNER JOIN user_cong_pair ON user_cong_pair.user_id=users.id WHERE users.updated >= ? AND user_cong_pair.congregation_id IN (SELECT congregation_id FROM user_cong_pair WHERE user_id = ?)"@,
        Query::RefreshTokenOwner { .. } => "SELECT user FROM tokens WHERE token = ? AND refresh = true"@,
        Query::AccessTokenOwner { .. } => "SELECT user FROM tokens WHERE token = ? AND refresh = false"@,
        Query::UserByCredentials { .. } => "SELECT * FROM users WHERE firstname = ? AND password = ?"@,
        Query::DeleteToken { .. } => "DELETE FROM tokens WHERE token = ?"@,
        Query::InsertToken { .. } => "INSERT INTO tokens(user, refresh, token) VALUES (?, ?, ?)"@,
        Query::DeleteUserTokens { .. } => "DELETE FROM tokens WHERE user = ?"@,
        Query::DeleteAccessTokensOfUser { .. } => "DELETE FROM tokens WHERE user = ? AND refresh = false"@,
        Query::CategoriesSince { .. } => "SELECT * FROM categories WHERE updated > ?"@,
        Query::GroupsOfUser { .. } => "SELECT user_group_pair.group_id AS group_id, user_group_pair.deleted AS pair_deleted, user_group_pair.updated AS pair_updated, service_group.name AS name, service_group.elder AS elder, service_group.deleted AS group_deleted, service_group.updated AS group_updated, service_group.congregation AS congregation FROM user_group_pair INNER JOIN service_group ON service_group.id=user_group_pair.group_id WHERE user_id = ?"@,
        Query::DeleteUserGroupPair { .. } => "DELETE FROM user_group_pair WHERE user_id = ? AND group_id = ?"@,
        Query::GroupMembers { .. } => "SELECT user_id FROM user_group_pair WHERE group_id = ?"@,
        Query::DeleteGroup { .. } => "DELETE FROM service_group WHERE id = ?"@,
        Query::MapsSince { .. } => "SELECT * FROM maps WHERE updated >= ? AND congregation_id IN (SELECT congregation_id FROM user_cong_pair WHERE user_id = ?)"@,
        Query::AllStreets => "SELECT * FROM streets"@,
        Query::AllAddresses => "SELECT * FROM addresses"@,
        Query::SetAddressVisited { .. } => "UPDATE addresses SET visited = ? WHERE id = ?"@,
    }
}

/// The view of a bound value: integers and flags as they are, text by its
/// characters.
pub enum ParamView {
    Integer(u32),
    Boolean(bool),
    Text(Seq<char>),
}

impl View for SqlParam {
    type V = ParamView;

    open spec fn view(&self) -> ParamView {
        match self {
            SqlParam::Integer(v) => ParamView::Integer(*v),
            SqlParam::Boolean(v) => ParamView::Boolean(*v),
            SqlParam::Text(v) => ParamView::Text(v@),
        }
    }
}

/// The values bound to a statement's placeholders, in order.
pub open spec fn query_params(query: Query) -> Seq<ParamView> {
    match query {
        Query::CongregationsOfUser { user_id } => seq![ParamView::Integer(user_id)],
        Query::DeleteUserCongPair { user_id, cong_id } => seq![
            ParamView::Integer(user_id),
            ParamView::Integer(cong_id),
        ],
        Query::MarkCongregationPairsDeleted { cong_id } => seq![ParamView::Integer(cong_id)],
        Query::MarkCongregationDeleted { cong_id } => seq![ParamView::Integer(cong_id)],
        Query::UsersSince { last_sync, user_id } => seq![
            ParamView::Integer(last_sync),
            ParamView::Integer(user_id),
        ],
        Query::RefreshTokenOwner { key } => seq![ParamView::Text(key@)],
        Query::AccessTokenOwner { key } => seq![ParamView::Text(key@)],
        Query::UserByCredentials { name, password } => seq![
            ParamView::Text(name@),
            ParamView::Text(password@),
        ],
        Query::DeleteToken { key } => seq![ParamView::Text(key@)],
        Query::InsertToken { user, refresh, key } => seq![
            ParamView::Integer(user),
            ParamView::Boolean(refresh),
            ParamView::Text(key@),
        ],
        Query::DeleteUserTokens { user } => seq![ParamView::Integer(user)],
        Query::DeleteAccessTokensOfUser { user } => seq![ParamView::Integer(user)],
        Query::CategoriesSince { last_sync } => seq![ParamView::Integer(last_sync)],
        Query::GroupsOfUser { user_id } => seq![ParamView::Integer(user_id)],
        Query::DeleteUserGroupPair { user_id, group_id } => seq![
            ParamView::Integer(user_id),
            ParamView::Integer(group_id),
        ],
        Query::GroupMembers { group_id } => seq![ParamView::Integer(group_id)],
        Query::DeleteGroup { group_id } => seq![ParamView::Integer(group_id)],
        Query::MapsSince { last_sync, user_id } => seq![
            ParamView::Integer(last_sync),
            ParamView::Integer(user_id),
        ],
        Query::AllStreets => seq![],
        Query::AllAddresses => seq![],
        Query::SetAddressVisited { address_id, visited } => seq![
            ParamView::Boolean(visited),
            ParamView::Integer(address_id),
        ],
    }
}

/// A statement as the database sees it: its text and the values bound to
/// its placeholders.
pub struct StatementView {
    pub sql: Seq<char>,
    pub params: Seq<ParamView>,
}

/// The statement a query runs.
pub open spec fn statement(query: Query) -> StatementView {
    StatementView { sql: query_sql(query), params: query_params(query) }
}

impl View for Query {
    type V = StatementView;

    open spec fn view(&self) -> StatementView {
        statement(*self)
    }
}

/// The statement that removes a token by its hashed key.
pub open spec fn delete_token_statement(token: Seq<u8>) -> StatementView {
    StatementView {
        sql: "DELETE FROM tokens WHERE token = ?"@,
        params: seq![ParamView::Text(hashed_token_key(token))],
    }
}

/// The statement that stores the hashed key of a token for a user.
pub open spec fn insert_token_statement(user: u32, refresh: bool, token: Seq<u8>) -> StatementView {
    StatementView {
        sql: "INSERT INTO tokens(user, refresh, token) VALUES (?, ?, ?)"@,
        params: seq![
            ParamView::Integer(user),
            ParamView::Boolean(refresh),
            ParamView::Text(hashed_token_key(token)),
        ],
    }
}

/// The statement that looks up the owner of a refresh token by its hashed
/// key.
pub open spec fn refresh_owner_statement(token: Seq<u8>) -> StatementView {
    StatementView {
        sql: "SELECT user FROM tokens WHERE token = ? AND refresh = true"@,
        params: seq![ParamView::Text(hashed_token_key(token))],
    }
}

/// The statement that looks up the owner of an access token by its hashed
/// key.
pub open spec fn access_owner_statement(token: Seq<u8>) -> StatementView {
    StatementView {
        sql: "SELECT user FROM tokens WHERE token = ? AND refresh = false"@,
        params: seq![ParamView::Text(hashed_token_key(token))],
    }
}

fn text_param(text: &String) -> (param: SqlParam)
    ensures
        param@ == ParamView::Text(text@),
{
    SqlParam::Text(text.clone())
}

impl Query {
    /// The SQL text of this statement.
    pub fn sql(&self) -> (text: &'static str)
        ensures
            text@ == query_sql(*self),
    {
        match self {
            Query::CongregationsOfUser { .. } => "SELECT user_cong_pair.congregation_id, congregation.name, user_cong_pair.deleted, user_cong_pair.updated FROM user_cong_pair INNER JOIN congregation ON user_cong_pair.congregation_id=congregation.id WHERE user_id = ? ",
            Query::DeleteUserCongPair { .. } => "DELETE FROM user_cong_pair WHERE user_id = ? AND congregation_id = ?",
            Query::MarkCongregationPairsDeleted { .. } => "UPDATE user_cong_pair SET deleted = TRUE WHERE congregation_id = ?",
            Query::MarkCongregationDeleted { .. } => "UPDATE congregation SET deleted = TRUE WHERE id = ?",
            Query::UsersSince { .. } => "SELECT users.id, users.firstname, users.lastname, users.updated, users.deleted FROM users INNER JOIN user_cong_pair ON user_cong_pair.user_id=users.id WHERE users.updated >= ? AND user_cong_pair.congregation_id IN (SELECT congregation_id FROM user_cong_pair WHERE user_id = ?)",
            Query::RefreshTokenOwner { .. } => "SELECT user FROM tokens WHERE token = ? AND refresh = true",
            Query::AccessTokenOwner { .. } => "SELECT user FROM tokens WHERE token = ? AND refresh = false",
            Query::UserByCredentials { .. } => "SELECT * FROM users WHERE firstname = ? AND password = ?",
            Query::DeleteToken { .. } => "DELETE FROM tokens WHERE token = ?",
            Query::InsertToken { .. } => "INSERT INTO tokens(user, refresh, token) VALUES (?, ?, ?)",
            Query::DeleteUserTokens { .. } => "DELETE FROM tokens WHERE user = ?",
            Query::DeleteAccessTokensOfUser { .. } => "DELETE FROM tokens WHERE user = ? AND refresh = false",
            Query::CategoriesSince { .. } => "SELECT * FROM categories WHERE updated > ?",
            Query::GroupsOfUser { .. } => "SELECT user_group_pair.group_id AS group_id, user_group_pair.deleted AS pair_deleted, user_group_pair.updated AS pair_updated, service_group.name AS name, service_group.elder AS elder, service_group.deleted AS group_deleted, service_group.updated AS group_updated, service_group.congregation AS congregation FROM user_group_pair INNER JOIN service_group ON service_group.id=user_group_pair.group_id WHERE user_id = ?",
            Query::DeleteUserGroupPair { .. } => "DELETE FROM user_group_pair WHERE user_id = ? AND group_id = ?",
            Query::GroupMembers { .. } => "SELECT user_id FROM user_group_pair WHERE group_id = ?",
            Query::DeleteGroup { .. } => "DELETE FROM service_group WHERE id = ?",
            Query::MapsSince { .. } => "SELECT * FROM maps WHERE updated >= ? AND congregation_id IN (SELECT congregation_id FROM user_cong_pair WHERE user_id = ?)",
            Query::AllStreets => "SELECT * FROM streets",
            Query::AllAddresses => "SELECT * FROM addresses",
            Query::SetAddressVisited { .. } => "UPDATE addresses SET visited = ? WHERE id = ?",
        }
    }

    /// The values bound to this statement's placeholders, in order.
    pub fn params(&self) -> (params: Vec<SqlParam>)
        ensures
            params@.map_values(|p: SqlParam| p@) == query_params(*self),
    {
        let params = match self {
            Query::CongregationsOfUser { user_id } => vec![SqlParam::Integer(*user_id)],
            Query::DeleteUserCongPair { user_id, cong_id } => vec![
                SqlParam::Integer(*user_id),
                SqlParam::Integer(*cong_id),
            ],
            Query::MarkCongregationPairsDeleted { cong_id } => vec![SqlParam::Integer(*cong_id)],
            Query::MarkCongregationDeleted { cong_id } => vec![SqlParam::Integer(*cong_id)],
            Query::UsersSince { last_sync, user_id } => vec![
                SqlParam::Integer(*last_sync),
                SqlParam::Integer(*user_id),
            ],
            Query::RefreshTokenOwner { key } => vec![text_param(key)],
            Query::AccessTokenOwner { key } => vec![text_param(key)],
            Query::UserByCredentials { name, password } => vec![
                text_param(name),
                text_param(password),
            ],
            Query::DeleteToken { key } => vec![text_param(key)],
            Query::InsertToken { user, refresh, key } => vec![
                SqlParam::Integer(*user),
                SqlParam::Boolean(*refresh),
                text_param(key),
            ],
            Query::DeleteUserTokens { user } => vec![SqlParam::Integer(*user)],
            Query::DeleteAccessTokensOfUser { user } => vec![SqlParam::Integer(*user)],
            Query::CategoriesSince { last_sync } => vec![SqlParam::Integer(*last_sync)],
            Query::GroupsOfUser { user_id } => vec![SqlParam::Integer(*user_id)],
            Query::DeleteUserGroupPair { user_id, group_id } => vec![
                SqlParam::Integer(*user_id),
                SqlParam::Integer(*group_id),
            ],
            Query::GroupMembers { group_id } => vec![SqlParam::Integer(*group_id)],
            Query::DeleteGroup { group_id } => vec![SqlParam::Integer(*group_id)],
            Query::MapsSince { last_sync, user_id } => vec![
                SqlParam::Integer(*last_sync),
                SqlParam::Integer(*user_id),
            ],
            Query::AllStreets => vec![],
            Query::AllAddresses => vec![],
            Query::SetAddressVisited { address_id, visited } => vec![
                SqlParam::Boolean(*visited),
                SqlParam::Integer(*address_id),
            ],
        };
        assert(params@.map_values(|p: SqlParam| p@) =~= query_params(*self));
        params
    }

    /// Looks up the owner of a refresh token, which is stored hashed.
    pub fn refresh_token_owner(token: &[u8; 32]) -> (query: Query)
        ensures
            query matches Query::RefreshTokenOwner { key } && key@ == hashed_token_key(token@),
            query@ == refresh_owner_statement(token@),
    {
        Query::RefreshTokenOwner { key: hashed_key(token) }
    }

    /// Looks up the owner of an access token, which is stored hashed.
    pub fn access_token_owner(token: &[u8; 32]) -> (query: Query)
        ensures
            query matches Query::AccessTokenOwner { key } && key@ == hashed_token_key(token@),
            query@ == access_owner_statement(token@),
    {
        Query::AccessTokenOwner { key: hashed_key(token) }
    }

    /// Stores the hashed key of a new token for a user.
    pub fn insert_token(user: u32, refresh: bool, token: &[u8; 32]) -> (query: Query)
        ensures
            query matches Query::InsertToken { user: u, refresh: r, key } && u == user && r
                == refresh && key@ == hashed_token_key(token@),
            query@ == insert_token_statement(user, refresh, token@),
    {
        Query::InsertToken { user, refresh, key: hashed_key(token) }
    }

    /// Removes a token, which is stored hashed.
    pub fn delete_token(token: &[u8; 32]) -> (query: Query)
        ensures
            query matches Query::DeleteToken { key } && key@ == hashed_token_key(token@),
            query@ == delete_token_statement(token@),
    {
        Query::DeleteToken { key: hashed_key(token) }
    }

    /// Looks up a user by name and password.
    pub fn user_by_credentials(name: &str, password: &str) -> (query: Query)
        ensures
            query matches Query::UserByCredentials { name: n, password: p } && n@ == name@ && p@
                == password@,
    {
        Query::UserByCredentials { name: String::from_str(name), password: String::from_str(password) }
    }
}

/// Each query runs one fixed statement: its SQL text is the one written here,
/// and its arguments are bound to the placeholders in the order they appear
/// in that text. So revoking a user's tokens removes every token row of the
/// user whatever its kind, marking an address sets its `visited` column to
/// the bound flag for the row with the bound id, and removing a membership
/// binds the user before the group.
pub proof fn every_query_runs_its_statement(query: Query)
    ensures
        match query {
            Query::CongregationsOfUser { user_id } => query@ == (StatementView {
                sql: "SELECT user_cong_pair.congregation_id, congregation.name, user_cong_pair.deleted, user_cong_pair.updated FROM user_cong_pair INNER JOIN congregation ON user_cong_pair.congregation_id=congregation.id WHERE user_id = ? "@,
                params: seq![ParamView::Integer(user_id)],
            }),
            Query::DeleteUserCongPair { user_id, cong_id } => query@ == (StatementView {
                sql: "DELETE FROM user_cong_pair WHERE user_id = ? AND congregation_id = ?"@,
                params: seq![ParamView::Integer(user_id), ParamView::Integer(cong_id)],
            }),
            Query::MarkCongregationPairsDeleted { cong_id } => query@ == (StatementView {
                sql: "UPDATE user_cong_pair SET deleted = TRUE WHERE congregation_id = ?"@,
                params: seq![ParamView::Integer(cong_id)],
            }),
            Query::MarkCongregationDeleted { cong_id } => query@ == (StatementView {
                sql: "UPDATE congregation SET deleted = TRUE WHERE id = ?"@,
                params: seq![ParamView::Integer(cong_id)],
            }),
            Query::UsersSince { last_sync, user_id } => query@ == (StatementView {
                sql: "SELECT users.id, users.firstname, users.lastname, users.updated, users.deleted FROM users INNER JOIN user_cong_pair ON user_cong_pair.user_id=users.id WHERE users.updated >= ? AND user_cong_pair.congregation_id IN (SELECT congregation_id FROM user_cong_pair WHERE user_id = ?)"@,
                params: seq![ParamView::Integer(last_sync), ParamView::Integer(user_id)],
            }),
            Query::RefreshTokenOwner { key } => query@ == (StatementView {
                sql: "SELECT user FROM tokens WHERE token = ? AND refresh = true"@,
                params: seq![ParamView::Text(key@)],
            }),
            Query::AccessTokenOwner { key } => query@ == (StatementView {
                sql: "SELECT user FROM tokens WHERE token = ? AND refresh = false"@,
                params: seq![ParamView::Text(key@)],
            }),
            Query::UserByCredentials { name, password } => query@ == (StatementView {
                sql: "SELECT * FROM users WHERE firstname = ? AND password = ?"@,
                params: seq![ParamView::Text(name@), ParamView::Text(password@)],
            }),
            Query::DeleteToken { key } => query@ == (StatementView {
                sql: "DELETE FROM tokens WHERE token = ?"@,
                params: seq![ParamView::Text(key@)],
            }),
            Query::InsertToken { user, refresh, key } => query@ == (StatementView {
                sql: "INSERT INTO tokens(user, refresh, token) VALUES (?, ?, ?)"@,
                params: seq![
                    ParamView::Integer(user),
                    ParamView::Boolean(refresh),
                    ParamView::Text(key@),
                ],
            }),
            Query::DeleteUserTokens { user } => query@ == (StatementView {
                sql: "DELETE FROM tokens WHERE user = ?"@,
                params: seq![ParamView::Integer(user)],
            }),
            Query::DeleteAccessTokensOfUser { user } => query@ == (StatementView {
                sql: "DELETE FROM tokens WHERE user = ? AND refresh = false"@,
                params: seq![ParamView::Integer(user)],
            }),
            Query::CategoriesSince { last_sync } => query@ == (StatementView {
                sql: "SELECT * FROM categories WHERE updated > ?"@,
                params: seq![ParamView::Integer(last_sync)],
            }),
            Query::GroupsOfUser { user_id } => query@ == (StatementView {
                sql: "SELECT user_group_pair.group_id AS group_id, user_group_pair.deleted AS pair_deleted, user_group_pair.updated AS pair_updated, service_group.name AS name, service_group.elder AS elder, service_group.deleted AS group_deleted, service_group.updated AS group_updated, service_group.congregation AS congregation FROM user_group_pair INNER JOIN service_group ON service_group.id=user_group_pair.group_id WHERE user_id = ?"@,
                params: seq![ParamView::Integer(user_id)],
            }),
            Query::DeleteUserGroupPair { user_id, group_id } => query@ == (StatementView {
                sql: "DELETE FROM user_group_pair WHERE user_id = ? AND group_id = ?"@,
                params: seq![ParamView::Integer(user_id), ParamView::Integer(group_id)],
            }),
            Query::GroupMembers { group_id } => query@ == (StatementView {
                sql: "SELECT user_id FROM user_group_pair WHERE group_id = ?"@,
                params: seq![ParamView::Integer(group_id)],
            }),
            Query::DeleteGroup { group_id } => query@ == (StatementView {
                sql: "DELETE FROM service_group WHERE id = ?"@,
                params: seq![ParamView::Integer(group_id)],
            }),
            Query::MapsSince { last_sync, user_id } => query@ == (StatementView {
                sql: "SELECT * FROM maps WHERE updated >= ? AND congregation_id IN (SELECT congregation_id FROM user_cong_pair WHERE user_id = ?)"@,
                params: seq![ParamView::Integer(last_sync), ParamView::Integer(user_id)],
            }),
            Query::AllStreets => query@ == (StatementView {
                sql: "SELECT * FROM streets"@,
                params: seq![],
            }),
            Query::AllAddresses => query@ == (StatementView {
                sql: "SELECT * FROM addresses"@,
                params: seq![],
            }),
            Query::SetAddressVisited { address_id, visited } => query@ == (StatementView {
                sql: "UPDATE addresses SET visited = ? WHERE id = ?"@,
                params: seq![ParamView::Boolean(visited), ParamView::Integer(address_id)],
            }),
        },
{
}

/// What is stored can be found and removed again: a token of either kind is
/// stored, looked up and deleted under one key, the hex of its BLAKE2b-512
/// digest, and the lookup asks for the kind it was stored as.
pub proof fn stored_tokens_are_found_and_removed_under_one_key(
    user: u32,
    refresh: bool,
    token: Seq<u8>,
)
    ensures
        ({
            let stored = insert_token_statement(user, refresh, token);
            let lookup = if refresh {
                refresh_owner_statement(token)
            } else {
                access_owner_statement(token)
            };
            &&& stored.params[2] == lookup.params[0]
            &&& stored.params[2] == delete_token_statement(token).params[0]
            &&& stored.params[1] == ParamView::Boolean(refresh)
            &&& lookup.sql == (if refresh {
                "SELECT user FROM tokens WHERE token = ? AND refresh = true"@
            } else {
                "SELECT user FROM tokens WHERE token = ? AND refresh = false"@
            })
        }),
{
}

/// A refresh token is looked up under the very key it was stored under:
/// both are the hex of the token's BLAKE2b-512 digest.
pub proof fn refresh_token_lookup_matches_storage(stored: Query, lookup: Query, token: [u8; 32])
    requires
        stored matches Query::InsertToken { refresh, key, .. } && refresh && key@
            == hashed_token_key(token@),
        lookup matches Query::RefreshTokenOwner { key } && key@ == hashed_token_key(token@),
    ensures
        query_params(stored)[2] == query_params(lookup)[0],
{
}

} // verus!
