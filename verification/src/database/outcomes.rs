//! What the database layer answers, given what running a statement gave.
use vstd::prelude::*;

use crate::database::queries::Query;
use crate::database::rows::{
    records_from, records_of, views_of, AddressRow, CategoryRow, CongRow, GroupRow, MapRow,
    RowRecord, StreetRow, UserRow,
};
use crate::datatypes::{
    AddressDetails, CategoryDetails, CongDetails, DbError, GroupDetails, MapDetails, StreetDetails,
    UserPublicDetails,
};

verus! {

/// The rows a query returned, or the error of running it, by sequence.
pub open spec fn rows_view<R>(rows: Result<Vec<R>, sqlx::Error>) -> Result<Seq<R>, sqlx::Error> {
    match rows {
        Ok(rows) => Ok(rows@),
        Err(e) => Err(e),
    }
}

/// The views of a list of records, or the error.
pub open spec fn records_view<T: View>(res: Result<Vec<T>, DbError>) -> Result<Seq<T::V>, DbError> {
    match res {
        Ok(records) => Ok(views_of(records@)),
        Err(e) => Err(e),
    }
}

/// Every row agrees with itself (see `RowRecord::well_formed`).
pub open spec fn rows_well_formed<R: RowRecord>(rows: Result<Vec<R>, sqlx::Error>) -> bool {
    rows matches Ok(rs) ==> forall|i: int| 0 <= i < rs@.len() ==> (#[trigger] rs@[i]).well_formed()
}

/// The records of a query's rows: a failed query is a `QueryFailure`; a row
/// that fails is reported through `row_failure`.
pub open spec fn list_outcome<R: RowRecord>(
    rows: Result<Seq<R>, sqlx::Error>,
    row_failure: spec_fn(R::Error) -> DbError,
) -> Result<Seq<<R::Record as View>::V>, DbError> {
    match rows {
        Err(e) => Err(DbError::QueryFailure(e)),
        Ok(rows) => match records_of(rows) {
            Ok(records) => Ok(records),
            Err(e) => Err(row_failure(e)),
        },
    }
}

/// The congregations of a user, from the rows of `Query::CongregationsOfUser`.
/// A row that fails is reported as a `QueryFailure` too.
pub fn congregations_from_rows(rows: Result<Vec<CongRow>, sqlx::Error>) -> (res: Result<
    Vec<CongDetails>,
    DbError,
>)
    ensures
        records_view(res) == list_outcome(rows_view(rows), |e: sqlx::Error| DbError::QueryFailure(e)),
{
    match rows {
        Err(e) => Err(DbError::QueryFailure(e)),
        Ok(rows) => match records_from(rows) {
            Ok(records) => Ok(records),
            Err(e) => Err(DbError::QueryFailure(e)),
        },
    }
}

/// The users, from the rows of `Query::UsersSince`. A row that fails is an
/// `InvalidRow`.
pub fn users_from_rows(rows: Result<Vec<UserRow>, sqlx::Error>) -> (res: Result<
    Vec<UserPublicDetails>,
    DbError,
>)
    ensures
        records_view(res) == list_outcome(rows_view(rows), |e: sqlx::Error| DbError::InvalidRow(e)),
{
    match rows {
        Err(e) => Err(DbError::QueryFailure(e)),
        Ok(rows) => match records_from(rows) {
            Ok(records) => Ok(records),
            Err(e) => Err(DbError::InvalidRow(e)),
        },
    }
}

/// The categories, from the rows of `Query::CategoriesSince`. A row that fails
/// is an `InvalidRow`.
pub fn categories_from_rows(rows: Result<Vec<CategoryRow>, sqlx::Error>) -> (res: Result<
    Vec<CategoryDetails>,
    DbError,
>)
    ensures
        records_view(res) == list_outcome(rows_view(rows), |e: sqlx::Error| DbError::InvalidRow(e)),
{
    match rows {
        Err(e) => Err(DbError::QueryFailure(e)),
        Ok(rows) => match records_from(rows) {
            Ok(records) => Ok(records),
            Err(e) => Err(DbError::InvalidRow(e)),
        },
    }
}

/// The service groups, from the rows of `Query::GroupsOfUser`. A row that
/// fails is an `InvalidRow`.
pub fn groups_from_rows(rows: Result<Vec<GroupRow>, sqlx::Error>) -> (res: Result<
    Vec<GroupDetails>,
    DbError,
>)
    ensures
        records_view(res) == list_outcome(rows_view(rows), |e: sqlx::Error| DbError::InvalidRow(e)),
{
    match rows {
        Err(e) => Err(DbError::QueryFailure(e)),
        Ok(rows) => match records_from(rows) {
            Ok(records) => Ok(records),
            Err(e) => Err(DbError::InvalidRow(e)),
        },
    }
}

/// The maps, from the rows of `Query::MapsSince`. A row that fails is an
/// `InvalidRow`.
pub fn maps_from_rows(rows: Result<Vec<MapRow>, sqlx::Error>) -> (res: Result<
    Vec<MapDetails>,
    DbError,
>)
    ensures
        records_view(res) == list_outcome(rows_view(rows), |e: sqlx::Error| DbError::InvalidRow(e)),
{
    match rows {
        Err(e) => Err(DbError::QueryFailure(e)),
        Ok(rows) => match records_from(rows) {
            Ok(records) => Ok(records),
            Err(e) => Err(DbError::InvalidRow(e)),
        },
    }
}

/// The streets, from the rows of `Query::AllStreets`. A row that fails is an
/// `InvalidRow`.
pub fn streets_from_rows(rows: Result<Vec<StreetRow>, sqlx::Error>) -> (res: Result<
    Vec<StreetDetails>,
    DbError,
>)
    ensures
        records_view(res) == list_outcome(rows_view(rows), |e: sqlx::Error| DbError::InvalidRow(e)),
{
    match rows {
        Err(e) => Err(DbError::QueryFailure(e)),
        Ok(rows) => match records_from(rows) {
            Ok(records) => Ok(records),
            Err(e) => Err(DbError::InvalidRow(e)),
        },
    }
}

/// The addresses, from the rows of `Query::AllAddresses`. A row that fails is
/// an `AddressFailure`.
pub fn addresses_from_rows(rows: Result<Vec<AddressRow>, sqlx::Error>) -> (res: Result<
    Vec<AddressDetails>,
    DbError,
>)
    requires
        rows_well_formed(rows),
    ensures
        records_view(res) == list_outcome(
            rows_view(rows),
            |e: crate::datatypes::AddressError| DbError::AddressFailure(e),
        ),
{
    match rows {
        Err(e) => Err(DbError::QueryFailure(e)),
        Ok(rows) => match records_from(rows) {
            Ok(records) => Ok(records),
            Err(e) => Err(DbError::AddressFailure(e)),
        },
    }
}

/// The user a lookup names: the query must return exactly one row, whose user
/// column is the answer; any other number of rows is an `InvalidToken` with
/// that number (as a `u32`); a failed query is a `QueryFailure`.
pub open spec fn spec_single_user(rows: Result<Seq<Result<u32, sqlx::Error>>, sqlx::Error>) -> Result<
    u32,
    DbError,
> {
    match rows {
        Err(e) => Err(DbError::QueryFailure(e)),
        Ok(users) => if users.len() == 1 {
            Ok(users[0]->Ok_0)
        } else {
            Err(DbError::InvalidToken(users.len() as u32))
        },
    }
}

/// The user of a lookup by token or by credentials, from the user column of
/// each row returned. When exactly one row comes back its column must have
/// been read (reading it cannot fail there).
pub fn single_user_from_rows(rows: Result<Vec<Result<u32, sqlx::Error>>, sqlx::Error>) -> (res: Result<
    u32,
    DbError,
>)
    requires
        rows matches Ok(users) ==> (users@.len() == 1 ==> users@[0] is Ok),
    ensures
        res == spec_single_user(rows_view(rows)),
{
    match rows {
        Err(e) => Err(DbError::QueryFailure(e)),
        Ok(mut users) => {
            let count = users.len();
            if count == 1 {
                match users.pop() {
                    Some(Ok(user)) => Ok(user),
                    _ => vstd::pervasive::unreached(),
                }
            } else {
                Err(DbError::InvalidToken(count as u32))
            }
        },
    }
}

/// The outcome of a statement that returns no rows: a failure is a
/// `QueryFailure`.
pub fn statement_outcome(result: Result<(), sqlx::Error>) -> (res: Result<(), DbError>)
    ensures
        match result {
            Ok(()) => res == Ok::<(), DbError>(()),
            Err(e) => res == Err::<(), DbError>(DbError::QueryFailure(e)),
        },
{
    match result {
        Ok(()) => Ok(()),
        Err(e) => Err(DbError::QueryFailure(e)),
    }
}

/// The outcome of storing a new token: the token itself once stored.
pub fn token_stored(result: Result<(), sqlx::Error>, token: [u8; 32]) -> (res: Result<
    [u8; 32],
    DbError,
>)
    ensures
        match result {
            Ok(()) => res == Ok::<[u8; 32], DbError>(token),
            Err(e) => res == Err::<[u8; 32], DbError>(DbError::QueryFailure(e)),
        },
{
    match result {
        Ok(()) => Ok(token),
        Err(e) => Err(DbError::QueryFailure(e)),
    }
}

/// The statements that log a device out: remove its refresh token, then its
/// access token, each under the hashed key it is stored under.
pub fn logout_statements(refresh_token: &[u8; 32], access_token: &[u8; 32]) -> (statements: Vec<
    Query,
>)
    ensures
        statements@.len() == 2,
        statements@[0] matches Query::DeleteToken { key } && key@
            == crate::tokens::hashed_token_key(refresh_token@),
        statements@[1] matches Query::DeleteToken { key } && key@
            == crate::tokens::hashed_token_key(access_token@),
{
    vec![Query::delete_token(refresh_token), Query::delete_token(access_token)]
}

/// The statements that mark a congregation deleted: first the users'
/// memberships of it, then the congregation itself.
pub fn delete_congregation_statements(cong_id: u32) -> (statements: Vec<Query>)
    ensures
        statements@ == seq![
            Query::MarkCongregationPairsDeleted { cong_id },
            Query::MarkCongregationDeleted { cong_id },
        ],
{
    let statements = vec![
        Query::MarkCongregationPairsDeleted { cong_id },
        Query::MarkCongregationDeleted { cong_id },
    ];
    assert(statements@ =~= seq![
        Query::MarkCongregationPairsDeleted { cong_id },
        Query::MarkCongregationDeleted { cong_id },
    ]);
    statements
}

/// What removing a group comes to, given how many members the group still
/// has: a group is removed only when no membership of it is left.
pub fn group_removal(members: Result<usize, sqlx::Error>, group_id: u32) -> (res: Result<
    Option<Query>,
    DbError,
>)
    ensures
        match members {
            Err(e) => res == Err::<Option<Query>, DbError>(DbError::QueryFailure(e)),
            Ok(count) => res == Ok::<Option<Query>, DbError>(
                if count == 0 {
                    Some(Query::DeleteGroup { group_id })
                } else {
                    None
                },
            ),
        },
{
    match members {
        Err(e) => Err(DbError::QueryFailure(e)),
        Ok(count) => if count == 0 {
            Ok(Some(Query::DeleteGroup { group_id }))
        } else {
            Ok(None)
        },
    }
}

/// What running a list of statements does next.
#[derive(Debug)]
pub enum BatchStep {
    /// Run the statement at this position.
    Run(usize),
    /// Over: all ran, or the failure that stopped the list.
    Finish(Result<(), DbError>),
}

/// The next step of running `count` statements in order, `ran` of them having
/// run so far and `last` being what the last one gave (`Ok` before the
/// first): a failure stops the list as a `QueryFailure`; otherwise the next
/// statement runs, until all have.
pub fn batch_next(count: usize, ran: usize, last: Result<(), sqlx::Error>) -> (step: BatchStep)
    requires
        ran <= count,
    ensures
        match last {
            Err(e) => step == BatchStep::Finish(Err(DbError::QueryFailure(e))),
            Ok(()) => step == (if ran < count {
                BatchStep::Run(ran)
            } else {
                BatchStep::Finish(Ok(()))
            }),
        },
{
    match last {
        Err(e) => BatchStep::Finish(Err(DbError::QueryFailure(e))),
        Ok(()) => if ran < count {
            BatchStep::Run(ran)
        } else {
            BatchStep::Finish(Ok(()))
        },
    }
}

/// The answer to logging a device out, once its statements have run:
/// `Ok(true)`, or the failure that stopped them.
pub fn logout_answer(ran: Result<(), DbError>) -> (answer: Result<bool, DbError>)
    ensures
        match ran {
            Ok(()) => answer == Ok::<bool, DbError>(true),
            Err(e) => answer == Err::<bool, DbError>(e),
        },
{
    match ran {
        Ok(()) => Ok(true),
        Err(e) => Err(e),
    }
}

} // verus!
