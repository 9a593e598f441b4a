//! Account operations written against the database connection pool: checking
//! credentials, logging a device out, issuing and revoking tokens.
//!
//! Each operation that runs more than one statement is a state machine: it
//! asks for a statement to be run (`PoolStep::Run`), is told what running it
//! gave (`StatementResult`), and eventually finishes with its answer.
use vstd::prelude::*;

use crate::database::outcomes::rows_view;
use crate::database::queries::{
    delete_token_statement, insert_token_statement, refresh_owner_statement, statement, Query,
    StatementView,
};
use crate::tokens::fill_random_token;

verus! {

/// What running a statement gave: the user column of each row it returned,
/// or that it ran, or the error of running it.
#[derive(Debug)]
pub enum StatementResult {
    Users(Result<Vec<Result<u32, sqlx::Error>>, sqlx::Error>),
    Executed(Result<(), sqlx::Error>),
}

/// What a pool-level operation does next.
#[derive(Debug, PartialEq, Eq)]
pub enum PoolStep<T> {
    /// Run this statement and report what it gave.
    Run(Query),
    /// The operation is over, with this answer.
    Finish(T),
}

/// A step as seen from outside: the statement to run, or the answer.
pub enum PoolStepView<T> {
    Run(StatementView),
    Finish(T),
}

impl<T> View for PoolStep<T> {
    type V = PoolStepView<T>;

    open spec fn view(&self) -> PoolStepView<T> {
        match self {
            PoolStep::Run(query) => PoolStepView::Run(query@),
            PoolStep::Finish(answer) => PoolStepView::Finish(*answer),
        }
    }
}

/// Reading the user column of a lone row cannot fail (it is read with
/// `Row::get`, which panics).
pub open spec fn lone_row_is_read(result: StatementResult) -> bool {
    result matches StatementResult::Users(Ok(rows)) ==> (rows@.len() == 1 ==> rows@[0] is Ok)
}

/// The answer to a credential check: the id of the one user with that name
/// and password, and `Err(false)` for no user, several, or a failed query.
pub open spec fn spec_credentials_outcome(
    users: Result<Seq<Result<u32, sqlx::Error>>, sqlx::Error>,
) -> Result<u32, bool> {
    match users {
        Ok(rows) => if rows.len() == 1 {
            Ok(rows[0]->Ok_0)
        } else {
            Err(false)
        },
        Err(_) => Err(false),
    }
}

/// Answers a credential check from the rows of `Query::UserByCredentials`.
pub fn credentials_outcome(users: Result<Vec<Result<u32, sqlx::Error>>, sqlx::Error>) -> (res:
    Result<u32, bool>)
    requires
        lone_row_is_read(StatementResult::Users(users)),
    ensures
        res == spec_credentials_outcome(rows_view(users)),
{
    match users {
        Ok(mut rows) => {
            if rows.len() == 1 {
                match rows.pop() {
                    Some(Ok(user)) => Ok(user),
                    _ => vstd::pervasive::unreached(),
                }
            } else {
                Err(false)
            }
        },
        Err(_) => Err(false),
    }
}

/// Where logging a device out stands.
#[derive(Debug, PartialEq, Eq)]
pub enum LogoutState {
    /// Waiting for the owner of the refresh token to be looked up.
    FindingOwner { refresh_token: [u8; 32] },
    /// Waiting for the refresh token to be removed; `owner` is whose it is.
    RemovingRefreshToken { owner: u32 },
    /// Waiting for the owner's access tokens to be removed.
    RemovingAccessTokens,
    /// Over.
    Done,
}

/// Whether a logout state waits for the statement `query`: rows are awaited
/// exactly for the owner lookup, and nothing once the logout is over. Running
/// the statement and reporting its rows (for the lookup) or that it ran (for
/// any other statement) then answers the state.
pub open spec fn logout_awaits(state: LogoutState, query: Query) -> bool {
    &&& !(state is Done)
    &&& (state is FindingOwner <==> query is RefreshTokenOwner)
}

/// Starts logging out the device holding `refresh_token`: its owner is
/// looked up first, under the hashed key the token is stored under.
pub fn logout_start(refresh_token: [u8; 32]) -> (res: (LogoutState, PoolStep<Result<bool, bool>>))
    ensures
        res.0 == (LogoutState::FindingOwner { refresh_token }),
        res.1@ == PoolStepView::<Result<bool, bool>>::Run(
            refresh_owner_statement(refresh_token@),
        ),
        res.1 matches PoolStep::Run(query) && logout_awaits(res.0, query),
{
    (
        LogoutState::FindingOwner { refresh_token },
        PoolStep::Run(Query::refresh_token_owner(&refresh_token)),
    )
}

/// The step of logging out: a lookup that names exactly one owner goes on to
/// remove the refresh token (under its hashed key); a lookup that fails or
/// names no owner or several ends with `Err(false)`, and nothing is removed.
/// Then the owner's access tokens are removed; a failure of either removal
/// ends with `Err(false)`, and success with `Ok(true)`.
pub open spec fn spec_logout_step(state: LogoutState, result: StatementResult) -> (
    LogoutState,
    PoolStepView<Result<bool, bool>>,
) {
    match (state, result) {
        (LogoutState::FindingOwner { refresh_token }, StatementResult::Users(Ok(rows))) => if rows@.len()
            == 1 {
            (
                LogoutState::RemovingRefreshToken { owner: rows@[0]->Ok_0 },
                PoolStepView::Run(delete_token_statement(refresh_token@)),
            )
        } else {
            (LogoutState::Done, PoolStepView::Finish(Err(false)))
        },
        (LogoutState::RemovingRefreshToken { owner }, StatementResult::Executed(Ok(()))) => (
            LogoutState::RemovingAccessTokens,
            PoolStepView::Run(statement(Query::DeleteAccessTokensOfUser { user: owner })),
        ),
        (LogoutState::RemovingAccessTokens, StatementResult::Executed(Ok(()))) => (
            LogoutState::Done,
            PoolStepView::Finish(Ok(true)),
        ),
        _ => (LogoutState::Done, PoolStepView::Finish(Err(false))),
    }
}

/// Whether a statement result answers what a logout state waits for.
pub open spec fn logout_answers(state: LogoutState, result: StatementResult) -> bool {
    match (state, result) {
        (LogoutState::FindingOwner { .. }, StatementResult::Users(_)) => true,
        (LogoutState::RemovingRefreshToken { .. }, StatementResult::Executed(_)) => true,
        (LogoutState::RemovingAccessTokens, StatementResult::Executed(_)) => true,
        _ => false,
    }
}

/// Takes a step of logging a device out.
pub fn logout_step(state: LogoutState, result: StatementResult) -> (res: (
    LogoutState,
    PoolStep<Result<bool, bool>>,
))
    requires
        logout_answers(state, result),
        lone_row_is_read(result),
    ensures
        (res.0, res.1@) == spec_logout_step(state, result),
        res.1 matches PoolStep::Run(query) ==> logout_awaits(res.0, query),
        res.1 is Finish ==> res.0 is Done,
{
    match state {
        LogoutState::FindingOwner { refresh_token } => match result {
            StatementResult::Users(Ok(mut rows)) => {
                if rows.len() == 1 {
                    let owner = match rows.pop() {
                        Some(Ok(owner)) => owner,
                        _ => vstd::pervasive::unreached(),
                    };
                    (
                        LogoutState::RemovingRefreshToken { owner },
                        PoolStep::Run(Query::delete_token(&refresh_token)),
                    )
                } else {
                    (LogoutState::Done, PoolStep::Finish(Err(false)))
                }
            },
            _ => (LogoutState::Done, PoolStep::Finish(Err(false))),
        },
        LogoutState::RemovingRefreshToken { owner } => match result {
            StatementResult::Executed(Ok(())) => (
                LogoutState::RemovingAccessTokens,
                PoolStep::Run(Query::DeleteAccessTokensOfUser { user: owner }),
            ),
            _ => (LogoutState::Done, PoolStep::Finish(Err(false))),
        },
        LogoutState::RemovingAccessTokens => match result {
            StatementResult::Executed(Ok(())) => (LogoutState::Done, PoolStep::Finish(Ok(true))),
            _ => (LogoutState::Done, PoolStep::Finish(Err(false))),
        },
        LogoutState::Done => (LogoutState::Done, PoolStep::Finish(Err(false))),
    }
}

/// How many statements logging out may still run from a state.
pub open spec fn logout_steps_left(state: LogoutState) -> nat {
    match state {
        LogoutState::FindingOwner { .. } => 3,
        LogoutState::RemovingRefreshToken { .. } => 2,
        LogoutState::RemovingAccessTokens => 1,
        LogoutState::Done => 0,
    }
}

/// Logging out runs at most three statements: every step brings it closer to
/// its end, and it answers exactly when it is over.
pub proof fn logout_always_progresses(state: LogoutState, result: StatementResult)
    requires
        logout_answers(state, result),
    ensures
        logout_steps_left(spec_logout_step(state, result).0) < logout_steps_left(state),
        (spec_logout_step(state, result).0 is Done) <==> (spec_logout_step(state, result).1 is Finish),
{
}

/// Issues a new refresh token for `user`: the token drawn (used whether or not
/// drawing succeeded), and the statement that stores its hashed key. The
/// token is handed out whatever storing it gives.
pub fn refresh_token_roll(user: u32) -> (res: ([u8; 32], Query))
    ensures
        res.1@ == insert_token_statement(user, true, res.0@),
{
    let (token, _status) = fill_random_token();
    let query = Query::insert_token(user, true, &token);
    (token, query)
}

/// Where issuing an access token stands.
#[derive(Debug, PartialEq, Eq)]
pub enum AccessRollState {
    /// Waiting for the owner of the refresh token; `new_token` is the token
    /// drawn for the owner.
    FindingOwner { new_token: [u8; 32] },
    /// Waiting for the new token's hashed key to be stored.
    Storing { new_token: [u8; 32] },
    /// Over.
    Done,
}

/// Whether an access-roll state waits for the statement `query`: rows are
/// awaited exactly for the owner lookup, and nothing once it is over.
pub open spec fn access_roll_awaits(state: AccessRollState, query: Query) -> bool {
    &&& !(state is Done)
    &&& (state is FindingOwner <==> query is RefreshTokenOwner)
}

/// Starts issuing an access token for the owner of `refresh_token`: a token
/// is drawn (used whether or not drawing succeeded), then the owner is looked
/// up under the hashed key the refresh token is stored under.
pub fn access_roll_start(refresh_token: [u8; 32]) -> (res: (
    AccessRollState,
    PoolStep<Option<[u8; 32]>>,
))
    ensures
        res.0 is FindingOwner,
        res.1@ == PoolStepView::<Option<[u8; 32]>>::Run(
            refresh_owner_statement(refresh_token@),
        ),
        res.1 matches PoolStep::Run(query) && access_roll_awaits(res.0, query),
{
    let (new_token, _status) = fill_random_token();
    (
        AccessRollState::FindingOwner { new_token },
        PoolStep::Run(Query::refresh_token_owner(&refresh_token)),
    )
}

/// Whether a statement result answers what an access-roll state waits for.
pub open spec fn access_roll_answers(state: AccessRollState, result: StatementResult) -> bool {
    match (state, result) {
        (AccessRollState::FindingOwner { .. }, StatementResult::Users(_)) => true,
        (AccessRollState::Storing { .. }, StatementResult::Executed(_)) => true,
        _ => false,
    }
}

/// The owner an access token is stored for: the user of the lone row;
/// `None` when the lookup failed or named no owner or several (and no token
/// is issued).
pub open spec fn access_owner(users: Result<Seq<Result<u32, sqlx::Error>>, sqlx::Error>) -> Option<
    u32,
> {
    match users {
        Ok(rows) => if rows.len() == 1 {
            Some(rows[0]->Ok_0)
        } else {
            None
        },
        Err(_) => None,
    }
}

/// Takes a step of issuing an access token: once the owner is known the new
/// token's hashed key is stored for the owner, and the token is handed out
/// whatever storing it gives; no owner (or several) hands out nothing.
pub fn access_roll_step(state: AccessRollState, result: StatementResult) -> (res: (
    AccessRollState,
    PoolStep<Option<[u8; 32]>>,
))
    requires
        access_roll_answers(state, result),
        lone_row_is_read(result),
    ensures
        res.1 matches PoolStep::Run(query) ==> access_roll_awaits(res.0, query),
        res.1 is Finish ==> res.0 is Done,
        match state {
            AccessRollState::FindingOwner { new_token } => match access_owner(
                rows_view(result->Users_0),
            ) {
                Some(owner) => res.0 == (AccessRollState::Storing { new_token }) && res.1@
                    == PoolStepView::<Option<[u8; 32]>>::Run(
                    insert_token_statement(owner, false, new_token@),
                ),
                None => res == (AccessRollState::Done, PoolStep::<Option<[u8; 32]>>::Finish(None)),
            },
            AccessRollState::Storing { new_token } => res == (
                AccessRollState::Done,
                PoolStep::Finish(Some(new_token)),
            ),
            AccessRollState::Done => false,
        },
{
    match state {
        AccessRollState::FindingOwner { new_token } => {
            let owner = match result {
                StatementResult::Users(Ok(mut rows)) => {
                    if rows.len() == 1 {
                        match rows.pop() {
                            Some(Ok(owner)) => owner,
                            _ => vstd::pervasive::unreached(),
                        }
                    } else {
                        return (AccessRollState::Done, PoolStep::Finish(None));
                    }
                },
                StatementResult::Users(Err(_)) => {
                    return (AccessRollState::Done, PoolStep::Finish(None));
                },
                StatementResult::Executed(_) => vstd::pervasive::unreached(),
            };
            (
                AccessRollState::Storing { new_token },
                PoolStep::Run(Query::insert_token(owner, false, &new_token)),
            )
        },
        AccessRollState::Storing { new_token } => (
            AccessRollState::Done,
            PoolStep::Finish(Some(new_token)),
        ),
        AccessRollState::Done => vstd::pervasive::unreached(),
    }
}

/// The answer to revoking a user's tokens (`Query::DeleteUserTokens`):
/// `Ok(true)` once removed, `Err(false)` when the statement failed.
pub fn revoke_outcome(result: Result<(), sqlx::Error>) -> (res: Result<bool, bool>)
    ensures
        res == (if result is Ok {
            Ok::<bool, bool>(true)
        } else {
            Err::<bool, bool>(false)
        }),
{
    match result {
        Ok(()) => Ok(true),
        Err(_) => Err(false),
    }
}

} // verus!
