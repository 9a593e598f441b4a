//! Issuing tokens through the database layer: a refresh token for a user, or
//! an access token for the owner of a refresh token.
//!
//! Each is a state machine: it asks for a database operation (`RollAction`),
//! is told how it went (`RollEvent`), and finishes with the token handed out
//! (unhashed) or the error that stopped it.
use vstd::prelude::*;

use crate::datatypes::DbError;
use crate::tokens::draw_token;

verus! {

/// Where issuing a token stands.
#[derive(Debug, PartialEq, Eq)]
pub enum RollState {
    /// Waiting for the owner of the refresh token to be looked up.
    FindingOwner,
    /// Waiting for the new token to be stored.
    Storing,
    /// Over.
    Done,
}

/// What issuing a token asks for next.
#[derive(Debug)]
pub enum RollAction {
    /// Look up the owner of a refresh token.
    FindRefreshTokenOwner { refresh_token: [u8; 32] },
    /// Store a new token (its hashed key) for a user.
    StoreToken { user: u32, refresh: bool, token: [u8; 32] },
    /// Over: the token handed out, or the error.
    Finish(Result<[u8; 32], DbError>),
}

/// How a requested operation went.
#[derive(Debug)]
pub enum RollEvent {
    OwnerFound(Result<u32, DbError>),
    TokenStored(Result<[u8; 32], DbError>),
}

/// Storing a freshly drawn token for `user`, or, when drawing failed, the end
/// with a `TokenRngFailure`.
pub open spec fn spec_store_drawn(
    user: u32,
    refresh: bool,
    drawn: Result<[u8; 32], rand::rngs::SysError>,
) -> (RollState, RollAction) {
    match drawn {
        Ok(token) => (RollState::Storing, RollAction::StoreToken { user, refresh, token }),
        Err(e) => (RollState::Done, RollAction::Finish(Err(DbError::TokenRngFailure(e)))),
    }
}

fn store_drawn(user: u32, refresh: bool, drawn: Result<[u8; 32], rand::rngs::SysError>) -> (res: (
    RollState,
    RollAction,
))
    ensures
        res == spec_store_drawn(user, refresh, drawn),
{
    match drawn {
        Ok(token) => (RollState::Storing, RollAction::StoreToken { user, refresh, token }),
        Err(e) => (RollState::Done, RollAction::Finish(Err(DbError::TokenRngFailure(e)))),
    }
}

/// Starts issuing a refresh token for `user`, with `drawn` the token drawn for
/// it: the token is stored, or drawing failed and that is the answer.
pub fn refresh_roll_start_with(user: u32, drawn: Result<[u8; 32], rand::rngs::SysError>) -> (res: (
    RollState,
    RollAction,
))
    ensures
        res == spec_store_drawn(user, true, drawn),
{
    store_drawn(user, true, drawn)
}

/// Starts issuing a refresh token for `user`, drawing it from the operating
/// system's random source.
pub fn refresh_roll_start(user: u32) -> (res: (RollState, RollAction))
    ensures
        exists|drawn: Result<[u8; 32], rand::rngs::SysError>|
            res == spec_store_drawn(user, true, drawn),
{
    let drawn = draw_token();
    refresh_roll_start_with(user, drawn)
}

/// Starts issuing an access token for the owner of `refresh_token`: the owner
/// is looked up first.
pub fn access_roll_begin(refresh_token: [u8; 32]) -> (res: (RollState, RollAction))
    ensures
        res == (RollState::FindingOwner, RollAction::FindRefreshTokenOwner { refresh_token }),
{
    (RollState::FindingOwner, RollAction::FindRefreshTokenOwner { refresh_token })
}

/// Whether `event` answers what `state` waits for.
pub open spec fn roll_answers(state: RollState, event: RollEvent) -> bool {
    match (state, event) {
        (RollState::FindingOwner, RollEvent::OwnerFound(_)) => true,
        (RollState::Storing, RollEvent::TokenStored(_)) => true,
        _ => false,
    }
}

/// Whether the step on `event` draws a token: once the owner is found.
pub open spec fn roll_draws(state: RollState, event: RollEvent) -> bool {
    state is FindingOwner && event matches RollEvent::OwnerFound(Ok(_))
}

/// The step of issuing a token, `drawn` being the token drawn for it when it
/// draws one: a found owner gets a new access token stored (or the draw's
/// failure ends it); a failed lookup ends with its error; storing ends with
/// what storing gave, which is the token itself once stored.
pub open spec fn spec_roll_step(
    state: RollState,
    event: RollEvent,
    drawn: Option<Result<[u8; 32], rand::rngs::SysError>>,
) -> (RollState, RollAction) {
    match (state, event) {
        (RollState::FindingOwner, RollEvent::OwnerFound(Ok(owner))) => match drawn {
            Some(d) => spec_store_drawn(owner, false, d),
            None => (RollState::Done, RollAction::Finish(Err(DbError::Error))),
        },
        (RollState::FindingOwner, RollEvent::OwnerFound(Err(e))) => (
            RollState::Done,
            RollAction::Finish(Err(e)),
        ),
        (RollState::Storing, RollEvent::TokenStored(stored)) => (
            RollState::Done,
            RollAction::Finish(stored),
        ),
        _ => (RollState::Done, RollAction::Finish(Err(DbError::Error))),
    }
}

/// The step of issuing a token, with `drawn` the token drawn for it when it
/// draws one.
pub fn roll_step_with(
    state: RollState,
    event: RollEvent,
    drawn: Option<Result<[u8; 32], rand::rngs::SysError>>,
) -> (res: (RollState, RollAction))
    requires
        roll_answers(state, event),
        roll_draws(state, event) <==> drawn is Some,
    ensures
        res == spec_roll_step(state, event, drawn),
{
    match state {
        RollState::FindingOwner => match event {
            RollEvent::OwnerFound(Ok(owner)) => match drawn {
                Some(d) => store_drawn(owner, false, d),
                None => vstd::pervasive::unreached(),
            },
            RollEvent::OwnerFound(Err(e)) => (RollState::Done, RollAction::Finish(Err(e))),
            RollEvent::TokenStored(_) => vstd::pervasive::unreached(),
        },
        RollState::Storing => match event {
            RollEvent::TokenStored(stored) => (RollState::Done, RollAction::Finish(stored)),
            RollEvent::OwnerFound(_) => vstd::pervasive::unreached(),
        },
        RollState::Done => vstd::pervasive::unreached(),
    }
}

/// Takes a step of issuing a token, drawing the new access token from the
/// operating system's random source once the owner is found.
pub fn roll_step(state: RollState, event: RollEvent) -> (res: (RollState, RollAction))
    requires
        roll_answers(state, event),
    ensures
        !roll_draws(state, event) ==> res == spec_roll_step(state, event, None),
        roll_draws(state, event) ==> exists|drawn: Result<[u8; 32], rand::rngs::SysError>|
            res == spec_roll_step(state, event, Some(drawn)),
{
    let draws = match (&state, &event) {
        (RollState::FindingOwner, RollEvent::OwnerFound(Ok(_))) => true,
        _ => false,
    };
    if draws {
        let drawn = draw_token();
        let res = roll_step_with(state, event, Some(drawn));
        assert(res == spec_roll_step(state, event, Some(drawn)));
        res
    } else {
        roll_step_with(state, event, None)
    }
}

/// Issuing a token always waits for what it asked for, and ends with its
/// answer: after a step, an operation is requested exactly when the state
/// waits for its outcome.
pub proof fn roll_steps_await_their_actions(
    state: RollState,
    event: RollEvent,
    drawn: Option<Result<[u8; 32], rand::rngs::SysError>>,
)
    requires
        roll_answers(state, event),
    ensures
        ({
            let (next, action) = spec_roll_step(state, event, drawn);
            &&& (action is StoreToken <==> next is Storing)
            &&& (action is Finish <==> next is Done)
            &&& !(action is FindRefreshTokenOwner)
        }),
{
}

/// An access token is issued exactly as the documentation of the operation
/// says: for the owner of the refresh token, stored hashed, and handed out
/// unhashed once stored; a lookup that fails ends with its error.
pub proof fn access_token_goes_to_the_refresh_tokens_owner(owner: u32, token: [u8; 32])
    ensures
        ({
            let (s1, a1) = spec_roll_step(
                RollState::FindingOwner,
                RollEvent::OwnerFound(Ok(owner)),
                Some(Ok(token)),
            );
            let (s2, a2) = spec_roll_step(s1, RollEvent::TokenStored(Ok(token)), None);
            &&& a1 == RollAction::StoreToken { user: owner, refresh: false, token }
            &&& a2 == RollAction::Finish(Ok(token))
            &&& s2 is Done
        }),
{
}

} // verus!
