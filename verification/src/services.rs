//! The login exchange: checking credentials, then issuing a refresh token and
//! an access token, each stored in the database under its hashed key.
//!
//! The exchange is a state machine. `login_start` opens it; each
//! `login_step` takes what the last requested database operation gave and
//! says what to do next, until the reply to the client is known.
use vstd::prelude::*;

use crate::datatypes::{ClientMessage, ClientPayload, DbError, ServerMessage, ServerPayload};
use crate::tokens::draw_token;

verus! {

/// Where a login exchange stands.
#[derive(Debug, PartialEq, Eq)]
pub enum LoginState {
    /// Waiting for the credentials to be checked.
    CheckingPassword,
    /// Waiting for the new refresh token to be stored.
    StoringRefreshToken,
    /// Waiting for the owner of the stored refresh token to be looked up.
    FindingTokenOwner { refresh_token: [u8; 32] },
    /// Waiting for the new access token to be stored.
    StoringAccessToken { refresh_token: [u8; 32] },
    /// The reply is known; the exchange is over.
    Replied,
}

/// What the exchange asks for next.
#[derive(Debug, PartialEq, Eq)]
pub enum LoginAction {
    /// Check a name and password against the users table.
    CheckPassword { name: String, password: String },
    /// Store a new refresh token for a user.
    StoreRefreshToken { user: u32, token: [u8; 32] },
    /// Look up the owner of a refresh token.
    FindRefreshTokenOwner { refresh_token: [u8; 32] },
    /// Store a new access token for a user.
    StoreAccessToken { user: u32, token: [u8; 32] },
    /// Send this reply to the client.
    Reply(ServerPayload),
}

/// What a requested database operation gave.
#[derive(Debug)]
pub enum LoginEvent {
    PasswordChecked(Result<u32, DbError>),
    RefreshTokenStored(Result<[u8; 32], DbError>),
    TokenOwnerFound(Result<u32, DbError>),
    AccessTokenStored(Result<[u8; 32], DbError>),
}

/// The reply to credentials that do not check out.
pub open spec fn rejected_login() -> ServerPayload {
    ServerPayload::ConfirmLogin { success: false, refresh_token: None, access_token: None }
}

/// The reply to a login that issued both tokens.
pub open spec fn accepted_login(refresh_token: [u8; 32], access_token: [u8; 32]) -> ServerPayload {
    ServerPayload::ConfirmLogin {
        success: true,
        refresh_token: Some(refresh_token),
        access_token: Some(access_token),
    }
}

/// Whether `event` answers the operation that `state` waits for.
pub open spec fn answers(state: LoginState, event: LoginEvent) -> bool {
    match (state, event) {
        (LoginState::CheckingPassword, LoginEvent::PasswordChecked(_)) => true,
        (LoginState::StoringRefreshToken, LoginEvent::RefreshTokenStored(_)) => true,
        (LoginState::FindingTokenOwner { .. }, LoginEvent::TokenOwnerFound(_)) => true,
        (LoginState::StoringAccessToken { .. }, LoginEvent::AccessTokenStored(_)) => true,
        _ => false,
    }
}

/// Whether `state` waits for the outcome of `action`: the event that reports
/// how the requested operation went is then the one `state` answers to, and
/// a reply leaves the exchange over.
pub open spec fn awaits(state: LoginState, action: LoginAction) -> bool {
    match action {
        LoginAction::CheckPassword { .. } => state is CheckingPassword,
        LoginAction::StoreRefreshToken { .. } => state is StoringRefreshToken,
        LoginAction::FindRefreshTokenOwner { refresh_token } => state == (
        LoginState::FindingTokenOwner { refresh_token }),
        LoginAction::StoreAccessToken { .. } => state is StoringAccessToken,
        LoginAction::Reply(_) => state is Replied,
    }
}

/// Whether `event` is the kind of event that reports how `action` went.
pub open spec fn reports(action: LoginAction, event: LoginEvent) -> bool {
    match (action, event) {
        (LoginAction::CheckPassword { .. }, LoginEvent::PasswordChecked(_)) => true,
        (LoginAction::StoreRefreshToken { .. }, LoginEvent::RefreshTokenStored(_)) => true,
        (LoginAction::FindRefreshTokenOwner { .. }, LoginEvent::TokenOwnerFound(_)) => true,
        (LoginAction::StoreAccessToken { .. }, LoginEvent::AccessTokenStored(_)) => true,
        _ => false,
    }
}

/// Whether the step taken on `event` draws a new token: after the credentials
/// check out, and after the refresh token's owner is found.
pub open spec fn draws_token(state: LoginState, event: LoginEvent) -> bool {
    ||| (state is CheckingPassword && event matches LoginEvent::PasswordChecked(Ok(_)))
    ||| (state is FindingTokenOwner && event matches LoginEvent::TokenOwnerFound(Ok(_)))
}

/// The step of the exchange from `state` on `event`, `drawn` being the token
/// drawn for it (`None` when the step draws none).
pub open spec fn spec_login_step(
    state: LoginState,
    event: LoginEvent,
    drawn: Option<Result<[u8; 32], rand::rngs::SysError>>,
) -> (LoginState, LoginAction) {
    match (state, event) {
        (LoginState::CheckingPassword, LoginEvent::PasswordChecked(Err(_))) => (
            LoginState::Replied,
            LoginAction::Reply(rejected_login()),
        ),
        (LoginState::CheckingPassword, LoginEvent::PasswordChecked(Ok(user))) => match drawn {
            Some(Ok(token)) => (
                LoginState::StoringRefreshToken,
                LoginAction::StoreRefreshToken { user, token },
            ),
            _ => (LoginState::Replied, LoginAction::Reply(ServerPayload::UnknownError)),
        },
        (LoginState::StoringRefreshToken, LoginEvent::RefreshTokenStored(Ok(refresh_token))) => (
            LoginState::FindingTokenOwner { refresh_token },
            LoginAction::FindRefreshTokenOwner { refresh_token },
        ),
        (
            LoginState::FindingTokenOwner { refresh_token },
            LoginEvent::TokenOwnerFound(Ok(owner)),
        ) => match drawn {
            Some(Ok(token)) => (
                LoginState::StoringAccessToken { refresh_token },
                LoginAction::StoreAccessToken { user: owner, token },
            ),
            _ => (LoginState::Replied, LoginAction::Reply(ServerPayload::UnknownError)),
        },
        (
            LoginState::StoringAccessToken { refresh_token },
            LoginEvent::AccessTokenStored(Ok(access_token)),
        ) => (LoginState::Replied, LoginAction::Reply(accepted_login(refresh_token, access_token))),
        _ => (LoginState::Replied, LoginAction::Reply(ServerPayload::UnknownError)),
    }
}

/// Opens a login exchange: the credentials are checked first.
pub fn login_start(name: String, password: String) -> (res: (LoginState, LoginAction))
    ensures
        res == (LoginState::CheckingPassword, LoginAction::CheckPassword { name, password }),
        awaits(res.0, res.1),
{
    (LoginState::CheckingPassword, LoginAction::CheckPassword { name, password })
}

/// The step of the exchange from `state` on `event`, with `drawn` the token
/// drawn for it when it draws one.
pub fn login_step_with(
    state: LoginState,
    event: LoginEvent,
    drawn: Option<Result<[u8; 32], rand::rngs::SysError>>,
) -> (res: (LoginState, LoginAction))
    requires
        answers(state, event),
    ensures
        res == spec_login_step(state, event, drawn),
        awaits(res.0, res.1),
{
    match state {
        LoginState::CheckingPassword => match event {
            LoginEvent::PasswordChecked(Err(_)) => (
                LoginState::Replied,
                LoginAction::Reply(
                    ServerPayload::ConfirmLogin {
                        success: false,
                        refresh_token: None,
                        access_token: None,
                    },
                ),
            ),
            LoginEvent::PasswordChecked(Ok(user)) => match drawn {
                Some(Ok(token)) => (
                    LoginState::StoringRefreshToken,
                    LoginAction::StoreRefreshToken { user, token },
                ),
                _ => (LoginState::Replied, LoginAction::Reply(ServerPayload::UnknownError)),
            },
            _ => (LoginState::Replied, LoginAction::Reply(ServerPayload::UnknownError)),
        },
        LoginState::StoringRefreshToken => match event {
            LoginEvent::RefreshTokenStored(Ok(refresh_token)) => (
                LoginState::FindingTokenOwner { refresh_token },
                LoginAction::FindRefreshTokenOwner { refresh_token },
            ),
            _ => (LoginState::Replied, LoginAction::Reply(ServerPayload::UnknownError)),
        },
        LoginState::FindingTokenOwner { refresh_token } => match event {
            LoginEvent::TokenOwnerFound(Ok(owner)) => match drawn {
                Some(Ok(token)) => (
                    LoginState::StoringAccessToken { refresh_token },
                    LoginAction::StoreAccessToken { user: owner, token },
                ),
                _ => (LoginState::Replied, LoginAction::Reply(ServerPayload::UnknownError)),
            },
            _ => (LoginState::Replied, LoginAction::Reply(ServerPayload::UnknownError)),
        },
        LoginState::StoringAccessToken { refresh_token } => match event {
            LoginEvent::AccessTokenStored(Ok(access_token)) => (
                LoginState::Replied,
                LoginAction::Reply(
                    ServerPayload::ConfirmLogin {
                        success: true,
                        refresh_token: Some(refresh_token),
                        access_token: Some(access_token),
                    },
                ),
            ),
            _ => (LoginState::Replied, LoginAction::Reply(ServerPayload::UnknownError)),
        },
        LoginState::Replied => (LoginState::Replied, LoginAction::Reply(ServerPayload::UnknownError)),
    }
}

/// Takes the step of the exchange from `state` on `event`, drawing a new
/// token from the operating system's random source when the step needs one.
/// A drawn token is stored before it is handed to the client; when drawing
/// fails the client is told of an unknown error.
pub fn login_step(state: LoginState, event: LoginEvent) -> (res: (LoginState, LoginAction))
    requires
        answers(state, event),
    ensures
        awaits(res.0, res.1),
        !draws_token(state, event) ==> res == spec_login_step(state, event, None),
        draws_token(state, event) ==> exists|drawn: Result<[u8; 32], rand::rngs::SysError>|
            res == spec_login_step(state, event, Some(drawn)),
{
    let draws = match (&state, &event) {
        (LoginState::CheckingPassword, LoginEvent::PasswordChecked(Ok(_))) => true,
        (LoginState::FindingTokenOwner { .. }, LoginEvent::TokenOwnerFound(Ok(_))) => true,
        _ => false,
    };
    if draws {
        let drawn = draw_token();
        let res = login_step_with(state, event, Some(drawn));
        assert(res == spec_login_step(state, event, Some(drawn)));
        res
    } else {
        login_step_with(state, event, None)
    }
}

/// The message that answers a login request, stamped with `timestamp`.
pub fn login_reply(payload: ServerPayload, timestamp: u32) -> (message: ServerMessage)
    ensures
        message == (ServerMessage { id: 0, timestamp, payload }),
{
    ServerMessage { id: 0, timestamp, payload }
}

/// The credentials of a login request, or `None` when the message asks for
/// something else (which the login endpoint refuses).
pub fn login_credentials(message: ClientMessage) -> (credentials: Option<(String, String)>)
    ensures
        match message.payload {
            ClientPayload::Login { name, password } => credentials == Some((name, password)),
            _ => credentials is None,
        },
{
    match message.payload {
        ClientPayload::Login { name, password } => Some((name, password)),
        _ => None,
    }
}

/// How far a state is from the end of the exchange.
pub open spec fn steps_left(state: LoginState) -> nat {
    match state {
        LoginState::CheckingPassword => 4,
        LoginState::StoringRefreshToken => 3,
        LoginState::FindingTokenOwner { .. } => 2,
        LoginState::StoringAccessToken { .. } => 1,
        LoginState::Replied => 0,
    }
}

/// Every step brings the exchange closer to its end, and the exchange has
/// replied exactly when it has ended: a login needs at most four database
/// operations, and its last step yields the reply.
pub proof fn login_always_progresses(
    state: LoginState,
    event: LoginEvent,
    drawn: Option<Result<[u8; 32], rand::rngs::SysError>>,
)
    requires
        answers(state, event),
    ensures
        steps_left(spec_login_step(state, event, drawn).0) < steps_left(state),
        (spec_login_step(state, event, drawn).0 is Replied) <==> (spec_login_step(
            state,
            event,
            drawn,
        ).1 is Reply),
{
}

/// The exchange always waits for what it asked for: after any step, the
/// event that reports how the requested operation went is one the new state
/// answers to. (This is what lets a runner feed each outcome straight back.)
pub proof fn steps_await_their_actions(
    state: LoginState,
    event: LoginEvent,
    drawn: Option<Result<[u8; 32], rand::rngs::SysError>>,
    next_event: LoginEvent,
)
    requires
        answers(state, event),
    ensures
        awaits(spec_login_step(state, event, drawn).0, spec_login_step(state, event, drawn).1),
        reports(spec_login_step(state, event, drawn).1, next_event) ==> answers(
            spec_login_step(state, event, drawn).0,
            next_event,
        ),
{
}

/// Credentials that do not check out are refused, and nothing is stored.
pub proof fn bad_credentials_are_refused(error: DbError)
    ensures
        spec_login_step(LoginState::CheckingPassword, LoginEvent::PasswordChecked(Err(error)), None)
            == (LoginState::Replied, LoginAction::Reply(rejected_login())),
{
}

/// Once the credentials check out, any failure (of the random source or of
/// the database) ends the exchange with an unknown error, never a refusal
/// and never tokens.
pub proof fn later_failures_are_unknown_errors(
    state: LoginState,
    event: LoginEvent,
    drawn: Option<Result<[u8; 32], rand::rngs::SysError>>,
)
    requires
        answers(state, event),
        !(state is CheckingPassword && event matches LoginEvent::PasswordChecked(Err(_))),
        ({
            ||| event matches LoginEvent::PasswordChecked(Ok(_)) && !(drawn matches Some(Ok(_)))
            ||| event matches LoginEvent::RefreshTokenStored(Err(_))
            ||| event matches LoginEvent::TokenOwnerFound(Err(_))
            ||| event matches LoginEvent::TokenOwnerFound(Ok(_)) && !(drawn matches Some(Ok(_)))
            ||| event matches LoginEvent::AccessTokenStored(Err(_))
        }),
    ensures
        spec_login_step(state, event, drawn) == (
            LoginState::Replied,
            LoginAction::Reply(ServerPayload::UnknownError),
        ),
{
}

/// A login whose credentials name `user`, whose drawn tokens `refresh` and
/// `access` are stored without error (the database hands each back once
/// stored), and whose refresh token is found to belong to `owner`, asks to
/// store `refresh` for `user`, then to look it up, then to store `access` for
/// `owner`, and replies with exactly those two tokens.
pub proof fn accepted_login_hands_out_the_stored_tokens(
    user: u32,
    owner: u32,
    refresh: [u8; 32],
    access: [u8; 32],
)
    ensures
        ({
            let (s1, a1) = spec_login_step(
                LoginState::CheckingPassword,
                LoginEvent::PasswordChecked(Ok(user)),
                Some(Ok(refresh)),
            );
            let (s2, a2) = spec_login_step(s1, LoginEvent::RefreshTokenStored(Ok(refresh)), None);
            let (s3, a3) = spec_login_step(s2, LoginEvent::TokenOwnerFound(Ok(owner)), Some(Ok(access)));
            let (s4, a4) = spec_login_step(s3, LoginEvent::AccessTokenStored(Ok(access)), None);
            &&& a1 == LoginAction::StoreRefreshToken { user, token: refresh }
            &&& a2 == LoginAction::FindRefreshTokenOwner { refresh_token: refresh }
            &&& a3 == LoginAction::StoreAccessToken { user: owner, token: access }
            &&& a4 == LoginAction::Reply(accepted_login(refresh, access))
            &&& s4 is Replied
        }),
{
}

} // verus!
