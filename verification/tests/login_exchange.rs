use preaching_partner_server::datatypes::{ClientMessage, ClientPayload, DbError, ServerMessage, ServerPayload};
use preaching_partner_server::services::{
    login_credentials, login_reply, login_start, login_step, login_step_with, LoginAction,
    LoginEvent, LoginState,
};

fn db_failure() -> DbError {
    DbError::QueryFailure(sqlx::Error::RowNotFound)
}

#[test]
fn login_starts_by_checking_the_password() {
    let (state, action) = login_start("ann".to_string(), "pw".to_string());
    assert_eq!(state, LoginState::CheckingPassword);
    assert_eq!(
        action,
        LoginAction::CheckPassword { name: "ann".to_string(), password: "pw".to_string() }
    );
}

#[test]
fn bad_credentials_are_refused() {
    let (state, action) =
        login_step(LoginState::CheckingPassword, LoginEvent::PasswordChecked(Err(DbError::InvalidToken(0))));
    assert_eq!(state, LoginState::Replied);
    assert_eq!(
        action,
        LoginAction::Reply(ServerPayload::ConfirmLogin {
            success: false,
            refresh_token: None,
            access_token: None,
        })
    );
}

#[test]
fn accepted_login_hands_out_the_stored_tokens() {
    let refresh = [1u8; 32];
    let access = [2u8; 32];
    let (s1, a1) = login_step_with(
        LoginState::CheckingPassword,
        LoginEvent::PasswordChecked(Ok(7)),
        Some(Ok(refresh)),
    );
    assert_eq!(a1, LoginAction::StoreRefreshToken { user: 7, token: refresh });
    let (s2, a2) = login_step_with(s1, LoginEvent::RefreshTokenStored(Ok(refresh)), None);
    assert_eq!(a2, LoginAction::FindRefreshTokenOwner { refresh_token: refresh });
    let (s3, a3) = login_step_with(s2, LoginEvent::TokenOwnerFound(Ok(7)), Some(Ok(access)));
    assert_eq!(a3, LoginAction::StoreAccessToken { user: 7, token: access });
    let (s4, a4) = login_step_with(s3, LoginEvent::AccessTokenStored(Ok(access)), None);
    assert_eq!(s4, LoginState::Replied);
    assert_eq!(
        a4,
        LoginAction::Reply(ServerPayload::ConfirmLogin {
            success: true,
            refresh_token: Some(refresh),
            access_token: Some(access),
        })
    );
}

#[test]
fn drawn_tokens_are_stored_before_they_are_handed_out() {
    let (s1, a1) = login_step(LoginState::CheckingPassword, LoginEvent::PasswordChecked(Ok(3)));
    let refresh = match a1 {
        LoginAction::StoreRefreshToken { user, token } => {
            assert_eq!(user, 3);
            token
        }
        other => panic!("unexpected action {:?}", other),
    };
    let (s2, _) = login_step(s1, LoginEvent::RefreshTokenStored(Ok(refresh)));
    let (s3, a3) = login_step(s2, LoginEvent::TokenOwnerFound(Ok(3)));
    let access = match a3 {
        LoginAction::StoreAccessToken { user, token } => {
            assert_eq!(user, 3);
            token
        }
        other => panic!("unexpected action {:?}", other),
    };
    assert_ne!(refresh, access);
    let (_, a4) = login_step(s3, LoginEvent::AccessTokenStored(Ok(access)));
    assert_eq!(
        a4,
        LoginAction::Reply(ServerPayload::ConfirmLogin {
            success: true,
            refresh_token: Some(refresh),
            access_token: Some(access),
        })
    );
}

#[test]
fn later_failures_are_unknown_errors() {
    let unknown = LoginAction::Reply(ServerPayload::UnknownError);
    let (_, a) = login_step_with(
        LoginState::CheckingPassword,
        LoginEvent::PasswordChecked(Ok(1)),
        Some(Err(rand::rngs::SysError::UNEXPECTED)),
    );
    assert_eq!(a, unknown);
    let (s, a) = login_step(LoginState::StoringRefreshToken, LoginEvent::RefreshTokenStored(Err(db_failure())));
    assert_eq!((s, a), (LoginState::Replied, LoginAction::Reply(ServerPayload::UnknownError)));
    let (_, a) = login_step(
        LoginState::FindingTokenOwner { refresh_token: [1; 32] },
        LoginEvent::TokenOwnerFound(Err(DbError::InvalidToken(2))),
    );
    assert_eq!(a, unknown);
    let (_, a) = login_step_with(
        LoginState::FindingTokenOwner { refresh_token: [1; 32] },
        LoginEvent::TokenOwnerFound(Ok(1)),
        Some(Err(rand::rngs::SysError::UNSUPPORTED)),
    );
    assert_eq!(a, unknown);
    let (_, a) = login_step(
        LoginState::StoringAccessToken { refresh_token: [1; 32] },
        LoginEvent::AccessTokenStored(Err(db_failure())),
    );
    assert_eq!(a, unknown);
}

#[test]
fn login_reply_has_id_zero() {
    assert_eq!(
        login_reply(ServerPayload::UnknownError, 1234),
        ServerMessage { id: 0, timestamp: 1234, payload: ServerPayload::UnknownError }
    );
}

#[test]
fn only_login_requests_carry_credentials() {
    let login = ClientMessage {
        id: 1,
        access_token: None,
        payload: ClientPayload::Login { name: "ann".to_string(), password: "pw".to_string() },
    };
    assert_eq!(login_credentials(login), Some(("ann".to_string(), "pw".to_string())));
    let sync = ClientMessage { id: 1, access_token: None, payload: ClientPayload::RequestSync(5) };
    assert_eq!(login_credentials(sync), None);
}
