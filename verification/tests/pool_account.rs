use preaching_partner_server::account::{
    access_roll_start, access_roll_step, credentials_outcome, logout_start, logout_step,
    refresh_token_roll, revoke_outcome, AccessRollState, LogoutState, PoolStep, StatementResult,
};
use preaching_partner_server::database::queries::Query;
use preaching_partner_server::tokens::hashed_key;

#[test]
fn credentials_need_exactly_one_user() {
    assert_eq!(credentials_outcome(Ok(vec![Ok(4)])), Ok(4));
    assert_eq!(credentials_outcome(Ok(vec![])), Err(false));
    assert_eq!(credentials_outcome(Ok(vec![Ok(4), Ok(5)])), Err(false));
    assert_eq!(credentials_outcome(Err(sqlx::Error::RowNotFound)), Err(false));
}

#[test]
fn logout_removes_refresh_then_access_tokens() {
    let refresh = [3u8; 32];
    let (state, step) = logout_start(refresh);
    assert_eq!(step, PoolStep::Run(Query::RefreshTokenOwner { key: hashed_key(&refresh) }));
    let (state, step) = logout_step(state, StatementResult::Users(Ok(vec![Ok(6)])));
    assert_eq!(state, LogoutState::RemovingRefreshToken { owner: 6 });
    assert_eq!(step, PoolStep::Run(Query::DeleteToken { key: hashed_key(&refresh) }));
    let (state, step) = logout_step(state, StatementResult::Executed(Ok(())));
    assert_eq!(step, PoolStep::Run(Query::DeleteAccessTokensOfUser { user: 6 }));
    let (state, step) = logout_step(state, StatementResult::Executed(Ok(())));
    assert_eq!(state, LogoutState::Done);
    assert_eq!(step, PoolStep::Finish(Ok(true)));
}

#[test]
fn logout_with_a_failed_lookup_removes_nothing() {
    let (state, _) = logout_start([3u8; 32]);
    let (state, step) = logout_step(state, StatementResult::Users(Err(sqlx::Error::RowNotFound)));
    assert_eq!(state, LogoutState::Done);
    assert_eq!(step, PoolStep::Finish(Err(false)));
}

#[test]
fn logout_stops_on_an_unknown_token_or_a_failed_removal() {
    let (state, _) = logout_start([3u8; 32]);
    let (_, step) = logout_step(state, StatementResult::Users(Ok(vec![])));
    assert_eq!(step, PoolStep::Finish(Err(false)));
    let (_, step) = logout_step(
        LogoutState::RemovingRefreshToken { owner: 1 },
        StatementResult::Executed(Err(sqlx::Error::RowNotFound)),
    );
    assert_eq!(step, PoolStep::Finish(Err(false)));
    let (_, step) = logout_step(
        LogoutState::RemovingAccessTokens,
        StatementResult::Executed(Err(sqlx::Error::RowNotFound)),
    );
    assert_eq!(step, PoolStep::Finish(Err(false)));
}

#[test]
fn refresh_roll_stores_the_hashed_token() {
    let (token, query) = refresh_token_roll(11);
    assert_eq!(query, Query::InsertToken { user: 11, refresh: true, key: hashed_key(&token) });
}

#[test]
fn access_roll_issues_for_the_owner() {
    let refresh = [5u8; 32];
    let (state, step) = access_roll_start(refresh);
    assert_eq!(step, PoolStep::Run(Query::RefreshTokenOwner { key: hashed_key(&refresh) }));
    let new_token = match state {
        AccessRollState::FindingOwner { new_token } => new_token,
        other => panic!("unexpected state {:?}", other),
    };
    let (state, step) = access_roll_step(state, StatementResult::Users(Ok(vec![Ok(8)])));
    assert_eq!(state, AccessRollState::Storing { new_token });
    assert_eq!(step, PoolStep::Run(Query::InsertToken { user: 8, refresh: false, key: hashed_key(&new_token) }));
    let (state, step) = access_roll_step(state, StatementResult::Executed(Err(sqlx::Error::RowNotFound)));
    assert_eq!(state, AccessRollState::Done);
    assert_eq!(step, PoolStep::Finish(Some(new_token)));
}

#[test]
fn access_roll_without_an_owner_issues_nothing() {
    let (state, _) = access_roll_start([5u8; 32]);
    let (_, step) = access_roll_step(state, StatementResult::Users(Ok(vec![Ok(1), Ok(2)])));
    assert_eq!(step, PoolStep::Finish(None));
    let (state, _) = access_roll_start([5u8; 32]);
    let (state, step) = access_roll_step(state, StatementResult::Users(Err(sqlx::Error::RowNotFound)));
    assert_eq!(state, AccessRollState::Done);
    assert_eq!(step, PoolStep::Finish(None));
}

#[test]
fn revoking_reports_success_or_failure() {
    assert_eq!(revoke_outcome(Ok(())), Ok(true));
    assert_eq!(revoke_outcome(Err(sqlx::Error::RowNotFound)), Err(false));
}
