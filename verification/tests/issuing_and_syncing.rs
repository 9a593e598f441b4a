use preaching_partner_server::auth::{
    access_roll_begin, refresh_roll_start, refresh_roll_start_with, roll_step, roll_step_with,
    RollAction, RollEvent, RollState,
};
use preaching_partner_server::database::outcomes::{batch_next, logout_answer, BatchStep};
use preaching_partner_server::datatypes::{
    AddressDetails, CongDetails, DbError, GroupDetails, MapDetails, ServerPayload,
};
use preaching_partner_server::sync::{
    attach_images, sync_start, sync_step, GroupCleanup, SyncAction, SyncEvent, SyncStage,
};

fn failure() -> DbError {
    DbError::QueryFailure(sqlx::Error::RowNotFound)
}

#[test]
fn refresh_token_is_stored_then_handed_out() {
    let (state, action) = refresh_roll_start_with(4, Ok([7; 32]));
    assert_eq!(state, RollState::Storing);
    assert!(matches!(action, RollAction::StoreToken { user: 4, refresh: true, token } if token == [7; 32]));
    let (state, action) = roll_step(state, RollEvent::TokenStored(Ok([7; 32])));
    assert_eq!(state, RollState::Done);
    assert!(matches!(action, RollAction::Finish(Ok(t)) if t == [7; 32]));
}

#[test]
fn a_failed_draw_is_a_token_rng_failure() {
    let (state, action) = refresh_roll_start_with(4, Err(rand::rngs::SysError::UNEXPECTED));
    assert_eq!(state, RollState::Done);
    assert!(matches!(action, RollAction::Finish(Err(DbError::TokenRngFailure(_)))));
    let (_, action) = roll_step_with(
        RollState::FindingOwner,
        RollEvent::OwnerFound(Ok(2)),
        Some(Err(rand::rngs::SysError::UNSUPPORTED)),
    );
    assert!(matches!(action, RollAction::Finish(Err(DbError::TokenRngFailure(_)))));
}

#[test]
fn a_drawn_refresh_token_is_stored() {
    let (state, action) = refresh_roll_start(9);
    assert_eq!(state, RollState::Storing);
    assert!(matches!(action, RollAction::StoreToken { user: 9, refresh: true, .. }));
}

#[test]
fn access_token_goes_to_the_refresh_tokens_owner() {
    let (state, action) = access_roll_begin([1; 32]);
    assert_eq!(state, RollState::FindingOwner);
    assert!(matches!(action, RollAction::FindRefreshTokenOwner { refresh_token } if refresh_token == [1; 32]));
    let (state, action) = roll_step(state, RollEvent::OwnerFound(Ok(6)));
    let token = match action {
        RollAction::StoreToken { user: 6, refresh: false, token } => token,
        other => panic!("unexpected action {:?}", other),
    };
    let (_, action) = roll_step(state, RollEvent::TokenStored(Ok(token)));
    assert!(matches!(action, RollAction::Finish(Ok(t)) if t == token));
}

#[test]
fn a_failed_owner_lookup_ends_with_its_error() {
    let (state, _) = access_roll_begin([1; 32]);
    let (state, action) = roll_step(state, RollEvent::OwnerFound(Err(DbError::InvalidToken(0))));
    assert_eq!(state, RollState::Done);
    assert!(matches!(action, RollAction::Finish(Err(DbError::InvalidToken(0)))));
}

#[test]
fn statements_run_in_order_until_one_fails() {
    assert!(matches!(batch_next(2, 0, Ok(())), BatchStep::Run(0)));
    assert!(matches!(batch_next(2, 1, Ok(())), BatchStep::Run(1)));
    assert!(matches!(batch_next(2, 2, Ok(())), BatchStep::Finish(Ok(()))));
    assert!(matches!(
        batch_next(2, 1, Err(sqlx::Error::RowNotFound)),
        BatchStep::Finish(Err(DbError::QueryFailure(_)))
    ));
    assert!(matches!(batch_next(0, 0, Ok(())), BatchStep::Finish(Ok(()))));
    assert_eq!(logout_answer(Ok(())).unwrap(), true);
    assert!(matches!(logout_answer(Err(failure())), Err(DbError::QueryFailure(_))));
}

#[test]
fn images_are_attached_in_order() {
    let map = |id: u32| MapDetails {
        id,
        name: String::new(),
        image_name: format!("{}.png", id),
        assignee: 0,
        assigner: 0,
        image: None,
        category: 0,
        deleted: false,
    };
    let complete = attach_images(vec![map(1), map(2)], vec![Some(vec![1]), None]);
    assert_eq!(complete, vec![MapDetails { image: Some(vec![1]), ..map(1) }, map(2)]);
}

fn cong(id: u32) -> CongDetails {
    CongDetails { cong_id: id, cong_name: String::new(), remove: false, updated: 0 }
}

#[test]
fn sync_gathers_in_order_and_sends_everything() {
    let (state, action) = sync_start(5, 100, 777);
    assert!(matches!(action, SyncAction::FetchCongregations { user_id: 5 }));
    let (state, action) = sync_step(state, SyncEvent::Congregations(Ok(vec![cong(1)])));
    assert!(matches!(action, SyncAction::FetchCategories { last_sync: 100 }));
    let (state, action) = sync_step(state, SyncEvent::Categories(Ok(vec![])));
    assert!(matches!(action, SyncAction::FetchGroups { user_id: 5 }));
    let groups = vec![GroupDetails {
        id: 3,
        name: String::new(),
        cong: 1,
        elder: 1,
        updated: 200,
        group_deleted: true,
        pair_deleted: true,
    }];
    let (state, action) = sync_step(state, SyncEvent::Groups(Ok(groups)));
    assert!(matches!(
        action,
        SyncAction::Tidy(GroupCleanup::RemoveMembership { user_id: 5, group_id: 3 })
    ));
    let (state, action) = sync_step(state, SyncEvent::Tidied(Ok(())));
    assert!(matches!(action, SyncAction::Tidy(GroupCleanup::RemoveGroupIfUnused { group_id: 3 })));
    let (state, action) = sync_step(state, SyncEvent::Tidied(Ok(())));
    assert!(matches!(action, SyncAction::FetchUsers { last_sync: 100, user_id: 5 }));
    let (state, action) = sync_step(state, SyncEvent::Users(Ok(vec![])));
    assert!(matches!(action, SyncAction::FetchMaps { user_id: 5, last_sync: 100 }));
    let map = MapDetails {
        id: 8,
        name: "North".to_string(),
        image_name: "north.png".to_string(),
        assignee: 1,
        assigner: 2,
        image: None,
        category: 1,
        deleted: false,
    };
    let (state, action) = sync_step(state, SyncEvent::Maps(Ok(vec![map])));
    assert!(matches!(&action, SyncAction::ReadMapImage { image_name } if image_name == "north.png"));
    assert_eq!(state.stage, SyncStage::MapImages);
    let (state, action) = sync_step(state, SyncEvent::MapImage(Some(vec![9, 9])));
    assert!(matches!(action, SyncAction::FetchStreets));
    let (state, action) = sync_step(state, SyncEvent::Streets(Ok(vec![])));
    assert!(matches!(action, SyncAction::FetchAddresses));
    let address = AddressDetails {
        id: 1,
        street_id: 1,
        number: "1".to_string(),
        tags: vec![],
        visited: false,
        deleted: false,
    };
    let (state, action) = sync_step(state, SyncEvent::Addresses(Ok(vec![address])));
    assert_eq!(state.stage, SyncStage::Done);
    match action {
        SyncAction::Send(message) => {
            assert_eq!(message.id, 5);
            assert_eq!(message.timestamp, 777);
            match message.payload {
                ServerPayload::SyncInformation(info) => {
                    assert_eq!(info.congregations, vec![cong(1)]);
                    assert_eq!(info.service_groups.len(), 1);
                    assert_eq!(info.maps.len(), 1);
                    assert_eq!(info.maps[0].image, Some(vec![9, 9]));
                    assert_eq!(info.maps[0].name, "North");
                    assert_eq!(info.addresses.len(), 1);
                }
                other => panic!("unexpected payload {:?}", other),
            }
        }
        other => panic!("unexpected action {:?}", other),
    }
}

#[test]
fn sync_stops_at_the_first_failure() {
    let (state, _) = sync_start(5, 100, 777);
    let (state, action) = sync_step(state, SyncEvent::Congregations(Ok(vec![])));
    assert!(matches!(action, SyncAction::FetchCategories { .. }));
    let (state, action) = sync_step(state, SyncEvent::Categories(Err(failure())));
    assert_eq!(state.stage, SyncStage::Done);
    assert!(matches!(action, SyncAction::Fail(DbError::QueryFailure(_))));
}

#[test]
fn sync_without_groups_to_tidy_or_maps_goes_straight_on() {
    let (state, _) = sync_start(5, 100, 777);
    let (state, _) = sync_step(state, SyncEvent::Congregations(Ok(vec![])));
    let (state, _) = sync_step(state, SyncEvent::Categories(Ok(vec![])));
    let (state, action) = sync_step(state, SyncEvent::Groups(Ok(vec![])));
    assert!(matches!(action, SyncAction::FetchUsers { .. }));
    let (state, _) = sync_step(state, SyncEvent::Users(Ok(vec![])));
    let (_, action) = sync_step(state, SyncEvent::Maps(Ok(vec![])));
    assert!(matches!(action, SyncAction::FetchStreets));
}
