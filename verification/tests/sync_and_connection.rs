use preaching_partner_server::authorise::check_permissions;
use preaching_partner_server::connection::{
    event_message, frame_action, ClientFrame, ConnectionAction, CONNECTION_USER,
};
use preaching_partner_server::datatypes::{
    ClientAction, ClientMessage, ClientPayload, GroupDetails, MapDetails, ServerEvent,
    ServerMessage, ServerPayload, SyncInformation,
};
use preaching_partner_server::sync::{
    map_image_path, service_group_cleanup, sync_message, with_image, GroupCleanup,
};

fn group(id: u32, updated: u32, pair_deleted: bool, group_deleted: bool) -> GroupDetails {
    GroupDetails {
        id,
        name: format!("group {}", id),
        cong: 1,
        elder: 2,
        updated,
        group_deleted,
        pair_deleted,
    }
}

fn map() -> MapDetails {
    MapDetails {
        id: 1,
        name: "Map".to_string(),
        image_name: "m.png".to_string(),
        assignee: 2,
        assigner: 3,
        image: None,
        category: 4,
        deleted: false,
    }
}

#[test]
fn only_deleted_memberships_changed_since_the_last_sync_are_tidied() {
    let groups = vec![
        group(1, 50, true, false),
        group(2, 50, true, true),
        group(3, 5, true, true),
        group(4, 50, false, true),
        group(5, 10, true, true),
    ];
    assert_eq!(
        service_group_cleanup(&groups, 9, 10),
        vec![
            GroupCleanup::RemoveMembership { user_id: 9, group_id: 1 },
            GroupCleanup::RemoveMembership { user_id: 9, group_id: 2 },
            GroupCleanup::RemoveGroupIfUnused { group_id: 2 },
        ]
    );
    assert!(service_group_cleanup(&vec![], 9, 10).is_empty());
}

#[test]
fn map_images_live_under_maps() {
    assert_eq!(map_image_path("north.png"), "maps/north.png");
    assert_eq!(map_image_path(""), "maps/");
}

#[test]
fn read_image_is_attached() {
    assert_eq!(with_image(map(), Some(vec![1, 2, 3])), MapDetails { image: Some(vec![1, 2, 3]), ..map() });
    assert_eq!(with_image(MapDetails { image: Some(vec![9]), ..map() }, None), map());
}

#[test]
fn sync_message_carries_everything() {
    let message = sync_message(4, 99, vec![], vec![], vec![group(1, 1, false, false)], vec![], vec![map()], vec![], vec![]);
    assert_eq!(
        message,
        ServerMessage {
            id: 4,
            timestamp: 99,
            payload: ServerPayload::SyncInformation(SyncInformation {
                congregations: vec![],
                categories: vec![],
                service_groups: vec![group(1, 1, false, false)],
                users: vec![],
                maps: vec![map()],
                streets: vec![],
                addresses: vec![],
            }),
        }
    );
}

fn message(payload: ClientPayload) -> ClientFrame {
    ClientFrame::Message(ClientMessage { id: 1, access_token: None, payload })
}

#[test]
fn client_frames_decide_the_connection() {
    assert_eq!(
        frame_action(message(ClientPayload::RequestSync(77))),
        ConnectionAction::Sync { last_sync: 77, user_id: CONNECTION_USER }
    );
    assert_eq!(CONNECTION_USER, 1);
    assert_eq!(
        frame_action(message(ClientPayload::CompleteAddress { id: 5, checked: true })),
        ConnectionAction::CompleteAddress {
            address_id: 5,
            checked: true,
            announce: ServerEvent::AddressCompleted { id: 5, checked: true },
        }
    );
    assert_eq!(
        frame_action(message(ClientPayload::Login { name: "a".to_string(), password: "b".to_string() })),
        ConnectionAction::Continue
    );
    assert_eq!(frame_action(message(ClientPayload::RequestAccessToken([0; 32]))), ConnectionAction::Continue);
    assert_eq!(frame_action(ClientFrame::Close), ConnectionAction::Disconnect);
    assert_eq!(frame_action(ClientFrame::ReceiveError), ConnectionAction::Continue);
    assert_eq!(frame_action(ClientFrame::Other), ConnectionAction::Continue);
}

#[test]
fn completion_reaches_clients_unchanged() {
    let announce = match frame_action(message(ClientPayload::CompleteAddress { id: 8, checked: false })) {
        ConnectionAction::CompleteAddress { announce, .. } => announce,
        other => panic!("unexpected action {:?}", other),
    };
    assert_eq!(
        event_message(announce, 1000),
        ServerMessage {
            id: 8,
            timestamp: 1000,
            payload: ServerPayload::AddressCompleted { id: 8, checked: false },
        }
    );
}

#[test]
fn no_permission_is_granted() {
    assert_eq!(check_permissions(vec![1, 2, 3], vec![ClientAction::RequestSync]), Ok(false));
    assert_eq!(check_permissions(vec![], vec![]), Ok(false));
}
