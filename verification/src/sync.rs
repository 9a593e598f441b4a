//! Synchronising a client: which records to tidy up, where map images are
//! kept, and the message that carries everything.
use vstd::prelude::*;
use vstd::string::*;

use crate::datatypes::{
    AddressDetails, CategoryDetails, CongDetails, DbError, GroupDetails, MapDetails,
    ServerMessage, ServerPayload, StreetDetails, SyncInformation, UserPublicDetails,
};

verus! {

/// A tidying step that synchronising service groups asks of the database.
#[derive(Debug, Clone, Copy, PartialEq, Eq)]
pub enum GroupCleanup {
    /// Remove the user's membership of the group.
    RemoveMembership { user_id: u32, group_id: u32 },
    /// Remove the group, if no membership of it is left.
    RemoveGroupIfUnused { group_id: u32 },
}

/// The tidying steps for one group: a membership marked deleted and changed
/// since the last sync is removed, and then, when the group itself is marked
/// deleted, the group too (if nobody else belongs to it).
pub open spec fn group_cleanup(group: GroupDetails, user_id: u32, last_sync: u32) -> Seq<
    GroupCleanup,
> {
    if group.updated > last_sync && group.pair_deleted {
        if group.group_deleted {
            seq![
                GroupCleanup::RemoveMembership { user_id, group_id: group.id },
                GroupCleanup::RemoveGroupIfUnused { group_id: group.id },
            ]
        } else {
            seq![GroupCleanup::RemoveMembership { user_id, group_id: group.id }]
        }
    } else {
        seq![]
    }
}

/// The tidying steps for a list of groups, group by group in order.
pub open spec fn groups_cleanup(groups: Seq<GroupDetails>, user_id: u32, last_sync: u32) -> Seq<
    GroupCleanup,
>
    decreases groups.len(),
{
    if groups.len() == 0 {
        seq![]
    } else {
        groups_cleanup(groups.drop_last(), user_id, last_sync) + group_cleanup(
            groups.last(),
            user_id,
            last_sync,
        )
    }
}

/// The tidying steps that synchronising the service groups of `user_id`
/// takes, in order; they are carried out one after the other, and the first
/// that fails ends the synchronisation with its error.
pub fn service_group_cleanup(groups: &Vec<GroupDetails>, user_id: u32, last_sync: u32) -> (steps:
    Vec<GroupCleanup>)
    ensures
        steps@ == groups_cleanup(groups@, user_id, last_sync),
{
    let mut steps: Vec<GroupCleanup> = Vec::new();
    let mut i: usize = 0;
    while i < groups.len()
        invariant
            i <= groups@.len(),
            steps@ == groups_cleanup(groups@.take(i as int), user_id, last_sync),
        decreases groups.len() - i,
    {
        let group = &groups[i];
        let ghost before = steps@;
        if group.updated > last_sync {
            if group.pair_deleted {
                steps.push(GroupCleanup::RemoveMembership { user_id, group_id: group.id });
                if group.group_deleted {
                    steps.push(GroupCleanup::RemoveGroupIfUnused { group_id: group.id });
                }
            }
        }
        assert(groups@.take(i + 1).drop_last() =~= groups@.take(i as int));
        assert(groups@.take(i + 1).last() == groups@[i as int]);
        assert(steps@ =~= before + group_cleanup(groups@[i as int], user_id, last_sync));
        i = i + 1;
    }
    assert(groups@.take(groups@.len() as int) =~= groups@);
    steps
}

/// A tidying step is only ever asked about a group whose membership was
/// marked deleted after the last sync.
pub proof fn cleanup_touches_only_deleted_memberships(
    groups: Seq<GroupDetails>,
    user_id: u32,
    last_sync: u32,
    k: int,
)
    requires
        0 <= k < groups_cleanup(groups, user_id, last_sync).len(),
    ensures
        exists|j: int|
            0 <= j < groups.len() && (#[trigger] groups[j]).pair_deleted && groups[j].updated
                > last_sync && match groups_cleanup(groups, user_id, last_sync)[k] {
                GroupCleanup::RemoveMembership { user_id: u, group_id } => u == user_id
                    && group_id == groups[j].id,
                GroupCleanup::RemoveGroupIfUnused { group_id } => group_id == groups[j].id
                    && groups[j].group_deleted,
            },
    decreases groups.len(),
{
    let front = groups.drop_last();
    let head = groups_cleanup(front, user_id, last_sync);
    if k < head.len() {
        cleanup_touches_only_deleted_memberships(front, user_id, last_sync, k);
        let j = choose|j: int|
            0 <= j < front.len() && (#[trigger] front[j]).pair_deleted && front[j].updated
                > last_sync && match groups_cleanup(front, user_id, last_sync)[k] {
                GroupCleanup::RemoveMembership { user_id: u, group_id } => u == user_id
                    && group_id == front[j].id,
                GroupCleanup::RemoveGroupIfUnused { group_id } => group_id == front[j].id
                    && front[j].group_deleted,
            };
        assert(groups[j] == front[j]);
    } else {
        assert(groups[groups.len() - 1] == groups.last());
    }
}

/// Every membership marked deleted and changed since the last sync is
/// removed, and every such group that is itself marked deleted is offered
/// for removal right after.
pub proof fn cleanup_covers_every_deleted_membership(
    groups: Seq<GroupDetails>,
    user_id: u32,
    last_sync: u32,
    j: int,
)
    requires
        0 <= j < groups.len(),
        groups[j].pair_deleted,
        groups[j].updated > last_sync,
    ensures
        exists|k: int|
            0 <= k < groups_cleanup(groups, user_id, last_sync).len() && #[trigger] groups_cleanup(
                groups,
                user_id,
                last_sync,
            )[k] == (GroupCleanup::RemoveMembership { user_id, group_id: groups[j].id })
                && (groups[j].group_deleted ==> k + 1 < groups_cleanup(
                groups,
                user_id,
                last_sync,
            ).len() && groups_cleanup(groups, user_id, last_sync)[k + 1] == (
            GroupCleanup::RemoveGroupIfUnused { group_id: groups[j].id })),
    decreases groups.len(),
{
    let front = groups.drop_last();
    let head = groups_cleanup(front, user_id, last_sync);
    let all = groups_cleanup(groups, user_id, last_sync);
    assert(all == head + group_cleanup(groups.last(), user_id, last_sync));
    if j < front.len() {
        assert(front[j] == groups[j]);
        cleanup_covers_every_deleted_membership(front, user_id, last_sync, j);
        let k = choose|k: int|
            0 <= k < head.len() && #[trigger] head[k] == (GroupCleanup::RemoveMembership {
                user_id,
                group_id: front[j].id,
            }) && (front[j].group_deleted ==> k + 1 < head.len() && head[k + 1] == (
            GroupCleanup::RemoveGroupIfUnused { group_id: front[j].id }));
        assert(all[k] == head[k]);
        if front[j].group_deleted {
            assert(all[k + 1] == head[k + 1]);
        }
    } else {
        assert(groups.last() == groups[j]);
        let k = head.len() as int;
        assert(all[k] == group_cleanup(groups[j], user_id, last_sync)[0]);
        if groups[j].group_deleted {
            assert(all[k + 1] == group_cleanup(groups[j], user_id, last_sync)[1]);
        }
    }
}

/// The path of a map's image file: `maps/` followed by its file name.
pub open spec fn map_image_location(image_name: Seq<char>) -> Seq<char> {
    "maps/"@ + image_name
}

/// Where the image of a map is read from.
pub fn map_image_path(image_name: &str) -> (path: String)
    ensures
        path@ == map_image_location(image_name@),
{
    String::from_str("maps/").concat(image_name)
}

/// A map with the image read for it: the bytes when reading the file
/// succeeded, none otherwise. Everything else about the map is kept.
pub fn with_image(map: MapDetails, image: Option<Vec<u8>>) -> (complete: MapDetails)
    ensures
        complete == (MapDetails { image, ..map }),
{
    MapDetails {
        id: map.id,
        name: map.name,
        image_name: map.image_name,
        assignee: map.assignee,
        assigner: map.assigner,
        image,
        category: map.category,
        deleted: map.deleted,
    }
}

/// The message that answers a sync request: addressed to the requesting
/// user's id, stamped with `timestamp`, carrying everything gathered.
pub fn sync_message(
    id: u32,
    timestamp: u32,
    congregations: Vec<CongDetails>,
    categories: Vec<CategoryDetails>,
    service_groups: Vec<GroupDetails>,
    users: Vec<UserPublicDetails>,
    maps: Vec<MapDetails>,
    streets: Vec<StreetDetails>,
    addresses: Vec<AddressDetails>,
) -> (message: ServerMessage)
    ensures
        message == (ServerMessage {
            id,
            timestamp,
            payload: ServerPayload::SyncInformation(
                SyncInformation {
                    congregations,
                    categories,
                    service_groups,
                    users,
                    maps,
                    streets,
                    addresses,
                },
            ),
        }),
{
    let sync_details = SyncInformation {
        congregations,
        categories,
        service_groups,
        users,
        maps,
        streets,
        addresses,
    };
    ServerMessage { id, timestamp, payload: ServerPayload::SyncInformation(sync_details) }
}

/// Each map with the image read for it, position by position.
pub open spec fn maps_with_images(maps: Seq<MapDetails>, images: Seq<Option<Vec<u8>>>) -> Seq<
    MapDetails,
> {
    Seq::new(maps.len(), |i: int| MapDetails { image: images[i], ..maps[i] })
}

/// Attaches to each map the image read for it.
pub fn attach_images(maps: Vec<MapDetails>, images: Vec<Option<Vec<u8>>>) -> (complete: Vec<
    MapDetails,
>)
    requires
        maps@.len() == images@.len(),
    ensures
        complete@ == maps_with_images(maps@, images@),
{
    let ghost all_maps = maps@;
    let ghost all_images = images@;
    let mut images = images;
    let mut complete: Vec<MapDetails> = Vec::new();
    for map in it: maps
        invariant
            all_maps == it.seq(),
            all_maps.len() == all_images.len(),
            images@ == all_images.skip(it.index() as int),
            complete@ == maps_with_images(
                all_maps.take(it.index() as int),
                all_images.take(it.index() as int),
            ),
    {
        let ghost i = it.index() as int;
        assert(images@.len() > 0);
        let image = images.remove(0);
        assert(image == all_images[i]);
        assert(map == all_maps[i]);
        complete.push(with_image(map, image));
        assert(images@ =~= all_images.skip(i + 1));
        assert(complete@ =~= maps_with_images(all_maps.take(i + 1), all_images.take(i + 1)));
    }
    assert(all_maps.take(all_maps.len() as int) =~= all_maps);
    assert(all_images.take(all_images.len() as int) =~= all_images);
    complete
}

/// Where synchronising a client stands: what it waits for.
#[derive(Debug, Clone, Copy, PartialEq, Eq)]
pub enum SyncStage {
    Congregations,
    Categories,
    Groups,
    Tidying,
    Users,
    Maps,
    MapImages,
    Streets,
    Addresses,
    Done,
}

/// A synchronisation in progress: whom it serves, what it waits for, and what
/// it has gathered.
#[derive(Debug)]
pub struct SyncState {
    /// The user served, who is also the message's id.
    pub id: u32,
    /// When the client last synchronised.
    pub last_sync: u32,
    /// The time the reply is stamped with.
    pub timestamp: u32,
    pub stage: SyncStage,
    pub congregations: Vec<CongDetails>,
    pub categories: Vec<CategoryDetails>,
    pub service_groups: Vec<GroupDetails>,
    /// The tidying steps for the service groups, in order.
    pub tidy: Vec<GroupCleanup>,
    /// The position of the tidying step being carried out.
    pub next_tidy: usize,
    pub users: Vec<UserPublicDetails>,
    /// The maps found, without images.
    pub found_maps: Vec<MapDetails>,
    /// The images read so far, one per map in order.
    pub images: Vec<Option<Vec<u8>>>,
    pub streets: Vec<StreetDetails>,
    pub addresses: Vec<AddressDetails>,
}

/// What synchronising asks for next.
#[derive(Debug)]
pub enum SyncAction {
    FetchCongregations { user_id: u32 },
    FetchCategories { last_sync: u32 },
    FetchGroups { user_id: u32 },
    Tidy(GroupCleanup),
    FetchUsers { last_sync: u32, user_id: u32 },
    FetchMaps { user_id: u32, last_sync: u32 },
    /// Read the image file of a map (see `map_image_path`).
    ReadMapImage { image_name: String },
    FetchStreets,
    FetchAddresses,
    /// Send this message; synchronising is over.
    Send(ServerMessage),
    /// Synchronising stopped with this error.
    Fail(DbError),
}

/// How a requested operation went.
#[derive(Debug)]
pub enum SyncEvent {
    Congregations(Result<Vec<CongDetails>, DbError>),
    Categories(Result<Vec<CategoryDetails>, DbError>),
    Groups(Result<Vec<GroupDetails>, DbError>),
    Tidied(Result<(), DbError>),
    Users(Result<Vec<UserPublicDetails>, DbError>),
    Maps(Result<Vec<MapDetails>, DbError>),
    /// The image's bytes, or none when the file could not be read.
    MapImage(Option<Vec<u8>>),
    Streets(Result<Vec<StreetDetails>, DbError>),
    Addresses(Result<Vec<AddressDetails>, DbError>),
}

/// Whether what a state has gathered agrees with what it waits for.
pub open spec fn sync_well_formed(state: SyncState) -> bool {
    match state.stage {
        SyncStage::Tidying => state.next_tidy < state.tidy@.len(),
        SyncStage::MapImages => state.images@.len() < state.found_maps@.len(),
        SyncStage::Streets | SyncStage::Addresses => state.images@.len()
            == state.found_maps@.len(),
        _ => true,
    }
}

/// Whether `event` answers what `state` waits for.
pub open spec fn sync_answers(state: SyncState, event: SyncEvent) -> bool {
    match (state.stage, event) {
        (SyncStage::Congregations, SyncEvent::Congregations(_)) => true,
        (SyncStage::Categories, SyncEvent::Categories(_)) => true,
        (SyncStage::Groups, SyncEvent::Groups(_)) => true,
        (SyncStage::Tidying, SyncEvent::Tidied(_)) => true,
        (SyncStage::Users, SyncEvent::Users(_)) => true,
        (SyncStage::Maps, SyncEvent::Maps(_)) => true,
        (SyncStage::MapImages, SyncEvent::MapImage(_)) => true,
        (SyncStage::Streets, SyncEvent::Streets(_)) => true,
        (SyncStage::Addresses, SyncEvent::Addresses(_)) => true,
        _ => false,
    }
}

/// Stopping with `error`: nothing more is asked for.
pub open spec fn stops_with(state: SyncState, next: SyncState, action: SyncAction, error: DbError) -> bool {
    next == (SyncState { stage: SyncStage::Done, ..state }) && action == SyncAction::Fail(error)
}

/// After the groups are known and tidying step `k` is due: that step is asked
/// for, or, when none is left, the users are fetched.
pub open spec fn tidies_or_fetches_users(next: SyncState, action: SyncAction, k: int) -> bool {
    if k < next.tidy@.len() {
        next.stage == SyncStage::Tidying && next.next_tidy == k && action == SyncAction::Tidy(
            next.tidy@[k],
        )
    } else {
        next.stage == SyncStage::Users && action == (SyncAction::FetchUsers {
            last_sync: next.last_sync,
            user_id: next.id,
        })
    }
}

/// After `k` images are read: the next map's image is asked for, or, when
/// every map has its image, the streets are fetched.
pub open spec fn reads_image_or_fetches_streets(next: SyncState, action: SyncAction, k: int) -> bool {
    if k < next.found_maps@.len() {
        next.stage == SyncStage::MapImages && action == (SyncAction::ReadMapImage {
            image_name: next.found_maps@[k].image_name,
        })
    } else {
        next.stage == SyncStage::Streets && action == SyncAction::FetchStreets
    }
}

/// The message that ends a synchronisation, from what it gathered and the
/// addresses found last.
pub open spec fn sends_everything(state: SyncState, action: SyncAction, addresses: Vec<AddressDetails>) -> bool {
    match action {
        SyncAction::Send(message) => {
            &&& message.id == state.id
            &&& message.timestamp == state.timestamp
            &&& match message.payload {
                ServerPayload::SyncInformation(info) => {
                    &&& info.congregations == state.congregations
                    &&& info.categories == state.categories
                    &&& info.service_groups == state.service_groups
                    &&& info.users == state.users
                    &&& info.maps@ == maps_with_images(state.found_maps@, state.images@)
                    &&& info.streets == state.streets
                    &&& info.addresses == addresses
                },
                _ => false,
            }
        },
        _ => false,
    }
}

/// The step of synchronising from `state` on `event`: the congregations, the
/// categories (since the last sync), the service groups, the tidying of the
/// groups (step by step, in the order `groups_cleanup` gives), the users, the
/// maps and then each map's image in order, the streets and the addresses are
/// gathered in that order; the first failure stops it with its error, and
/// otherwise it ends by sending everything gathered.
pub open spec fn sync_step_spec(state: SyncState, event: SyncEvent, next: SyncState, action: SyncAction) -> bool {
    match event {
        SyncEvent::Congregations(Err(e)) => stops_with(state, next, action, e),
        SyncEvent::Congregations(Ok(found)) => next == (SyncState {
            stage: SyncStage::Categories,
            congregations: found,
            ..state
        }) && action == (SyncAction::FetchCategories { last_sync: state.last_sync }),
        SyncEvent::Categories(Err(e)) => stops_with(state, next, action, e),
        SyncEvent::Categories(Ok(found)) => next == (SyncState {
            stage: SyncStage::Groups,
            categories: found,
            ..state
        }) && action == (SyncAction::FetchGroups { user_id: state.id }),
        SyncEvent::Groups(Err(e)) => stops_with(state, next, action, e),
        SyncEvent::Groups(Ok(found)) => next == (SyncState {
            stage: next.stage,
            service_groups: found,
            tidy: next.tidy,
            next_tidy: next.next_tidy,
            ..state
        }) && next.tidy@ == groups_cleanup(found@, state.id, state.last_sync)
            && tidies_or_fetches_users(next, action, 0),
        SyncEvent::Tidied(Err(e)) => stops_with(state, next, action, e),
        SyncEvent::Tidied(Ok(())) => next == (SyncState {
            stage: next.stage,
            next_tidy: next.next_tidy,
            ..state
        }) && tidies_or_fetches_users(next, action, state.next_tidy + 1),
        SyncEvent::Users(Err(e)) => stops_with(state, next, action, e),
        SyncEvent::Users(Ok(found)) => next == (SyncState {
            stage: SyncStage::Maps,
            users: found,
            ..state
        }) && action == (SyncAction::FetchMaps { user_id: state.id, last_sync: state.last_sync }),
        SyncEvent::Maps(Err(e)) => stops_with(state, next, action, e),
        SyncEvent::Maps(Ok(found)) => next == (SyncState {
            stage: next.stage,
            found_maps: found,
            images: next.images,
            ..state
        }) && next.images@ == Seq::<Option<Vec<u8>>>::empty() && reads_image_or_fetches_streets(
            next,
            action,
            0,
        ),
        SyncEvent::MapImage(image) => next == (SyncState {
            stage: next.stage,
            images: next.images,
            ..state
        }) && next.images@ == state.images@.push(image) && reads_image_or_fetches_streets(
            next,
            action,
            state.images@.len() + 1int,
        ),
        SyncEvent::Streets(Err(e)) => stops_with(state, next, action, e),
        SyncEvent::Streets(Ok(found)) => next == (SyncState {
            stage: SyncStage::Addresses,
            streets: found,
            ..state
        }) && action == SyncAction::FetchAddresses,
        SyncEvent::Addresses(Err(e)) => stops_with(state, next, action, e),
        SyncEvent::Addresses(Ok(found)) => next.stage == SyncStage::Done && sends_everything(
            state,
            action,
            found,
        ),
    }
}

/// Opens a synchronisation for user `id`, stamped with `timestamp`: the
/// congregations come first.
pub fn sync_start(id: u32, last_sync: u32, timestamp: u32) -> (res: (SyncState, SyncAction))
    ensures
        res.0.id == id,
        res.0.last_sync == last_sync,
        res.0.timestamp == timestamp,
        res.0.stage == SyncStage::Congregations,
        sync_well_formed(res.0),
        res.1 == (SyncAction::FetchCongregations { user_id: id }),
{
    (
        SyncState {
            id,
            last_sync,
            timestamp,
            stage: SyncStage::Congregations,
            congregations: Vec::new(),
            categories: Vec::new(),
            service_groups: Vec::new(),
            tidy: Vec::new(),
            next_tidy: 0,
            users: Vec::new(),
            found_maps: Vec::new(),
            images: Vec::new(),
            streets: Vec::new(),
            addresses: Vec::new(),
        },
        SyncAction::FetchCongregations { user_id: id },
    )
}

fn stop(state: SyncState, error: DbError) -> (res: (SyncState, SyncAction))
    ensures
        stops_with(state, res.0, res.1, error),
{
    (SyncState { stage: SyncStage::Done, ..state }, SyncAction::Fail(error))
}

fn tidy_or_fetch_users(state: SyncState, k: usize) -> (res: (SyncState, SyncAction))
    ensures
        res.0 == (SyncState { stage: res.0.stage, next_tidy: res.0.next_tidy, ..state }),
        tidies_or_fetches_users(res.0, res.1, k as int),
        res.0.stage == SyncStage::Tidying ==> res.0.next_tidy < res.0.tidy@.len(),
{
    if k < state.tidy.len() {
        let step = state.tidy[k];
        (SyncState { stage: SyncStage::Tidying, next_tidy: k, ..state }, SyncAction::Tidy(step))
    } else {
        let action = SyncAction::FetchUsers { last_sync: state.last_sync, user_id: state.id };
        (SyncState { stage: SyncStage::Users, ..state }, action)
    }
}

fn read_image_or_fetch_streets(state: SyncState, k: usize) -> (res: (SyncState, SyncAction))
    requires
        k == state.images@.len(),
        k <= state.found_maps@.len(),
    ensures
        res.0 == (SyncState { stage: res.0.stage, ..state }),
        reads_image_or_fetches_streets(res.0, res.1, k as int),
        sync_well_formed(res.0),
{
    if k < state.found_maps.len() {
        let image_name = state.found_maps[k].image_name.clone();
        (
            SyncState { stage: SyncStage::MapImages, ..state },
            SyncAction::ReadMapImage { image_name },
        )
    } else {
        (SyncState { stage: SyncStage::Streets, ..state }, SyncAction::FetchStreets)
    }
}

/// Takes a step of synchronising a client.
pub fn sync_step(state: SyncState, event: SyncEvent) -> (res: (SyncState, SyncAction))
    requires
        sync_well_formed(state),
        sync_answers(state, event),
    ensures
        sync_well_formed(res.0),
        sync_step_spec(state, event, res.0, res.1),
        (res.1 is Send || res.1 is Fail) <==> res.0.stage == SyncStage::Done,
{
    match event {
        SyncEvent::Congregations(Err(e)) => stop(state, e),
        SyncEvent::Congregations(Ok(found)) => {
            let action = SyncAction::FetchCategories { last_sync: state.last_sync };
            (SyncState { stage: SyncStage::Categories, congregations: found, ..state }, action)
        },
        SyncEvent::Categories(Err(e)) => stop(state, e),
        SyncEvent::Categories(Ok(found)) => {
            let action = SyncAction::FetchGroups { user_id: state.id };
            (SyncState { stage: SyncStage::Groups, categories: found, ..state }, action)
        },
        SyncEvent::Groups(Err(e)) => stop(state, e),
        SyncEvent::Groups(Ok(found)) => {
            let tidy = service_group_cleanup(&found, state.id, state.last_sync);
            let gathered = SyncState { service_groups: found, tidy, next_tidy: 0, ..state };
            tidy_or_fetch_users(gathered, 0)
        },
        SyncEvent::Tidied(Err(e)) => stop(state, e),
        SyncEvent::Tidied(Ok(())) => {
            let planned = state.tidy.len();
            assert(state.next_tidy < planned);
            let k = state.next_tidy + 1;
            tidy_or_fetch_users(state, k)
        },
        SyncEvent::Users(Err(e)) => stop(state, e),
        SyncEvent::Users(Ok(found)) => {
            let action = SyncAction::FetchMaps { user_id: state.id, last_sync: state.last_sync };
            (SyncState { stage: SyncStage::Maps, users: found, ..state }, action)
        },
        SyncEvent::Maps(Err(e)) => stop(state, e),
        SyncEvent::Maps(Ok(found)) => {
            let gathered = SyncState { found_maps: found, images: Vec::new(), ..state };
            read_image_or_fetch_streets(gathered, 0)
        },
        SyncEvent::MapImage(image) => {
            let mut state = state;
            state.images.push(image);
            let k = state.images.len();
            read_image_or_fetch_streets(state, k)
        },
        SyncEvent::Streets(Err(e)) => stop(state, e),
        SyncEvent::Streets(Ok(found)) => (
            SyncState { stage: SyncStage::Addresses, streets: found, ..state },
            SyncAction::FetchAddresses,
        ),
        SyncEvent::Addresses(Err(e)) => stop(state, e),
        SyncEvent::Addresses(Ok(found)) => {
            let id = state.id;
            let timestamp = state.timestamp;
            let maps = attach_images(state.found_maps, state.images);
            let message = sync_message(
                id,
                timestamp,
                state.congregations,
                state.categories,
                state.service_groups,
                state.users,
                maps,
                state.streets,
                found,
            );
            let done = SyncState {
                id,
                last_sync: state.last_sync,
                timestamp,
                stage: SyncStage::Done,
                congregations: Vec::new(),
                categories: Vec::new(),
                service_groups: Vec::new(),
                tidy: state.tidy,
                next_tidy: state.next_tidy,
                users: Vec::new(),
                found_maps: Vec::new(),
                images: Vec::new(),
                streets: Vec::new(),
                addresses: Vec::new(),
            };
            (done, SyncAction::Send(message))
        },
    }
}

/// The order in which a synchronisation waits for things.
pub open spec fn stage_rank(stage: SyncStage) -> int {
    match stage {
        SyncStage::Congregations => 0,
        SyncStage::Categories => 1,
        SyncStage::Groups => 2,
        SyncStage::Tidying => 3,
        SyncStage::Users => 4,
        SyncStage::Maps => 5,
        SyncStage::MapImages => 6,
        SyncStage::Streets => 7,
        SyncStage::Addresses => 8,
        SyncStage::Done => 9,
    }
}

/// Whether an answer moves a synchronisation past what it waited for: every
/// answer does but a finished tidying step and a map image, after which it
/// may wait for another of the same kind.
pub open spec fn leaves_stage(event: SyncEvent) -> bool {
    !(event matches SyncEvent::Tidied(Ok(_))) && !(event is MapImage)
}

/// A run of synchronising a client: it starts waiting for the congregations,
/// and each `states[i + 1]` and `actions[i]` are the step taken from
/// `states[i]` on the answer `events[i]`.
pub open spec fn sync_run(
    states: Seq<SyncState>,
    events: Seq<SyncEvent>,
    actions: Seq<SyncAction>,
) -> bool {
    &&& states.len() == events.len() + 1
    &&& actions.len() == events.len()
    &&& states[0].stage == SyncStage::Congregations
    &&& forall|i: int| 0 <= i < events.len() ==> #[trigger] run_step(states, events, actions, i)
}

/// Step `i` of a run: `states[i]` is well formed and waits for `events[i]`,
/// and `states[i + 1]` and `actions[i]` are the step taken on it.
pub open spec fn run_step(
    states: Seq<SyncState>,
    events: Seq<SyncEvent>,
    actions: Seq<SyncAction>,
    i: int,
) -> bool {
    &&& sync_well_formed(states[i])
    &&& sync_answers(states[i], events[i])
    &&& sync_step_spec(states[i], events[i], states[i + 1], actions[i])
}

/// Whether the contents of a sync message carry the list that `event`
/// delivered, when it delivered one: the congregations, categories, service
/// groups, users, streets and addresses as they were found, and one map for
/// each map found.
pub open spec fn carries_what_was_delivered(info: SyncInformation, event: SyncEvent) -> bool {
    match event {
        SyncEvent::Congregations(Ok(found)) => info.congregations == found,
        SyncEvent::Categories(Ok(found)) => info.categories == found,
        SyncEvent::Groups(Ok(found)) => info.service_groups == found,
        SyncEvent::Users(Ok(found)) => info.users == found,
        SyncEvent::Maps(Ok(found)) => info.maps@.len() == found@.len(),
        SyncEvent::Streets(Ok(found)) => info.streets == found,
        SyncEvent::Addresses(Ok(found)) => info.addresses == found,
        _ => true,
    }
}

/// Whether a state still holds the list that `event` delivered.
spec fn holds_what_was_delivered(state: SyncState, event: SyncEvent) -> bool {
    match event {
        SyncEvent::Congregations(Ok(found)) => state.congregations == found,
        SyncEvent::Categories(Ok(found)) => state.categories == found,
        SyncEvent::Groups(Ok(found)) => state.service_groups == found,
        SyncEvent::Users(Ok(found)) => state.users == found,
        SyncEvent::Maps(Ok(found)) => state.found_maps == found,
        SyncEvent::Streets(Ok(found)) => state.streets == found,
        _ => true,
    }
}

/// Whether an answer delivered the maps found.
spec fn delivers_maps(event: SyncEvent) -> bool {
    event matches SyncEvent::Maps(Ok(_))
}

/// What the first `k` steps of a run leave in `states[k]`.
spec fn gathered_after(states: Seq<SyncState>, events: Seq<SyncEvent>, k: int) -> bool {
    &&& states[k].id == states[0].id
    &&& states[k].timestamp == states[0].timestamp
    &&& forall|j: int|
        0 <= j < k ==> (leaves_stage(#[trigger] events[j]) ==> stage_rank(states[j].stage)
            < stage_rank(states[k].stage))
    &&& forall|j: int| 0 <= j < k ==> holds_what_was_delivered(states[k], #[trigger] events[j])
    &&& forall|j: int|
        0 <= j < k && #[trigger] delivers_maps(events[j]) ==> {
            &&& forall|t: int|
                0 <= t < states[k].images@.len() ==> j + 1 + t < k && events[j + 1 + t]
                    == SyncEvent::MapImage(#[trigger] states[k].images@[t])
            &&& states[k].stage == SyncStage::MapImages ==> states[k].images@.len() == k - j - 1
        }
}

/// A run keeps in `states[k]` what its first `k` answers delivered.
proof fn sync_run_gathers(
    states: Seq<SyncState>,
    events: Seq<SyncEvent>,
    actions: Seq<SyncAction>,
    k: int,
)
    requires
        sync_run(states, events, actions),
        0 <= k < events.len(),
    ensures
        gathered_after(states, events, k),
    decreases k,
{
    if k > 0 {
        sync_run_gathers(states, events, actions, k - 1);
        let state = states[k - 1];
        let event = events[k - 1];
        let next = states[k];
        assert(run_step(states, events, actions, k - 1));
        assert(run_step(states, events, actions, k));
        assert(next.stage != SyncStage::Done);
        assert(stage_rank(state.stage) <= stage_rank(next.stage));
        assert(leaves_stage(event) ==> stage_rank(state.stage) < stage_rank(next.stage));
        assert forall|j: int|
            0 <= j < k && leaves_stage(#[trigger] events[j]) implies stage_rank(states[j].stage)
                < stage_rank(states[k].stage) by {
            if j < k - 1 {
                assert(leaves_stage(events[j]) ==> stage_rank(states[j].stage) < stage_rank(
                    states[k - 1].stage,
                ));
            }
        }
        assert forall|j: int|
            0 <= j < k implies holds_what_was_delivered(states[k], #[trigger] events[j]) by {
            if j < k - 1 {
                assert(holds_what_was_delivered(states[k - 1], events[j]));
                assert(leaves_stage(events[j]) ==> stage_rank(states[j].stage) < stage_rank(
                    states[k - 1].stage,
                ));
                assert(run_step(states, events, actions, j));
            }
        }
        assert forall|j: int|
            0 <= j < k && #[trigger] delivers_maps(events[j]) implies {
            &&& forall|t: int|
                0 <= t < states[k].images@.len() ==> j + 1 + t < k && events[j + 1 + t]
                    == SyncEvent::MapImage(#[trigger] states[k].images@[t])
            &&& states[k].stage == SyncStage::MapImages ==> states[k].images@.len() == k - j - 1
        } by {
            assert(run_step(states, events, actions, j));
            if j < k - 1 {
                assert(leaves_stage(events[j]));
                assert(stage_rank(states[j].stage) < stage_rank(states[k - 1].stage));
                assert(holds_what_was_delivered(states[k - 1], events[j]));
                let before = states[k - 1].images@;
                assert forall|t: int| 0 <= t < states[k].images@.len() implies j + 1 + t < k
                    && events[j + 1 + t] == SyncEvent::MapImage(
                    #[trigger] states[k].images@[t],
                ) by {
                    if t < before.len() {
                        assert(events[j + 1 + t] == SyncEvent::MapImage(before[t]));
                    }
                }
            }
        }
    }
}

/// Whether a stage is one that every synchronisation passes through: all but
/// the tidying steps and the map images, of which there may be none.
spec fn always_visited(rank: int) -> bool {
    0 <= rank <= 8 && rank != 3 && rank != 6
}

/// Whether `event` is the list that a state at `stage` waits for, found.
pub open spec fn delivers_list(event: SyncEvent, stage: SyncStage) -> bool {
    match (stage, event) {
        (SyncStage::Congregations, SyncEvent::Congregations(Ok(_))) => true,
        (SyncStage::Categories, SyncEvent::Categories(Ok(_))) => true,
        (SyncStage::Groups, SyncEvent::Groups(Ok(_))) => true,
        (SyncStage::Users, SyncEvent::Users(Ok(_))) => true,
        (SyncStage::Maps, SyncEvent::Maps(Ok(_))) => true,
        (SyncStage::Streets, SyncEvent::Streets(Ok(_))) => true,
        (SyncStage::Addresses, SyncEvent::Addresses(Ok(_))) => true,
        _ => false,
    }
}

/// Up to `states[k]`, a run has been at every stage that every
/// synchronisation passes through, up to the one it is at.
proof fn sync_run_visits(
    states: Seq<SyncState>,
    events: Seq<SyncEvent>,
    actions: Seq<SyncAction>,
    k: int,
)
    requires
        sync_run(states, events, actions),
        0 <= k < events.len(),
    ensures
        forall|r: int|
            #[trigger] always_visited(r) && r <= stage_rank(states[k].stage) ==> exists|j: int|
                0 <= j <= k && stage_rank(#[trigger] states[j].stage) == r,
    decreases k,
{
    if k == 0 {
        assert forall|r: int|
            #[trigger] always_visited(r) && r <= stage_rank(states[k].stage) implies exists|j: int|
                0 <= j <= k && stage_rank(#[trigger] states[j].stage) == r by {
            assert(stage_rank(states[0].stage) == r);
        }
    } else {
        sync_run_visits(states, events, actions, k - 1);
        assert(run_step(states, events, actions, k - 1));
        assert(run_step(states, events, actions, k));
        assert forall|r: int|
            #[trigger] always_visited(r) && r <= stage_rank(states[k].stage) implies exists|j: int|
                0 <= j <= k && stage_rank(#[trigger] states[j].stage) == r by {
            if r <= stage_rank(states[k - 1].stage) {
                let j = choose|j: int| 0 <= j <= k - 1 && stage_rank(#[trigger] states[j].stage) == r;
                assert(stage_rank(states[j].stage) == r);
            } else {
                assert(stage_rank(states[k].stage) == r);
            }
        }
    }
}

/// A step that leaves a state waiting for one of the lists either receives it
/// or stops.
proof fn list_is_received(
    states: Seq<SyncState>,
    events: Seq<SyncEvent>,
    actions: Seq<SyncAction>,
    j: int,
)
    requires
        sync_run(states, events, actions),
        0 <= j < events.len(),
        always_visited(stage_rank(states[j].stage)),
        j + 1 < events.len() || actions[j] is Send,
    ensures
        delivers_list(events[j], states[j].stage),
{
    assert(run_step(states, events, actions, j));
    if j + 1 < events.len() {
        assert(run_step(states, events, actions, j + 1));
    }
}

/// Only the addresses arriving ends a step by sending, and what is sent is
/// then everything gathered with those addresses.
proof fn sending_step(state: SyncState, event: SyncEvent, next: SyncState, action: SyncAction)
    requires
        sync_step_spec(state, event, next, action),
        action is Send,
    ensures
        event is Addresses,
        event->Addresses_0 is Ok,
        sends_everything(state, action, event->Addresses_0->Ok_0),
{
}

/// Synchronising sends what it was given: when a run ends by sending a
/// message, it received each list (the congregations, categories, service
/// groups, users, maps, streets and addresses), and the message goes to the
/// user served, stamped with the run's time, and carries exactly the
/// congregations, categories, service groups, users, streets and addresses
/// that the answers delivered, and one map for each map found, in order,
/// that is the map found with the image read for it in the answer that
/// followed.
pub proof fn sync_sends_what_it_was_given(
    states: Seq<SyncState>,
    events: Seq<SyncEvent>,
    actions: Seq<SyncAction>,
)
    requires
        sync_run(states, events, actions),
        actions.len() > 0,
        actions.last() is Send,
    ensures
        ({
            let message = actions.last()->Send_0;
            let info = message.payload->SyncInformation_0;
            &&& message.id == states[0].id
            &&& message.timestamp == states[0].timestamp
            &&& message.payload is SyncInformation
            &&& exists|j: int|
                0 <= j < events.len() && #[trigger] delivers_list(events[j], SyncStage::Congregations)
            &&& exists|j: int|
                0 <= j < events.len() && #[trigger] delivers_list(events[j], SyncStage::Categories)
            &&& exists|j: int|
                0 <= j < events.len() && #[trigger] delivers_list(events[j], SyncStage::Groups)
            &&& exists|j: int|
                0 <= j < events.len() && #[trigger] delivers_list(events[j], SyncStage::Users)
            &&& exists|j: int|
                0 <= j < events.len() && #[trigger] delivers_list(events[j], SyncStage::Maps)
            &&& exists|j: int|
                0 <= j < events.len() && #[trigger] delivers_list(events[j], SyncStage::Streets)
            &&& exists|j: int|
                0 <= j < events.len() && #[trigger] delivers_list(events[j], SyncStage::Addresses)
            &&& forall|j: int|
                0 <= j < events.len() ==> carries_what_was_delivered(info, #[trigger] events[j])
            &&& forall|j: int, t: int|
                #![trigger events[j], info.maps@[t]]
                0 <= j < events.len() && 0 <= t < info.maps@.len() ==> (events[j] matches SyncEvent::Maps(
                    Ok(found),
                ) ==> {
                    &&& j + 1 + t < events.len()
                    &&& events[j + 1 + t] == SyncEvent::MapImage(info.maps@[t].image)
                    &&& info.maps@[t] == (MapDetails { image: info.maps@[t].image, ..found@[t] })
                })
        }),
{
    let k = events.len() - 1;
    sync_run_gathers(states, events, actions, k);
    let state = states[k];
    assert(run_step(states, events, actions, k));
    assert(actions[k] == actions.last());
    sending_step(state, events[k], states[k + 1], actions[k]);
    assert(state.stage == SyncStage::Addresses);
    sync_run_visits(states, events, actions, k);
    assert forall|r: int| #[trigger] always_visited(r) implies exists|j: int|
        0 <= j < events.len() && delivers_list(events[j], states[j].stage) && stage_rank(
            states[j].stage,
        ) == r by {
        let j = choose|j: int| 0 <= j <= k && stage_rank(#[trigger] states[j].stage) == r;
        list_is_received(states, events, actions, j);
    }
    assert(always_visited(0));
    assert(always_visited(1));
    assert(always_visited(2));
    assert(always_visited(4));
    assert(always_visited(5));
    assert(always_visited(7));
    assert(always_visited(8));
    let message = actions.last()->Send_0;
    let info = message.payload->SyncInformation_0;
    assert forall|j: int|
        0 <= j < events.len() implies carries_what_was_delivered(info, #[trigger] events[j]) by {
        if j < k {
            assert(holds_what_was_delivered(state, events[j]));
            assert(leaves_stage(events[j]) ==> stage_rank(states[j].stage) < stage_rank(
                state.stage,
            ));
            assert(run_step(states, events, actions, j));
        }
    }
    assert forall|j: int, t: int|
        #![trigger events[j], info.maps@[t]]
        0 <= j < events.len() && 0 <= t < info.maps@.len() implies (events[j] matches SyncEvent::Maps(
            Ok(found),
        ) ==> {
        &&& j + 1 + t < events.len()
        &&& events[j + 1 + t] == SyncEvent::MapImage(info.maps@[t].image)
        &&& info.maps@[t] == (MapDetails { image: info.maps@[t].image, ..found@[t] })
    }) by {
        if j < k && delivers_maps(events[j]) {
            assert(holds_what_was_delivered(state, events[j]));
            assert(info.maps@.len() == state.found_maps@.len());
            assert(state.images@.len() == state.found_maps@.len());
            assert(events[j + 1 + t] == SyncEvent::MapImage(state.images@[t]));
        }
    }
}

/// The error an answer reports, if it is a failed one.
pub open spec fn answer_error(event: SyncEvent) -> Option<DbError> {
    match event {
        SyncEvent::Congregations(Err(e)) => Some(e),
        SyncEvent::Categories(Err(e)) => Some(e),
        SyncEvent::Groups(Err(e)) => Some(e),
        SyncEvent::Tidied(Err(e)) => Some(e),
        SyncEvent::Users(Err(e)) => Some(e),
        SyncEvent::Maps(Err(e)) => Some(e),
        SyncEvent::Streets(Err(e)) => Some(e),
        SyncEvent::Addresses(Err(e)) => Some(e),
        _ => None,
    }
}

/// A synchronisation stops with an error exactly on a failed answer, and the
/// error it stops with is that answer's; a map image that could not be read
/// is no failure.
pub proof fn sync_stops_with_the_failed_answer(
    state: SyncState,
    event: SyncEvent,
    next: SyncState,
    action: SyncAction,
)
    requires
        sync_step_spec(state, event, next, action),
    ensures
        action is Fail <==> answer_error(event) is Some,
        action matches SyncAction::Fail(e) ==> answer_error(event) == Some(e),
{
}

} // verus!
