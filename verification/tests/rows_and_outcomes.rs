use preaching_partner_server::database::outcomes::{
    addresses_from_rows, categories_from_rows, congregations_from_rows, group_removal,
    groups_from_rows, maps_from_rows, single_user_from_rows, statement_outcome,
    streets_from_rows, token_stored, users_from_rows,
};
use preaching_partner_server::database::queries::Query;
use preaching_partner_server::database::rows::{
    category_row_to_details, cong_row_to_details, get_address_details, get_group_details,
    get_map_details, get_user_details, street_row_to_details, tags_are_encoded, AddressRow,
    CategoryRow, CongRow, GroupRow, MapRow, StreetRow, UserRow,
};
use preaching_partner_server::datatypes::{
    AddressError, AddressTags, CategoryDetails, CongDetails, DbError, GroupDetails, MapDetails,
    StreetDetails,
};

fn missing(column: &str) -> sqlx::Error {
    sqlx::Error::ColumnNotFound(column.to_string())
}

fn missing_column(error: &sqlx::Error) -> &str {
    match error {
        sqlx::Error::ColumnNotFound(column) => column,
        _ => panic!("unexpected error"),
    }
}

fn cong_row(id: u32) -> CongRow {
    CongRow {
        congregation_id: Ok(id),
        name: Ok(format!("cong {}", id)),
        deleted: Ok(false),
        updated: Ok(100),
    }
}

fn group_row(group_updated: u32, pair_updated: u32) -> GroupRow {
    GroupRow {
        group_id: Ok(4),
        name: Ok("North".to_string()),
        congregation: Ok(1),
        elder: Ok(9),
        group_updated: Ok(group_updated),
        pair_updated: Ok(pair_updated),
        group_deleted: Ok(true),
        pair_deleted: Ok(false),
    }
}

fn address_row(tags: Vec<u8>, decoded: Option<Result<Vec<AddressTags>, rmp_serde::decode::Error>>) -> AddressRow {
    AddressRow {
        id: Ok(1),
        street_id: Ok(2),
        number: Ok("12a".to_string()),
        tags: Ok(tags),
        decoded_tags: decoded,
        visited: Ok(true),
        deleted: Ok(false),
    }
}

#[test]
fn congregation_row_converts() {
    assert_eq!(
        cong_row_to_details(cong_row(3)).unwrap(),
        CongDetails { cong_id: 3, cong_name: "cong 3".to_string(), remove: false, updated: 100 }
    );
}

#[test]
fn first_failing_column_is_reported() {
    let row = CongRow {
        congregation_id: Ok(1),
        name: Err(missing("name")),
        deleted: Err(missing("deleted")),
        updated: Ok(1),
    };
    let error = cong_row_to_details(row).unwrap_err();
    assert_eq!(missing_column(&error), "name");
}

#[test]
fn category_is_never_marked_for_removal() {
    let row = CategoryRow {
        id: Ok(2),
        name: Ok("Business".to_string()),
        prefix: Ok("B".to_string()),
        congregation: Ok(1),
        updated: Ok(55),
    };
    assert_eq!(
        category_row_to_details(row).unwrap(),
        CategoryDetails {
            id: 2,
            name: "Business".to_string(),
            prefix: "B".to_string(),
            congregation: 1,
            updated: 55,
            remove: false,
        }
    );
}

#[test]
fn group_counts_as_updated_at_the_later_time() {
    assert_eq!(get_group_details(group_row(10, 20)).unwrap().updated, 20);
    assert_eq!(get_group_details(group_row(30, 20)).unwrap().updated, 30);
    assert_eq!(get_group_details(group_row(20, 20)).unwrap().updated, 20);
    assert_eq!(
        get_group_details(group_row(10, 20)).unwrap(),
        GroupDetails {
            id: 4,
            name: "North".to_string(),
            cong: 1,
            elder: 9,
            updated: 20,
            group_deleted: true,
            pair_deleted: false,
        }
    );
}

#[test]
fn user_name_joins_first_and_last_names() {
    let row = UserRow {
        id: Ok(5),
        firstname: Ok("Ann".to_string()),
        lastname: Ok("Lee".to_string()),
        deleted: Ok(false),
    };
    let details = get_user_details(row).unwrap();
    assert_eq!(details.name, "Ann Lee");
    assert_eq!(details.id, 5);
    let row = UserRow {
        id: Ok(5),
        firstname: Ok("Ann".to_string()),
        lastname: Err(missing("lastname")),
        deleted: Err(missing("deleted")),
    };
    assert_eq!(missing_column(&get_user_details(row).unwrap_err()), "lastname");
}

#[test]
fn map_image_is_left_out() {
    let row = MapRow {
        id: Ok(1),
        name: Ok("Map 1".to_string()),
        file_name: Ok("one.png".to_string()),
        assignee: Ok(2),
        assigner: Ok(3),
        category: Ok(4),
        deleted: Ok(false),
    };
    assert_eq!(
        get_map_details(row).unwrap(),
        MapDetails {
            id: 1,
            name: "Map 1".to_string(),
            image_name: "one.png".to_string(),
            assignee: 2,
            assigner: 3,
            image: None,
            category: 4,
            deleted: false,
        }
    );
}

#[test]
fn street_row_converts() {
    let row = StreetRow { id: Ok(1), map_id: Ok(2), name: Ok("High St".to_string()), deleted: Ok(true) };
    assert_eq!(
        street_row_to_details(row).unwrap(),
        StreetDetails { id: 1, map_id: 2, name: "High St".to_string(), deleted: true }
    );
}

#[test]
fn empty_tags_need_no_decoding() {
    assert!(!tags_are_encoded(&Ok(vec![])));
    assert!(tags_are_encoded(&Ok(vec![0x90])));
    assert!(!tags_are_encoded(&Err(missing("tags"))));
    let details = get_address_details(address_row(vec![], None)).unwrap();
    assert!(details.tags.is_empty());
    assert_eq!(details.number, "12a");
    assert!(details.visited);
}

#[test]
fn encoded_tags_are_taken_from_decoding() {
    let tags = vec![AddressTags::DoNotCall, AddressTags::Custom("dog".to_string())];
    let details = get_address_details(address_row(vec![1, 2], Some(Ok(tags)))).unwrap();
    assert_eq!(
        details.tags,
        vec![AddressTags::DoNotCall, AddressTags::Custom("dog".to_string())]
    );
    let error = get_address_details(address_row(
        vec![1, 2],
        Some(Err(rmp_serde::decode::Error::OutOfRange)),
    ))
    .unwrap_err();
    assert!(matches!(
        error,
        AddressError::DeserialiseError(rmp_serde::decode::Error::OutOfRange)
    ));
    let mut row = address_row(vec![], None);
    row.visited = Err(missing("visited"));
    assert!(matches!(get_address_details(row), Err(AddressError::SqlxError(_))));
}

#[test]
fn a_failed_query_is_a_query_failure() {
    assert!(matches!(
        congregations_from_rows(Err(sqlx::Error::RowNotFound)),
        Err(DbError::QueryFailure(sqlx::Error::RowNotFound))
    ));
    assert!(matches!(
        users_from_rows(Err(sqlx::Error::RowNotFound)),
        Err(DbError::QueryFailure(_))
    ));
    assert!(matches!(
        addresses_from_rows(Err(sqlx::Error::RowNotFound)),
        Err(DbError::QueryFailure(_))
    ));
}

#[test]
fn failing_rows_are_reported_by_list() {
    let bad_cong = CongRow { congregation_id: Err(missing("congregation_id")), ..cong_row(1) };
    assert!(matches!(
        congregations_from_rows(Ok(vec![cong_row(1), bad_cong])),
        Err(DbError::QueryFailure(_))
    ));
    let bad_street = StreetRow { id: Err(missing("id")), map_id: Ok(1), name: Ok(String::new()), deleted: Ok(false) };
    assert!(matches!(streets_from_rows(Ok(vec![bad_street])), Err(DbError::InvalidRow(_))));
    let bad_map = MapRow {
        id: Ok(1),
        name: Ok(String::new()),
        file_name: Ok(String::new()),
        assignee: Ok(1),
        assigner: Ok(1),
        category: Ok(1),
        deleted: Err(missing("deleted")),
    };
    assert!(matches!(maps_from_rows(Ok(vec![bad_map])), Err(DbError::InvalidRow(_))));
    let bad_category = CategoryRow {
        id: Ok(1),
        name: Err(missing("name")),
        prefix: Ok(String::new()),
        congregation: Ok(1),
        updated: Ok(1),
    };
    assert!(matches!(categories_from_rows(Ok(vec![bad_category])), Err(DbError::InvalidRow(_))));
    let bad_group = GroupRow { elder: Err(missing("elder")), ..group_row(1, 1) };
    assert!(matches!(groups_from_rows(Ok(vec![bad_group])), Err(DbError::InvalidRow(_))));
    let bad_address = address_row(vec![3], Some(Err(rmp_serde::decode::Error::OutOfRange)));
    assert!(matches!(
        addresses_from_rows(Ok(vec![bad_address])),
        Err(DbError::AddressFailure(AddressError::DeserialiseError(_)))
    ));
}

#[test]
fn good_rows_are_kept_in_order() {
    let congregations = congregations_from_rows(Ok(vec![cong_row(2), cong_row(1), cong_row(3)])).unwrap();
    let ids: Vec<u32> = congregations.iter().map(|c| c.cong_id).collect();
    assert_eq!(ids, vec![2, 1, 3]);
    assert!(congregations_from_rows(Ok(vec![])).unwrap().is_empty());
}

#[test]
fn a_lookup_needs_exactly_one_row() {
    assert_eq!(single_user_from_rows(Ok(vec![Ok(12)])).unwrap(), 12);
    assert!(matches!(single_user_from_rows(Ok(vec![])), Err(DbError::InvalidToken(0))));
    assert!(matches!(
        single_user_from_rows(Ok(vec![Ok(1), Ok(2)])),
        Err(DbError::InvalidToken(2))
    ));
    assert!(matches!(
        single_user_from_rows(Err(sqlx::Error::RowNotFound)),
        Err(DbError::QueryFailure(_))
    ));
}

#[test]
fn statements_report_failures() {
    assert!(statement_outcome(Ok(())).is_ok());
    assert!(matches!(
        statement_outcome(Err(sqlx::Error::RowNotFound)),
        Err(DbError::QueryFailure(_))
    ));
    assert_eq!(token_stored(Ok(()), [9; 32]).unwrap(), [9; 32]);
    assert!(matches!(
        token_stored(Err(sqlx::Error::RowNotFound), [9; 32]),
        Err(DbError::QueryFailure(_))
    ));
}

#[test]
fn a_group_is_removed_only_when_nobody_belongs_to_it() {
    assert_eq!(group_removal(Ok(0), 8).unwrap(), Some(Query::DeleteGroup { group_id: 8 }));
    assert_eq!(group_removal(Ok(2), 8).unwrap(), None);
    assert!(matches!(
        group_removal(Err(sqlx::Error::RowNotFound), 8),
        Err(DbError::QueryFailure(_))
    ));
}
