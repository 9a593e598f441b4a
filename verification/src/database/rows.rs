//! Rows read from the database, column by column, and the records built from
//! them. Each column holds what reading it gave: its value, or the error of
//! reading it. A record is built when every column it needs was read; else the
//! error of the first column that failed, in the order the columns are read,
//! is reported.
use vstd::prelude::*;
use vstd::string::*;

use crate::datatypes::{
    AddressDetails, AddressError, AddressTags, CategoryDetails, CongDetails, GroupDetails,
    MapDetails, StreetDetails, UserPublicDetails, UserPublicView, AddressView,
};

verus! {

/// A row type from which a record is built.
pub trait RowRecord: Sized {
    type Record: View;

    type Error;

    /// Whether the columns of this row agree with one another.
    spec fn well_formed(self) -> bool;

    /// The view of the record built from this row, or the first error of its
    /// columns.
    spec fn spec_record(self) -> Result<<Self::Record as View>::V, Self::Error>;

    fn into_record(self) -> (res: Result<Self::Record, Self::Error>)
        requires
            self.well_formed(),
        ensures
            match res {
                Ok(record) => self.spec_record() == Ok::<<Self::Record as View>::V, Self::Error>(
                    record@,
                ),
                Err(e) => self.spec_record() == Err::<<Self::Record as View>::V, Self::Error>(e),
            },
    ;
}

/// The views of the records built from `rows` in order, or the error of the
/// first row that fails.
pub open spec fn records_of<R: RowRecord>(rows: Seq<R>) -> Result<
    Seq<<R::Record as View>::V>,
    R::Error,
>
    decreases rows.len(),
{
    if rows.len() == 0 {
        Ok(Seq::empty())
    } else {
        match records_of(rows.drop_last()) {
            Err(e) => Err(e),
            Ok(done) => match rows.last().spec_record() {
                Ok(record) => Ok(done.push(record)),
                Err(e) => Err(e),
            },
        }
    }
}

/// A failure among the first rows is the failure of all of them.
pub proof fn records_of_prefix_failure<R: RowRecord>(rows: Seq<R>, k: int)
    requires
        0 <= k <= rows.len(),
        records_of(rows.take(k)) is Err,
    ensures
        records_of(rows) == records_of(rows.take(k)),
    decreases rows.len(),
{
    if k == rows.len() {
        assert(rows.take(k) =~= rows);
    } else {
        assert(rows.drop_last().take(k) =~= rows.take(k));
        records_of_prefix_failure(rows.drop_last(), k);
    }
}

/// Reading a list succeeds exactly when every row yields a record; the
/// records then come one per row, in the rows' order.
pub proof fn records_of_all_rows<R: RowRecord>(rows: Seq<R>)
    ensures
        records_of(rows) is Ok <==> (forall|i: int| 0 <= i < rows.len() ==> (#[trigger] rows[i].spec_record()) is Ok),
        records_of(rows) matches Ok(records) ==> records.len() == rows.len() && forall|i: int|
            0 <= i < rows.len() ==> rows[i].spec_record() == Ok::<
                <R::Record as View>::V,
                R::Error,
            >(#[trigger] records[i]),
    decreases rows.len(),
{
    if rows.len() > 0 {
        let front = rows.drop_last();
        records_of_all_rows(front);
        assert forall|i: int| 0 <= i < front.len() implies front[i] == rows[i] by {}
        if records_of(front) is Ok && !(rows.last().spec_record() is Ok) {
            assert(rows[rows.len() - 1].spec_record() == rows.last().spec_record());
        }
        if records_of(front) is Err {
            let k = choose|k: int| 0 <= k < front.len() && !(#[trigger] front[k].spec_record() is Ok);
            assert(rows[k] == front[k]);
        }
    }
}

/// The views of a vector of records.
pub open spec fn views_of<T: View>(records: Seq<T>) -> Seq<T::V> {
    records.map_values(|r: T| r@)
}

/// Builds the records of `rows` in order; stops at the first row that fails.
pub fn records_from<R: RowRecord>(rows: Vec<R>) -> (res: Result<Vec<R::Record>, R::Error>)
    requires
        forall|i: int| 0 <= i < rows@.len() ==> (#[trigger] rows@[i]).well_formed(),
    ensures
        match res {
            Ok(records) => records_of(rows@) == Ok::<Seq<<R::Record as View>::V>, R::Error>(
                views_of(records@),
            ),
            Err(e) => records_of(rows@) == Err::<Seq<<R::Record as View>::V>, R::Error>(e),
        },
{
    let ghost all = rows@;
    let mut records: Vec<R::Record> = Vec::new();
    assert(all.take(0) =~= Seq::<R>::empty());
    assert(views_of(records@) =~= Seq::<<R::Record as View>::V>::empty());
    for row in it: rows
        invariant
            all == it.seq(),
            forall|i: int| 0 <= i < all.len() ==> (#[trigger] all[i]).well_formed(),
            records_of(all.take(it.index() as int)) == Ok::<
                Seq<<R::Record as View>::V>,
                R::Error,
            >(views_of(records@)),
    {
        let ghost i = it.index() as int;
        assert(all.take(i + 1).drop_last() =~= all.take(i));
        assert(all.take(i + 1).last() == row);
        assert(all[i] == row);
        match row.into_record() {
            Ok(record) => {
                let ghost before = records@;
                records.push(record);
                assert(views_of(records@) =~= views_of(before).push(record@));
            },
            Err(e) => {
                proof {
                    records_of_prefix_failure(all, i + 1);
                }
                return Err(e);
            },
        }
    }
    assert(all.take(all.len() as int) =~= all);
    Ok(records)
}

/// A row of the congregations of a user.
pub struct CongRow {
    pub congregation_id: Result<u32, sqlx::Error>,
    pub name: Result<String, sqlx::Error>,
    pub deleted: Result<bool, sqlx::Error>,
    pub updated: Result<u32, sqlx::Error>,
}

/// A row of the categories table.
pub struct CategoryRow {
    pub id: Result<u32, sqlx::Error>,
    pub name: Result<String, sqlx::Error>,
    pub prefix: Result<String, sqlx::Error>,
    pub congregation: Result<u32, sqlx::Error>,
    pub updated: Result<u32, sqlx::Error>,
}

/// A row of the service groups of a user.
pub struct GroupRow {
    pub group_id: Result<u32, sqlx::Error>,
    pub name: Result<String, sqlx::Error>,
    pub congregation: Result<u32, sqlx::Error>,
    pub elder: Result<u32, sqlx::Error>,
    pub group_updated: Result<u32, sqlx::Error>,
    pub pair_updated: Result<u32, sqlx::Error>,
    pub group_deleted: Result<bool, sqlx::Error>,
    pub pair_deleted: Result<bool, sqlx::Error>,
}

/// A row of the users table.
pub struct UserRow {
    pub id: Result<u32, sqlx::Error>,
    pub firstname: Result<String, sqlx::Error>,
    pub lastname: Result<String, sqlx::Error>,
    pub deleted: Result<bool, sqlx::Error>,
}

/// A row of the maps table.
pub struct MapRow {
    pub id: Result<u32, sqlx::Error>,
    pub name: Result<String, sqlx::Error>,
    pub file_name: Result<String, sqlx::Error>,
    pub assignee: Result<u32, sqlx::Error>,
    pub assigner: Result<u32, sqlx::Error>,
    pub category: Result<u32, sqlx::Error>,
    pub deleted: Result<bool, sqlx::Error>,
}

/// A row of the streets table.
pub struct StreetRow {
    pub id: Result<u32, sqlx::Error>,
    pub map_id: Result<u32, sqlx::Error>,
    pub name: Result<String, sqlx::Error>,
    pub deleted: Result<bool, sqlx::Error>,
}

/// A row of the addresses table. The tags column holds the MessagePack bytes
/// of the tags; `decoded_tags` is what decoding them gave, present exactly
/// when the bytes were read and are not empty (see `tags_are_encoded`).
pub struct AddressRow {
    pub id: Result<u32, sqlx::Error>,
    pub street_id: Result<u32, sqlx::Error>,
    pub number: Result<String, sqlx::Error>,
    pub tags: Result<Vec<u8>, sqlx::Error>,
    pub decoded_tags: Option<Result<Vec<AddressTags>, rmp_serde::decode::Error>>,
    pub visited: Result<bool, sqlx::Error>,
    pub deleted: Result<bool, sqlx::Error>,
}

/// The congregation record of a row, or the first column error.
pub open spec fn spec_cong_details(row: CongRow) -> Result<CongDetails, sqlx::Error> {
    match (row.congregation_id, row.name, row.deleted, row.updated) {
        (Ok(cong_id), Ok(cong_name), Ok(remove), Ok(updated)) => Ok(
            CongDetails { cong_id, cong_name, remove, updated },
        ),
        (Err(e), _, _, _) => Err(e),
        (Ok(_), Err(e), _, _) => Err(e),
        (Ok(_), Ok(_), Err(e), _) => Err(e),
        (Ok(_), Ok(_), Ok(_), Err(e)) => Err(e),
    }
}

/// Converts a row of the congregations of a user.
pub fn cong_row_to_details(row: CongRow) -> (res: Result<CongDetails, sqlx::Error>)
    ensures
        res == spec_cong_details(row),
{
    let cong_id = match row.congregation_id {
        Ok(v) => v,
        Err(e) => return Err(e),
    };
    let cong_name = match row.name {
        Ok(v) => v,
        Err(e) => return Err(e),
    };
    let remove = match row.deleted {
        Ok(v) => v,
        Err(e) => return Err(e),
    };
    let updated = match row.updated {
        Ok(v) => v,
        Err(e) => return Err(e),
    };
    Ok(CongDetails { cong_id, cong_name, remove, updated })
}

impl RowRecord for CongRow {
    type Record = CongDetails;

    type Error = sqlx::Error;

    open spec fn well_formed(self) -> bool {
        true
    }

    open spec fn spec_record(self) -> Result<CongDetails, sqlx::Error> {
        spec_cong_details(self)
    }

    fn into_record(self) -> (res: Result<CongDetails, sqlx::Error>) {
        cong_row_to_details(self)
    }
}

/// The category record of a row, or the first column error. A category read
/// from the database is never marked for removal.
pub open spec fn spec_category_details(row: CategoryRow) -> Result<CategoryDetails, sqlx::Error> {
    match (row.id, row.name, row.prefix, row.congregation, row.updated) {
        (Ok(id), Ok(name), Ok(prefix), Ok(congregation), Ok(updated)) => Ok(
            CategoryDetails { id, name, prefix, congregation, updated, remove: false },
        ),
        (Err(e), _, _, _, _) => Err(e),
        (Ok(_), Err(e), _, _, _) => Err(e),
        (Ok(_), Ok(_), Err(e), _, _) => Err(e),
        (Ok(_), Ok(_), Ok(_), Err(e), _) => Err(e),
        (Ok(_), Ok(_), Ok(_), Ok(_), Err(e)) => Err(e),
    }
}

/// Converts a row of the categories table.
pub fn category_row_to_details(row: CategoryRow) -> (res: Result<CategoryDetails, sqlx::Error>)
    ensures
        res == spec_category_details(row),
{
    let id = match row.id {
        Ok(v) => v,
        Err(e) => return Err(e),
    };
    let name = match row.name {
        Ok(v) => v,
        Err(e) => return Err(e),
    };
    let prefix = match row.prefix {
        Ok(v) => v,
        Err(e) => return Err(e),
    };
    let congregation = match row.congregation {
        Ok(v) => v,
        Err(e) => return Err(e),
    };
    let updated = match row.updated {
        Ok(v) => v,
        Err(e) => return Err(e),
    };
    let remove = false;
    Ok(CategoryDetails { id, name, prefix, congregation, remove, updated })
}

impl RowRecord for CategoryRow {
    type Record = CategoryDetails;

    type Error = sqlx::Error;

    open spec fn well_formed(self) -> bool {
        true
    }

    open spec fn spec_record(self) -> Result<CategoryDetails, sqlx::Error> {
        spec_category_details(self)
    }

    fn into_record(self) -> (res: Result<CategoryDetails, sqlx::Error>) {
        category_row_to_details(self)
    }
}

/// The larger of two times.
pub open spec fn later(a: u32, b: u32) -> u32 {
    if a > b {
        a
    } else {
        b
    }
}

/// The group record of a row, or the first column error. A group counts as
/// updated at the later of its own update and that of the user's membership.
pub open spec fn spec_group_details(row: GroupRow) -> Result<GroupDetails, sqlx::Error> {
    match (
        row.group_id,
        row.name,
        row.congregation,
        row.elder,
        row.group_updated,
        row.pair_updated,
        row.group_deleted,
        row.pair_deleted,
    ) {
        (
            Ok(id),
            Ok(name),
            Ok(cong),
            Ok(elder),
            Ok(group_updated),
            Ok(pair_updated),
            Ok(group_deleted),
            Ok(pair_deleted),
        ) => Ok(
            GroupDetails {
                id,
                name,
                cong,
                elder,
                updated: later(group_updated, pair_updated),
                group_deleted,
                pair_deleted,
            },
        ),
        (Err(e), _, _, _, _, _, _, _) => Err(e),
        (Ok(_), Err(e), _, _, _, _, _, _) => Err(e),
        (Ok(_), Ok(_), Err(e), _, _, _, _, _) => Err(e),
        (Ok(_), Ok(_), Ok(_), Err(e), _, _, _, _) => Err(e),
        (Ok(_), Ok(_), Ok(_), Ok(_), Err(e), _, _, _) => Err(e),
        (Ok(_), Ok(_), Ok(_), Ok(_), Ok(_), Err(e), _, _) => Err(e),
        (Ok(_), Ok(_), Ok(_), Ok(_), Ok(_), Ok(_), Err(e), _) => Err(e),
        (Ok(_), Ok(_), Ok(_), Ok(_), Ok(_), Ok(_), Ok(_), Err(e)) => Err(e),
    }
}

/// Converts a row of the service groups of a user.
pub fn get_group_details(row: GroupRow) -> (res: Result<GroupDetails, sqlx::Error>)
    ensures
        res == spec_group_details(row),
{
    let id = match row.group_id {
        Ok(v) => v,
        Err(e) => return Err(e),
    };
    let name = match row.name {
        Ok(v) => v,
        Err(e) => return Err(e),
    };
    let cong = match row.congregation {
        Ok(v) => v,
        Err(e) => return Err(e),
    };
    let elder = match row.elder {
        Ok(v) => v,
        Err(e) => return Err(e),
    };
    let group_updated = match row.group_updated {
        Ok(v) => v,
        Err(e) => return Err(e),
    };
    let pair_updated = match row.pair_updated {
        Ok(v) => v,
        Err(e) => return Err(e),
    };
    let updated: u32 = if group_updated > pair_updated {
        group_updated
    } else {
        pair_updated
    };
    let group_deleted = match row.group_deleted {
        Ok(v) => v,
        Err(e) => return Err(e),
    };
    let pair_deleted = match row.pair_deleted {
        Ok(v) => v,
        Err(e) => return Err(e),
    };
    Ok(GroupDetails { id, name, cong, elder, updated, group_deleted, pair_deleted })
}

impl RowRecord for GroupRow {
    type Record = GroupDetails;

    type Error = sqlx::Error;

    open spec fn well_formed(self) -> bool {
        true
    }

    open spec fn spec_record(self) -> Result<GroupDetails, sqlx::Error> {
        spec_group_details(self)
    }

    fn into_record(self) -> (res: Result<GroupDetails, sqlx::Error>) {
        get_group_details(self)
    }
}

/// The text of a first name, a space, and a last name.
pub open spec fn full_name(first: Seq<char>, last: Seq<char>) -> Seq<char> {
    first + " "@ + last
}

/// The public record of a user row, or the first column error. The name shown
/// is the first name, a space, and the last name.
pub open spec fn spec_user_details(row: UserRow) -> Result<UserPublicView, sqlx::Error> {
    match (row.id, row.firstname, row.lastname, row.deleted) {
        (Ok(id), Ok(first), Ok(last), Ok(deleted)) => Ok(
            UserPublicView { id, name: full_name(first@, last@), deleted },
        ),
        (Err(e), _, _, _) => Err(e),
        (Ok(_), Err(e), _, _) => Err(e),
        (Ok(_), Ok(_), Err(e), _) => Err(e),
        (Ok(_), Ok(_), Ok(_), Err(e)) => Err(e),
    }
}

/// Joins a first and a last name with a space.
fn join_names(first: String, last: &str) -> (name: String)
    ensures
        name@ == full_name(first@, last@),
{
    let mut name = first;
    name.append(" ");
    name.append(last);
    name
}

/// Converts a row of the users table.
pub fn get_user_details(row: UserRow) -> (res: Result<UserPublicDetails, sqlx::Error>)
    ensures
        match res {
            Ok(details) => spec_user_details(row) == Ok::<UserPublicView, sqlx::Error>(details@),
            Err(e) => spec_user_details(row) == Err::<UserPublicView, sqlx::Error>(e),
        },
{
    let id = match row.id {
        Ok(v) => v,
        Err(e) => return Err(e),
    };
    let firstname = match row.firstname {
        Ok(v) => v,
        Err(e) => return Err(e),
    };
    let lastname = match row.lastname {
        Ok(v) => v,
        Err(e) => return Err(e),
    };
    let deleted = match row.deleted {
        Ok(v) => v,
        Err(e) => return Err(e),
    };
    let name = join_names(firstname, lastname.as_str());
    Ok(UserPublicDetails { id, name, deleted })
}

impl RowRecord for UserRow {
    type Record = UserPublicDetails;

    type Error = sqlx::Error;

    open spec fn well_formed(self) -> bool {
        true
    }

    open spec fn spec_record(self) -> Result<UserPublicView, sqlx::Error> {
        spec_user_details(self)
    }

    fn into_record(self) -> (res: Result<UserPublicDetails, sqlx::Error>) {
        get_user_details(self)
    }
}

/// The map record of a row, or the first column error. The image is not
/// read from the database: it is left out.
pub open spec fn spec_map_details(row: MapRow) -> Result<MapDetails, sqlx::Error> {
    match (
        row.id,
        row.name,
        row.file_name,
        row.assignee,
        row.assigner,
        row.category,
        row.deleted,
    ) {
        (Ok(id), Ok(name), Ok(image_name), Ok(assignee), Ok(assigner), Ok(category), Ok(deleted)) => Ok(
            MapDetails { id, name, image_name, assignee, assigner, image: None, category, deleted },
        ),
        (Err(e), _, _, _, _, _, _) => Err(e),
        (Ok(_), Err(e), _, _, _, _, _) => Err(e),
        (Ok(_), Ok(_), Err(e), _, _, _, _) => Err(e),
        (Ok(_), Ok(_), Ok(_), Err(e), _, _, _) => Err(e),
        (Ok(_), Ok(_), Ok(_), Ok(_), Err(e), _, _) => Err(e),
        (Ok(_), Ok(_), Ok(_), Ok(_), Ok(_), Err(e), _) => Err(e),
        (Ok(_), Ok(_), Ok(_), Ok(_), Ok(_), Ok(_), Err(e)) => Err(e),
    }
}

/// Converts a row of the maps table.
pub fn get_map_details(row: MapRow) -> (res: Result<MapDetails, sqlx::Error>)
    ensures
        res == spec_map_details(row),
{
    let id = match row.id {
        Ok(v) => v,
        Err(e) => return Err(e),
    };
    let name = match row.name {
        Ok(v) => v,
        Err(e) => return Err(e),
    };
    let image_name = match row.file_name {
        Ok(v) => v,
        Err(e) => return Err(e),
    };
    let assignee = match row.assignee {
        Ok(v) => v,
        Err(e) => return Err(e),
    };
    let assigner = match row.assigner {
        Ok(v) => v,
        Err(e) => return Err(e),
    };
    let category = match row.category {
        Ok(v) => v,
        Err(e) => return Err(e),
    };
    let deleted = match row.deleted {
        Ok(v) => v,
        Err(e) => return Err(e),
    };
    Ok(MapDetails { id, name, image_name, assignee, assigner, image: None, category, deleted })
}

impl RowRecord for MapRow {
    type Record = MapDetails;

    type Error = sqlx::Error;

    open spec fn well_formed(self) -> bool {
        true
    }

    open spec fn spec_record(self) -> Result<MapDetails, sqlx::Error> {
        spec_map_details(self)
    }

    fn into_record(self) -> (res: Result<MapDetails, sqlx::Error>) {
        get_map_details(self)
    }
}

/// The street record of a row, or the first column error.
pub open spec fn spec_street_details(row: StreetRow) -> Result<StreetDetails, sqlx::Error> {
    match (row.id, row.map_id, row.name, row.deleted) {
        (Ok(id), Ok(map_id), Ok(name), Ok(deleted)) => Ok(
            StreetDetails { id, map_id, name, deleted },
        ),
        (Err(e), _, _, _) => Err(e),
        (Ok(_), Err(e), _, _) => Err(e),
        (Ok(_), Ok(_), Err(e), _) => Err(e),
        (Ok(_), Ok(_), Ok(_), Err(e)) => Err(e),
    }
}

/// Converts a row of the streets table.
pub fn street_row_to_details(row: StreetRow) -> (res: Result<StreetDetails, sqlx::Error>)
    ensures
        res == spec_street_details(row),
{
    let id = match row.id {
        Ok(v) => v,
        Err(e) => return Err(e),
    };
    let map_id = match row.map_id {
        Ok(v) => v,
        Err(e) => return Err(e),
    };
    let name = match row.name {
        Ok(v) => v,
        Err(e) => return Err(e),
    };
    let deleted = match row.deleted {
        Ok(v) => v,
        Err(e) => return Err(e),
    };
    Ok(StreetDetails { id, map_id, name, deleted })
}

impl RowRecord for StreetRow {
    type Record = StreetDetails;

    type Error = sqlx::Error;

    open spec fn well_formed(self) -> bool {
        true
    }

    open spec fn spec_record(self) -> Result<StreetDetails, sqlx::Error> {
        spec_street_details(self)
    }

    fn into_record(self) -> (res: Result<StreetDetails, sqlx::Error>) {
        street_row_to_details(self)
    }
}

/// Whether the tags column, as read, holds encoded tags that must be decoded:
/// it was read and is not empty.
pub open spec fn spec_tags_are_encoded(tags: Result<Vec<u8>, sqlx::Error>) -> bool {
    tags matches Ok(bytes) && bytes@.len() > 0
}

/// Whether the tags column, as read, holds encoded tags that must be decoded.
pub fn tags_are_encoded(tags: &Result<Vec<u8>, sqlx::Error>) -> (encoded: bool)
    ensures
        encoded == spec_tags_are_encoded(*tags),
{
    match tags {
        Ok(bytes) => bytes.len() > 0,
        Err(_) => false,
    }
}

/// The address record of a row, or the first error: of a column, or of
/// decoding non-empty tags. Empty tag bytes stand for no tags.
pub open spec fn spec_address_details(row: AddressRow) -> Result<AddressView, AddressError> {
    match (row.id, row.street_id, row.number, row.tags) {
        (Err(e), _, _, _) => Err(AddressError::SqlxError(e)),
        (Ok(_), Err(e), _, _) => Err(AddressError::SqlxError(e)),
        (Ok(_), Ok(_), Err(e), _) => Err(AddressError::SqlxError(e)),
        (Ok(_), Ok(_), Ok(_), Err(e)) => Err(AddressError::SqlxError(e)),
        (Ok(id), Ok(street_id), Ok(number), Ok(bytes)) => {
            let tags: Result<Seq<AddressTags>, AddressError> = if bytes@.len() > 0 {
                match row.decoded_tags {
                    Some(Err(d)) => Err(AddressError::DeserialiseError(d)),
                    Some(Ok(tags)) => Ok(tags@),
                    None => Ok(Seq::empty()),
                }
            } else {
                Ok(Seq::empty())
            };
            match (tags, row.visited, row.deleted) {
                (Err(e), _, _) => Err(e),
                (Ok(_), Err(e), _) => Err(AddressError::SqlxError(e)),
                (Ok(_), Ok(_), Err(e)) => Err(AddressError::SqlxError(e)),
                (Ok(tags), Ok(visited), Ok(deleted)) => Ok(
                    AddressView { id, street_id, number: number@, tags, visited, deleted },
                ),
            }
        },
    }
}

/// Converts a row of the addresses table.
pub fn get_address_details(row: AddressRow) -> (res: Result<AddressDetails, AddressError>)
    requires
        row.decoded_tags is Some <==> spec_tags_are_encoded(row.tags),
    ensures
        match res {
            Ok(details) => spec_address_details(row) == Ok::<AddressView, AddressError>(
                details@,
            ),
            Err(e) => spec_address_details(row) == Err::<AddressView, AddressError>(e),
        },
{
    let id = match row.id {
        Ok(v) => v,
        Err(e) => return Err(AddressError::SqlxError(e)),
    };
    let street_id = match row.street_id {
        Ok(v) => v,
        Err(e) => return Err(AddressError::SqlxError(e)),
    };
    let number = match row.number {
        Ok(v) => v,
        Err(e) => return Err(AddressError::SqlxError(e)),
    };
    let tags_serialised = match row.tags {
        Ok(v) => v,
        Err(e) => return Err(AddressError::SqlxError(e)),
    };
    let tags = if tags_serialised.len() > 0 {
        match row.decoded_tags {
            Some(Ok(tags)) => tags,
            Some(Err(d)) => return Err(AddressError::DeserialiseError(d)),
            None => vstd::pervasive::unreached(),
        }
    } else {
        Vec::new()
    };
    let visited = match row.visited {
        Ok(v) => v,
        Err(e) => return Err(AddressError::SqlxError(e)),
    };
    let deleted = match row.deleted {
        Ok(v) => v,
        Err(e) => return Err(AddressError::SqlxError(e)),
    };
    let details = AddressDetails { id, street_id, number, tags, visited, deleted };
    assert(details@.tags =~= details.tags@);
    Ok(details)
}

impl RowRecord for AddressRow {
    type Record = AddressDetails;

    type Error = AddressError;

    open spec fn well_formed(self) -> bool {
        self.decoded_tags is Some <==> spec_tags_are_encoded(self.tags)
    }

    open spec fn spec_record(self) -> Result<AddressView, AddressError> {
        spec_address_details(self)
    }

    fn into_record(self) -> (res: Result<AddressDetails, AddressError>) {
        get_address_details(self)
    }
}

/// A congregation read from a row is built exactly when every column was
/// read, each field from the column it is named after (`cong_id` from
/// `congregation_id`, `cong_name` from `name`, `remove` from `deleted`); a
/// failed first column is the error.
pub proof fn congregation_fields_are_its_columns(row: CongRow)
    ensures
        spec_cong_details(row) is Ok <==> (row.congregation_id is Ok && row.name is Ok
            && row.deleted is Ok && row.updated is Ok),
        spec_cong_details(row) matches Ok(cong) ==> {
            &&& row.congregation_id == Ok::<u32, sqlx::Error>(cong.cong_id)
            &&& row.name == Ok::<String, sqlx::Error>(cong.cong_name)
            &&& row.deleted == Ok::<bool, sqlx::Error>(cong.remove)
            &&& row.updated == Ok::<u32, sqlx::Error>(cong.updated)
        },
        row.congregation_id matches Err(e) ==> spec_cong_details(row) == Err::<
            CongDetails,
            sqlx::Error,
        >(e),
{
}

/// A category read from a row is built exactly when every column was read,
/// each field from the column of the same name, and is never marked for
/// removal; a failed first column is the error.
pub proof fn category_fields_are_its_columns(row: CategoryRow)
    ensures
        spec_category_details(row) is Ok <==> (row.id is Ok && row.name is Ok && row.prefix is Ok
            && row.congregation is Ok && row.updated is Ok),
        spec_category_details(row) matches Ok(category) ==> {
            &&& row.id == Ok::<u32, sqlx::Error>(category.id)
            &&& row.name == Ok::<String, sqlx::Error>(category.name)
            &&& row.prefix == Ok::<String, sqlx::Error>(category.prefix)
            &&& row.congregation == Ok::<u32, sqlx::Error>(category.congregation)
            &&& row.updated == Ok::<u32, sqlx::Error>(category.updated)
            &&& !category.remove
        },
        row.id matches Err(e) ==> spec_category_details(row) == Err::<CategoryDetails, sqlx::Error>(
            e,
        ),
{
}

/// A service group read from a row is built exactly when every column was
/// read, each field from the column of the same name (`id` from `group_id`,
/// `cong` from `congregation`); it counts as updated at the later of the
/// group's and the membership's update times. A failed first column is the
/// error.
pub proof fn group_fields_are_its_columns(row: GroupRow)
    ensures
        spec_group_details(row) is Ok <==> (row.group_id is Ok && row.name is Ok
            && row.congregation is Ok && row.elder is Ok && row.group_updated is Ok
            && row.pair_updated is Ok && row.group_deleted is Ok && row.pair_deleted is Ok),
        spec_group_details(row) matches Ok(group) ==> {
            &&& row.group_id == Ok::<u32, sqlx::Error>(group.id)
            &&& row.name == Ok::<String, sqlx::Error>(group.name)
            &&& row.congregation == Ok::<u32, sqlx::Error>(group.cong)
            &&& row.elder == Ok::<u32, sqlx::Error>(group.elder)
            &&& row.group_deleted == Ok::<bool, sqlx::Error>(group.group_deleted)
            &&& row.pair_deleted == Ok::<bool, sqlx::Error>(group.pair_deleted)
            &&& row.group_updated matches Ok(group_time)
            &&& row.pair_updated matches Ok(pair_time)
            &&& group.updated >= group_time && group.updated >= pair_time
            &&& group.updated == group_time || group.updated == pair_time
        },
        row.group_id matches Err(e) ==> spec_group_details(row) == Err::<GroupDetails, sqlx::Error>(
            e,
        ),
{
}

/// A user read from a row is built exactly when every column was read: its
/// id and deletion flag are those columns, and its name is the first name, a
/// space and the last name. A failed first column is the error.
pub proof fn user_fields_are_its_columns(row: UserRow)
    ensures
        spec_user_details(row) is Ok <==> (row.id is Ok && row.firstname is Ok
            && row.lastname is Ok && row.deleted is Ok),
        spec_user_details(row) matches Ok(user) ==> {
            &&& row.id == Ok::<u32, sqlx::Error>(user.id)
            &&& row.deleted == Ok::<bool, sqlx::Error>(user.deleted)
            &&& row.firstname matches Ok(first)
            &&& row.lastname matches Ok(last)
            &&& user.name == first@ + " "@ + last@
        },
        row.id matches Err(e) ==> spec_user_details(row) == Err::<UserPublicView, sqlx::Error>(e),
{
}

/// A map read from a row is built exactly when every column was read, each
/// field from the column of the same name (`image_name` from `file_name`),
/// and without an image. A failed first column is the error.
pub proof fn map_fields_are_its_columns(row: MapRow)
    ensures
        spec_map_details(row) is Ok <==> (row.id is Ok && row.name is Ok && row.file_name is Ok
            && row.assignee is Ok && row.assigner is Ok && row.category is Ok
            && row.deleted is Ok),
        spec_map_details(row) matches Ok(map) ==> {
            &&& row.id == Ok::<u32, sqlx::Error>(map.id)
            &&& row.name == Ok::<String, sqlx::Error>(map.name)
            &&& row.file_name == Ok::<String, sqlx::Error>(map.image_name)
            &&& row.assignee == Ok::<u32, sqlx::Error>(map.assignee)
            &&& row.assigner == Ok::<u32, sqlx::Error>(map.assigner)
            &&& row.category == Ok::<u32, sqlx::Error>(map.category)
            &&& row.deleted == Ok::<bool, sqlx::Error>(map.deleted)
            &&& map.image is None
        },
        row.id matches Err(e) ==> spec_map_details(row) == Err::<MapDetails, sqlx::Error>(e),
{
}

/// A street read from a row is built exactly when every column was read,
/// each field from the column of the same name. A failed first column is the
/// error.
pub proof fn street_fields_are_its_columns(row: StreetRow)
    ensures
        spec_street_details(row) is Ok <==> (row.id is Ok && row.map_id is Ok && row.name is Ok
            && row.deleted is Ok),
        spec_street_details(row) matches Ok(street) ==> {
            &&& row.id == Ok::<u32, sqlx::Error>(street.id)
            &&& row.map_id == Ok::<u32, sqlx::Error>(street.map_id)
            &&& row.name == Ok::<String, sqlx::Error>(street.name)
            &&& row.deleted == Ok::<bool, sqlx::Error>(street.deleted)
        },
        row.id matches Err(e) ==> spec_street_details(row) == Err::<StreetDetails, sqlx::Error>(e),
{
}

/// An address read from a row is built exactly when every column was read
/// and its tags, when there are any bytes of them, decoded; each field comes
/// from the column of the same name, and the tags are none when the bytes
/// are empty and the decoded tags otherwise. A failed first column is the
/// error.
pub proof fn address_fields_are_its_columns(row: AddressRow)
    requires
        row.decoded_tags is Some <==> spec_tags_are_encoded(row.tags),
    ensures
        spec_address_details(row) is Ok <==> (row.id is Ok && row.street_id is Ok
            && row.number is Ok && row.tags is Ok && !(row.decoded_tags matches Some(Err(_)))
            && row.visited is Ok && row.deleted is Ok),
        spec_address_details(row) matches Ok(address) ==> {
            &&& row.id == Ok::<u32, sqlx::Error>(address.id)
            &&& row.street_id == Ok::<u32, sqlx::Error>(address.street_id)
            &&& row.visited == Ok::<bool, sqlx::Error>(address.visited)
            &&& row.deleted == Ok::<bool, sqlx::Error>(address.deleted)
            &&& row.number matches Ok(number)
            &&& address.number == number@
            &&& row.tags matches Ok(bytes)
            &&& if bytes@.len() == 0 {
                address.tags == Seq::<AddressTags>::empty()
            } else {
                row.decoded_tags matches Some(Ok(tags)) && address.tags == tags@
            }
        },
        row.id matches Err(e) ==> spec_address_details(row) == Err::<AddressView, AddressError>(
            AddressError::SqlxError(e),
        ),
{
}

} // verus!
