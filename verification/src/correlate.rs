//! Where a completed fetch belongs: the rules by which an outcome changes a
//! table or a registry, stated on the values themselves.

use vstd::prelude::*;
use vstd::string::*;
use crate::entity::Entity;
use crate::registry::keys_of;
use crate::response::DataResponse;
use crate::types::{Counts, DataKind};
use crate::windows::{FilteredTableData, ObjectData, Page, TableData};

verus! {

/// The page that an answer holds for a listing of `kind`, if it holds one.
pub open spec fn table_of(response: DataResponse, kind: DataKind) -> Option<TableData> {
    if response.holds_table(kind) {
        Some(
            TableData {
                data: response.body->List_0,
                pagination: response.pagination.unwrap(),
                page_text: response.page_text,
            },
        )
    } else {
        None
    }
}

/// The rows and the paging that an answer holds for a listing of `kind`,
/// if it holds a page.
pub open spec fn page_of(response: DataResponse, kind: DataKind) -> Option<Page> {
    if response.holds_table(kind) {
        Some(Page { data: response.body->List_0, pagination: response.pagination.unwrap() })
    } else {
        None
    }
}

/// A top-level table after an outcome for its listing arrived: an answer
/// that holds a page replaces the table outright; a failed fetch and an
/// answer that holds no page leave the table as it is.
pub open spec fn table_after(
    table: Option<TableData>,
    kind: DataKind,
    outcome: Result<DataResponse, String>,
) -> Option<TableData> {
    match outcome {
        Ok(response) => if response.holds_table(kind) {
            table_of(response, kind)
        } else {
            table
        },
        Err(_) => table,
    }
}

/// The window of a single entity once its entity and counts have arrived.
/// The title and the flag stay.
pub open spec fn object_filled(window: ObjectData, entity: Entity, counts: Option<Counts>) -> ObjectData {
    ObjectData { data: Some(entity), show: window.show, title: window.title, counts }
}

/// The window of a filtered listing once a page has arrived: the rows and
/// the paging are those of the page. The title, the flag and the text of the
/// page field stay.
pub open spec fn filtered_filled(window: FilteredTableData, page: Page) -> FilteredTableData {
    FilteredTableData {
        data: Some(page),
        show: window.show,
        title: window.title,
        page_text: window.page_text,
    }
}

/// The windows of a kind of single entity after an outcome of that kind
/// arrived. An answer that holds an entity fills the window that is
/// registered under the key of that entity; where no window is, because it
/// was closed meanwhile, the answer is dropped. Any other outcome changes
/// no window.
pub open spec fn objects_after(
    entries: Seq<(Seq<char>, ObjectData)>,
    kind: DataKind,
    outcome: Result<DataResponse, String>,
) -> Seq<(Seq<char>, ObjectData)> {
    match outcome {
        Ok(response) => {
            let key = response.body->Object_0.key_spec().text();
            if response.holds_object(kind) && keys_of(entries).contains(key) {
                let place = keys_of(entries).index_of(key);
                entries.update(
                    place,
                    (
                        entries[place].0,
                        object_filled(entries[place].1, response.body->Object_0, response.counts),
                    ),
                )
            } else {
                entries
            }
        },
        Err(_) => entries,
    }
}

/// The key of the entity that owns the page of a filtered listing, read
/// from the first entity of the page. An answer without a page, an empty
/// page, and a first entity that holds nothing of its owner tell no key.
pub open spec fn owner_of_page(response: DataResponse, kind: DataKind) -> Option<Seq<char>> {
    if kind.is_filtered() && response.holds_table(kind) && response.body->List_0@.len() > 0 {
        response.body->List_0@[0].owner_key(kind)
    } else {
        None
    }
}

/// The windows of a kind of filtered listing after an outcome of that kind
/// arrived. The page goes to the window that is registered under the key of
/// its owner, whatever was asked for first; where no window is, the answer is
/// dropped. An outcome that tells no owner changes no window.
pub open spec fn filtered_after(
    entries: Seq<(Seq<char>, FilteredTableData)>,
    kind: DataKind,
    outcome: Result<DataResponse, String>,
) -> Seq<(Seq<char>, FilteredTableData)> {
    match outcome {
        Ok(response) => match owner_of_page(response, kind) {
            Some(key) => if keys_of(entries).contains(key) {
                let place = keys_of(entries).index_of(key);
                entries.update(
                    place,
                    (
                        entries[place].0,
                        filtered_filled(entries[place].1, page_of(response, kind).unwrap()),
                    ),
                )
            } else {
                entries
            },
            None => entries,
        },
        Err(_) => entries,
    }
}

/// The message for a page of a filtered listing that does not tell its
/// owner.
pub open spec fn routing_text(kind: DataKind) -> Seq<char> {
    match kind {
        DataKind::CountriesByRegion => "Region id not found on list of countries from the API"@,
        DataKind::CountriesBySubregion => "Subregion id not found on list of countries from the API"@,
        DataKind::CountriesByCurrency => "Currency id not found on list of countries from the API"@,
        DataKind::StatesByCountry => "Country id not found on list of states from the API"@,
        DataKind::CitiesByCountry => "Country id not found on list of cities from the API"@,
        DataKind::CitiesByState => "State id not found on list of cities from the API"@,
        _ => "Region id not found on list of subregions from the API"@,
    }
}

/// The message for an answer whose body has not the shape that its kind
/// of request asks for.
pub open spec fn unread_text() -> Seq<char> {
    "The answer of the service could not be read"@
}

/// What an outcome adds to the error log: the message of a failed fetch; the
/// message for an answer that does not hold what its kind asks for; or the
/// routing message for a page of a filtered listing that does not tell its
/// owner. Every other outcome adds nothing.
pub open spec fn error_of(kind: DataKind, outcome: Result<DataResponse, String>) -> Option<
    Seq<char>,
> {
    match outcome {
        Err(message) => Some(message@),
        Ok(response) => if !response.holds_answer(kind) {
            Some(unread_text())
        } else if kind.is_filtered() && owner_of_page(response, kind).is_none() {
            Some(routing_text(kind))
        } else {
            None
        },
    }
}

/// The message for an answer whose body has not the shape that its kind
/// of request asks for.
pub fn unread_message() -> (r: String)
    ensures
        r@ == unread_text(),
{
    String::from_str("The answer of the service could not be read")
}

/// The texts of the messages of an error log.
pub open spec fn texts(errors: Seq<String>) -> Seq<Seq<char>> {
    errors.map_values(|s: String| s@)
}

/// The error log after an outcome arrived.
pub open spec fn errors_after(
    errors: Seq<Seq<char>>,
    kind: DataKind,
    outcome: Result<DataResponse, String>,
) -> Seq<Seq<char>> {
    match error_of(kind, outcome) {
        Some(message) => errors.push(message),
        None => errors,
    }
}

/// The message for a page of a filtered listing that does not tell its
/// owner.
pub fn routing_message(kind: DataKind) -> (r: String)
    ensures
        r@ == routing_text(kind),
{
    String::from_str(
        match kind {
            DataKind::CountriesByRegion => "Region id not found on list of countries from the API",
            DataKind::CountriesBySubregion => "Subregion id not found on list of countries from the API",
            DataKind::CountriesByCurrency => "Currency id not found on list of countries from the API",
            DataKind::StatesByCountry => "Country id not found on list of states from the API",
            DataKind::CitiesByCountry => "Country id not found on list of cities from the API",
            DataKind::CitiesByState => "State id not found on list of cities from the API",
            _ => "Region id not found on list of subregions from the API",
        },
    )
}

} // verus!
