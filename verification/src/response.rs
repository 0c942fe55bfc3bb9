//! What a completed fetch delivers, and what the client reads from it.

use vstd::prelude::*;
use vstd::string::*;
use http::{HeaderMap, HeaderValue};
use crate::entity::{Entity, Metadata};
use crate::headers::{counts_in, header_values, pagination_in, Header, HeaderFault};
use crate::text::{decimal, usize_to_string};
use crate::types::{Counts, DataKind, MainList, Pagination};
use crate::windows::TableData;

verus! {

/// The body of an answer, as far as it could be read.
#[derive(Debug)]
pub enum Body {
    /// The metadata of the service.
    Metadata(Metadata),
    /// A page of a listing.
    List(Vec<Entity>),
    /// A single entity.
    Object(Entity),
    /// A body that has not the shape that the request asked for.
    Unreadable,
}

/// The answer to a request: its body and what its headers said.
#[derive(Debug)]
pub struct DataResponse {
    pub body: Body,
    pub pagination: Option<Pagination>,
    pub counts: Option<Counts>,
    pub page_text: String,
}

/// Why an answer could not be taken in.
#[derive(Clone, Copy, Debug, PartialEq, Eq, Structural)]
pub enum ResponseFault {
    /// A header that the kind of request needs gave no number.
    Header(HeaderFault),
    /// The body has not the shape that the kind of request asks for.
    Body,
}

/// The message for a body that has not the shape that its kind of request
/// asks for.
pub open spec fn unreadable_body_text() -> Seq<char> {
    "The body of the answer could not be read"@
}

impl ResponseFault {
    /// The fault in words, for the error log.
    pub open spec fn message_spec(&self) -> Seq<char> {
        match self {
            ResponseFault::Header(fault) => fault.message_spec(),
            ResponseFault::Body => unreadable_body_text(),
        }
    }

    /// The fault in words, for the error log.
    pub fn message(&self) -> (r: String)
        ensures
            r@ == self.message_spec(),
    {
        match self {
            ResponseFault::Header(fault) => fault.message(),
            ResponseFault::Body => String::from_str("The body of the answer could not be read"),
        }
    }
}

/// The body has the shape that a request of `kind` asks for: the metadata
/// for the metadata, a list of entities of the listed kind for a listing, an
/// entity of the right kind for a single entity.
pub open spec fn body_fits(kind: DataKind, body: Body) -> bool {
    match kind.subject() {
        None => body is Metadata,
        Some(list) => if kind.is_object() {
            body is Object && body->Object_0.list() == list
        } else {
            body is List && all_of(body->List_0@, list)
        },
    }
}

/// Whether the body has the shape that a request of `kind` asks for.
pub fn body_is_of(kind: DataKind, body: &Body) -> (r: bool)
    ensures
        r == body_fits(kind, *body),
{
    match kind.entity_list() {
        None => match body {
            Body::Metadata(_) => true,
            _ => false,
        },
        Some(list) => if kind.object() {
            match body {
                Body::Object(entity) => entity.list_kind() == list,
                _ => false,
            }
        } else {
            match body {
                Body::List(entities) => page_is_of(entities, list),
                _ => false,
            }
        },
    }
}

/// The paging that the headers of an answer report for a kind of request.
/// Only listings are paged.
pub open spec fn pagination_of(kind: DataKind, values: Map<Seq<char>, Seq<u8>>) -> Result<
    Option<Pagination>,
    HeaderFault,
> {
    if kind.is_paged() {
        match pagination_in(values) {
            Ok(p) => Ok(Some(p)),
            Err(e) => Err(e),
        }
    } else {
        Ok(None)
    }
}

/// The counts that the headers of an answer report for a kind of request.
/// Only single entities have counts, and a city has none.
pub open spec fn counts_of(kind: DataKind, values: Map<Seq<char>, Seq<u8>>) -> Result<
    Option<Counts>,
    HeaderFault,
> {
    match kind {
        DataKind::Country => match counts_in(
            values,
            Header::StatesCount,
            Some(Header::CitiesCount),
        ) {
            Ok(n) => Ok(Some(Counts::Country { states: n.0, cities: n.1 })),
            Err(e) => Err(e),
        },
        DataKind::State => match counts_in(values, Header::CitiesCount, None) {
            Ok(n) => Ok(Some(Counts::State { cities: n.0 })),
            Err(e) => Err(e),
        },
        DataKind::Region => match counts_in(
            values,
            Header::CountriesCount,
            Some(Header::SubregionsCount),
        ) {
            Ok(n) => Ok(Some(Counts::Region { countries: n.0, subregions: n.1 })),
            Err(e) => Err(e),
        },
        DataKind::Subregion => match counts_in(values, Header::CountriesCount, None) {
            Ok(n) => Ok(Some(Counts::Subregion { countries: n.0 })),
            Err(e) => Err(e),
        },
        DataKind::Currency => match counts_in(values, Header::CountriesCount, None) {
            Ok(n) => Ok(Some(Counts::Currency { countries: n.0 })),
            Err(e) => Err(e),
        },
        _ => Ok(None),
    }
}

/// The text that the page field starts with: the page that arrived, or `1`
/// where the answer is not paged.
pub open spec fn page_text_of(pagination: Option<Pagination>) -> Seq<char> {
    match pagination {
        Some(p) => decimal(p.page as nat),
        None => seq!['1'],
    }
}

/// The headers are read by the kind of the request alone: only a listing
/// gets a paging, and only a single entity that has related entities to count
/// gets counts. For every other kind the headers are not even looked at.
pub proof fn lemma_headers_follow_the_kind(kind: DataKind, values: Map<Seq<char>, Seq<u8>>)
    ensures
        pagination_of(kind, values) matches Ok(Some(_)) ==> kind.is_paged(),
        !kind.is_paged() ==> pagination_of(kind, values) == Ok::<Option<Pagination>, HeaderFault>(
            None,
        ),
        counts_of(kind, values) matches Ok(Some(_)) ==> kind.is_counted(),
        !kind.is_counted() ==> counts_of(kind, values) == Ok::<Option<Counts>, HeaderFault>(None),
{
}

/// Every entity of a page is of the kind of the listing.
pub open spec fn all_of(entities: Seq<Entity>, list: MainList) -> bool {
    forall|i: int| 0 <= i < entities.len() ==> (#[trigger] entities[i]).list() == list
}

/// Whether every entity of a page is of the kind of the listing.
pub fn page_is_of(entities: &Vec<Entity>, list: MainList) -> (r: bool)
    ensures
        r == all_of(entities@, list),
{
    let mut i: usize = 0;
    while i < entities.len()
        invariant
            i <= entities.len(),
            forall|j: int| 0 <= j < i ==> (#[trigger] entities@[j]).list() == list,
        decreases entities.len() - i,
    {
        if entities[i].list_kind() != list {
            return false;
        }
        i = i + 1;
    }
    true
}

/// Takes in the answer to a request of `kind`: reads from its headers what
/// belongs to the kind, and puts it beside the body: the paging of a listing,
/// the counts of a single entity, and the text that the page field starts
/// with. The first header that gives no number fails the whole answer; the
/// paging is read before the counts. An answer whose body has not the shape
/// of its kind fails too, so that it reaches the client as an error, with a
/// message, and never as an answer.
pub fn read_response(kind: DataKind, headers: &HeaderMap<HeaderValue>, body: Body) -> (r: Result<
    DataResponse,
    ResponseFault,
>)
    ensures
        match pagination_of(kind, header_values(*headers)) {
            Err(e) => r == Err::<DataResponse, ResponseFault>(ResponseFault::Header(e)),
            Ok(pagination) => match counts_of(kind, header_values(*headers)) {
                Err(e) => r == Err::<DataResponse, ResponseFault>(ResponseFault::Header(e)),
                Ok(counts) => if body_fits(kind, body) {
                    r.is_ok() && r.unwrap().body == body && r.unwrap().pagination == pagination
                        && r.unwrap().counts == counts && r.unwrap().page_text@ == page_text_of(
                        pagination,
                    )
                } else {
                    r == Err::<DataResponse, ResponseFault>(ResponseFault::Body)
                },
            },
        },
        r.is_ok() && !(kind is Metadata) ==> r.unwrap().holds_answer(kind),
{
    let pagination = if kind.main_list() || kind.filtered() {
        match Pagination::with_headers(headers) {
            Ok(p) => Some(p),
            Err(e) => {
                return Err(ResponseFault::Header(e));
            },
        }
    } else {
        None
    };
    let counts = match kind {
        DataKind::Country => Some(Counts::with_country_headers(headers)),
        DataKind::State => Some(Counts::with_state_headers(headers)),
        DataKind::Region => Some(Counts::with_region_headers(headers)),
        DataKind::Subregion => Some(Counts::with_subregion_headers(headers)),
        DataKind::Currency => Some(Counts::with_currency_headers(headers)),
        _ => None,
    };
    let counts = match counts {
        Some(Ok(c)) => Some(c),
        Some(Err(e)) => {
            return Err(ResponseFault::Header(e));
        },
        None => None,
    };
    if !body_is_of(kind, &body) {
        return Err(ResponseFault::Body);
    }
    let page_text = match pagination {
        Some(p) => usize_to_string(p.page),
        None => {
            proof {
                reveal_strlit("1");
            }
            let one = String::from_str("1");
            assert(one@ =~= seq!['1']);
            one
        },
    };
    Ok(DataResponse { body, pagination, counts, page_text })
}

impl DataResponse {
    /// The answer holds a page for a listing of `kind`: its body is a list
    /// of entities of the kind that is listed, and its headers told the paging.
    pub open spec fn holds_table(&self, kind: DataKind) -> bool {
        &&& kind.is_paged()
        &&& self.body is List
        &&& all_of(self.body->List_0@, kind.subject().unwrap())
        &&& self.pagination.is_some()
    }

    /// The answer holds the entity for a window of `kind`.
    pub open spec fn holds_object(&self, kind: DataKind) -> bool {
        &&& kind.is_object()
        &&& self.body is Object
        &&& self.body->Object_0.list() == kind.subject().unwrap()
    }

    /// The answer holds what a request of `kind` asks for: a page for a
    /// listing, an entity of the right kind for a single entity.
    pub open spec fn holds_answer(&self, kind: DataKind) -> bool {
        if kind.is_object() {
            self.holds_object(kind)
        } else {
            self.holds_table(kind)
        }
    }

    /// The page of a listing of `kind`, where the answer holds one.
    pub fn into_table(self, kind: DataKind) -> (r: Option<TableData>)
        ensures
            r.is_some() == self.holds_table(kind),
            r.is_some() ==> r.unwrap().data == self.body->List_0 && r.unwrap().pagination
                == self.pagination.unwrap() && r.unwrap().page_text == self.page_text,
    {
        if !(kind.main_list() || kind.filtered()) {
            return None;
        }
        let list = match kind.entity_list() {
            Some(list) => list,
            None => {
                return None;
            },
        };
        let pagination = match self.pagination {
            Some(p) => p,
            None => {
                return None;
            },
        };
        match self.body {
            Body::List(data) => {
                if page_is_of(&data, list) {
                    Some(TableData { data, pagination, page_text: self.page_text })
                } else {
                    None
                }
            },
            _ => None,
        }
    }

    /// The entity and the counts for a window of `kind`, where the answer
    /// holds them.
    pub fn into_object(self, kind: DataKind) -> (r: Option<(Entity, Option<Counts>)>)
        ensures
            r.is_some() == self.holds_object(kind),
            r.is_some() ==> r.unwrap().0 == self.body->Object_0 && r.unwrap().1 == self.counts,
    {
        if !kind.object() {
            return None;
        }
        let list = match kind.entity_list() {
            Some(list) => list,
            None => {
                return None;
            },
        };
        match self.body {
            Body::Object(entity) => {
                if entity.list_kind() == list {
                    Some((entity, self.counts))
                } else {
                    None
                }
            },
            _ => None,
        }
    }

    /// The metadata, where the answer holds it.
    pub fn into_metadata(self) -> (r: Option<Metadata>)
        ensures
            r.is_some() == (self.body is Metadata),
            r.is_some() ==> r.unwrap() == self.body->Metadata_0,
    {
        match self.body {
            Body::Metadata(metadata) => Some(metadata),
            _ => None,
        }
    }
}

} // verus!
