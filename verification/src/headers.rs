//! Reading the numbers that the service sends in the headers of its answers.

use vstd::prelude::*;
use vstd::string::*;
use http::{HeaderMap, HeaderValue};
use crate::text::{parse_spec, parse_usize};
use crate::types::{Counts, Pagination};

verus! {

/// `http::HeaderMap`, the headers of an answer. Nothing is known of a value
/// of it but what the functions below tell.
#[verifier::external_type_specification]
#[verifier::external_body]
#[verifier::reject_recursive_types(T)]
pub struct ExHeaderMap<T>(HeaderMap<T>);

/// `http::HeaderValue`, the value of one header.
#[verifier::external_type_specification]
#[verifier::external_body]
pub struct ExHeaderValue(HeaderValue);

/// What a header map answers when asked for a header by name: for each name
/// under which it finds a header, the bytes of the first value of that header.
pub uninterp spec fn header_values(headers: HeaderMap<HeaderValue>) -> Map<Seq<char>, Seq<u8>>;

/// The bytes of a header value.
pub uninterp spec fn value_bytes(value: HeaderValue) -> Seq<u8>;

/// A byte that may stand in a header value that is text: a printable ASCII
/// character, a space or a tab.
pub open spec fn is_visible_ascii(b: u8) -> bool {
    (32 <= b && b < 127) || b == 9
}

/// Every byte may stand in a header value that is text.
pub open spec fn text_bytes(bytes: Seq<u8>) -> bool {
    forall|i: int| 0 <= i < bytes.len() ==> is_visible_ascii(#[trigger] bytes[i])
}

/// The characters that ASCII bytes stand for.
pub open spec fn bytes_as_chars(bytes: Seq<u8>) -> Seq<char> {
    Seq::new(bytes.len(), |i: int| bytes[i] as char)
}

/// Calls `http::HeaderMap::get` with the name as a `&str` and hands out a
/// copy of the value found. The map answers with the first value of the
/// header of that name, or with nothing where it holds no such header; what
/// it answers for each name is what `header_values` names.
#[verifier::external_body]
fn header_get(headers: &HeaderMap<HeaderValue>, name: &str) -> (r: Option<HeaderValue>)
    ensures
        r.is_some() == header_values(*headers).contains_key(name@),
        r.is_some() ==> value_bytes(r.unwrap()) == header_values(*headers)[name@],
{
    headers.get(name).cloned()
}

/// Calls `http::HeaderValue::to_str`. It yields the value as text if every
/// byte of it is a printable ASCII character, a space or a tab, each byte then
/// standing for the character of its number; otherwise it fails.
#[verifier::external_body]
fn header_to_str(value: &HeaderValue) -> (r: Option<String>)
    ensures
        r.is_some() == text_bytes(value_bytes(*value)),
        r.is_some() ==> r.unwrap()@ == bytes_as_chars(value_bytes(*value)),
{
    value.to_str().ok().map(|s| s.to_string())
}

/// The headers that carry a number.
#[derive(Clone, Copy, Debug, PartialEq, Eq, Structural)]
pub enum Header {
    PaginationCount,
    PaginationTotalCount,
    PaginationPage,
    PaginationLimit,
    PaginationTotalPages,
    StatesCount,
    CitiesCount,
    CountriesCount,
    SubregionsCount,
}

/// Why a header gave no number.
#[derive(Clone, Copy, Debug, PartialEq, Eq, Structural)]
pub enum HeaderError {
    /// The answer has no header of that name.
    Missing,
    /// The value of the header is not text.
    NotText,
    /// The text of the header is not an unsigned decimal number that fits.
    NotNumber,
}

/// A header and why it gave no number.
#[derive(Clone, Copy, Debug, PartialEq, Eq, Structural)]
pub struct HeaderFault {
    pub header: Header,
    pub error: HeaderError,
}

impl Header {
    /// The name of the header.
    pub open spec fn name_spec(self) -> Seq<char> {
        match self {
            Header::PaginationCount => "Pagination-Count"@,
            Header::PaginationTotalCount => "Pagination-Total-Count"@,
            Header::PaginationPage => "Pagination-Page"@,
            Header::PaginationLimit => "Pagination-Limit"@,
            Header::PaginationTotalPages => "Pagination-Total-Pages"@,
            Header::StatesCount => "States-Count"@,
            Header::CitiesCount => "Cities-Count"@,
            Header::CountriesCount => "Countries-Count"@,
            Header::SubregionsCount => "Subregions-Count"@,
        }
    }

    /// What the number of the header counts, in words.
    pub open spec fn words_spec(self) -> Seq<char> {
        match self {
            Header::PaginationCount => "pagination count"@,
            Header::PaginationTotalCount => "pagination total count"@,
            Header::PaginationPage => "pagination page"@,
            Header::PaginationLimit => "pagination limit"@,
            Header::PaginationTotalPages => "pagination total pages"@,
            Header::StatesCount => "states count"@,
            Header::CitiesCount => "cities count"@,
            Header::CountriesCount => "countries count"@,
            Header::SubregionsCount => "subregions count"@,
        }
    }

    /// The name of the header.
    pub fn name(self) -> (r: &'static str)
        ensures
            r@ == self.name_spec(),
    {
        match self {
            Header::PaginationCount => "Pagination-Count",
            Header::PaginationTotalCount => "Pagination-Total-Count",
            Header::PaginationPage => "Pagination-Page",
            Header::PaginationLimit => "Pagination-Limit",
            Header::PaginationTotalPages => "Pagination-Total-Pages",
            Header::StatesCount => "States-Count",
            Header::CitiesCount => "Cities-Count",
            Header::CountriesCount => "Countries-Count",
            Header::SubregionsCount => "Subregions-Count",
        }
    }

    /// What the number of the header counts, in words.
    pub fn words(self) -> (r: &'static str)
        ensures
            r@ == self.words_spec(),
    {
        match self {
            Header::PaginationCount => "pagination count",
            Header::PaginationTotalCount => "pagination total count",
            Header::PaginationPage => "pagination page",
            Header::PaginationLimit => "pagination limit",
            Header::PaginationTotalPages => "pagination total pages",
            Header::StatesCount => "states count",
            Header::CitiesCount => "cities count",
            Header::CountriesCount => "countries count",
            Header::SubregionsCount => "subregions count",
        }
    }
}

impl HeaderFault {
    /// The fault in words, for the error log.
    pub open spec fn message_spec(&self) -> Seq<char> {
        match self.error {
            HeaderError::Missing => self.header.name_spec() + " header not present"@,
            HeaderError::NotText => "failed to convert header to a str"@,
            HeaderError::NotNumber => "Could not parse header "@ + self.header.words_spec()
                + " number"@,
        }
    }

    /// The fault in words, for the error log.
    pub fn message(&self) -> (r: String)
        ensures
            r@ == self.message_spec(),
    {
        match self.error {
            HeaderError::Missing => {
                String::from_str(self.header.name()).concat(" header not present")
            },
            HeaderError::NotText => String::from_str("failed to convert header to a str"),
            HeaderError::NotNumber => {
                String::from_str("Could not parse header ").concat(self.header.words()).concat(
                    " number",
                )
            },
        }
    }
}

/// The number that the bytes of a header value stand for.
pub open spec fn number_of_bytes(header: Header, bytes: Seq<u8>) -> Result<usize, HeaderFault> {
    if !text_bytes(bytes) {
        Err(HeaderFault { header, error: HeaderError::NotText })
    } else {
        match parse_spec(bytes_as_chars(bytes)) {
            Some(n) => Ok(n),
            None => Err(HeaderFault { header, error: HeaderError::NotNumber }),
        }
    }
}

/// The number that a header carries among the values of an answer.
pub open spec fn number_in(values: Map<Seq<char>, Seq<u8>>, header: Header) -> Result<
    usize,
    HeaderFault,
> {
    if values.contains_key(header.name_spec()) {
        number_of_bytes(header, values[header.name_spec()])
    } else {
        Err(HeaderFault { header, error: HeaderError::Missing })
    }
}

/// The number that the text of a header value reads as; `text` is nothing
/// where the value is no text.
pub fn number_of_text(header: Header, text: Option<String>) -> (r: Result<usize, HeaderFault>)
    ensures
        r == match text {
            None => Err::<usize, HeaderFault>(HeaderFault { header, error: HeaderError::NotText }),
            Some(s) => match parse_spec(s@) {
                Some(n) => Ok(n),
                None => Err(HeaderFault { header, error: HeaderError::NotNumber }),
            },
        },
{
    match text {
        None => Err(HeaderFault { header, error: HeaderError::NotText }),
        Some(s) => match parse_usize(s.as_str()) {
            Some(n) => Ok(n),
            None => Err(HeaderFault { header, error: HeaderError::NotNumber }),
        },
    }
}

/// Reads the number of a header of an answer.
pub fn header_number(headers: &HeaderMap<HeaderValue>, header: Header) -> (r: Result<
    usize,
    HeaderFault,
>)
    ensures
        r == number_in(header_values(*headers), header),
{
    match header_get(headers, header.name()) {
        None => Err(HeaderFault { header, error: HeaderError::Missing }),
        Some(value) => number_of_text(header, header_to_str(&value)),
    }
}

/// The paging that the headers of an answer report: the five paging headers
/// read in their order, or the fault of the first that gives no number.
pub open spec fn pagination_in(values: Map<Seq<char>, Seq<u8>>) -> Result<Pagination, HeaderFault> {
    match number_in(values, Header::PaginationCount) {
        Err(e) => Err(e),
        Ok(count) => match number_in(values, Header::PaginationTotalCount) {
            Err(e) => Err(e),
            Ok(total_count) => match number_in(values, Header::PaginationPage) {
                Err(e) => Err(e),
                Ok(page) => match number_in(values, Header::PaginationLimit) {
                    Err(e) => Err(e),
                    Ok(limit) => match number_in(values, Header::PaginationTotalPages) {
                        Err(e) => Err(e),
                        Ok(total_pages) => Ok(
                            Pagination { count, total_count, page, limit, total_pages },
                        ),
                    },
                },
            },
        },
    }
}

/// The counts that the headers of an answer report for one entity, by the
/// first header and, where the entity has two counts, the second.
pub open spec fn counts_in(
    values: Map<Seq<char>, Seq<u8>>,
    first: Header,
    second: Option<Header>,
) -> Result<(usize, usize), HeaderFault> {
    match number_in(values, first) {
        Err(e) => Err(e),
        Ok(a) => match second {
            None => Ok((a, 0usize)),
            Some(header) => match number_in(values, header) {
                Err(e) => Err(e),
                Ok(b) => Ok((a, b)),
            },
        },
    }
}

impl Pagination {
    /// Reads the paging of a listing from the headers of an answer.
    pub fn with_headers(headers: &HeaderMap<HeaderValue>) -> (r: Result<Pagination, HeaderFault>)
        ensures
            r == pagination_in(header_values(*headers)),
    {
        let count = match header_number(headers, Header::PaginationCount) {
            Ok(n) => n,
            Err(e) => {
                return Err(e);
            },
        };
        let total_count = match header_number(headers, Header::PaginationTotalCount) {
            Ok(n) => n,
            Err(e) => {
                return Err(e);
            },
        };
        let page = match header_number(headers, Header::PaginationPage) {
            Ok(n) => n,
            Err(e) => {
                return Err(e);
            },
        };
        let limit = match header_number(headers, Header::PaginationLimit) {
            Ok(n) => n,
            Err(e) => {
                return Err(e);
            },
        };
        let total_pages = match header_number(headers, Header::PaginationTotalPages) {
            Ok(n) => n,
            Err(e) => {
                return Err(e);
            },
        };
        Ok(Pagination { count, total_count, page, limit, total_pages })
    }
}

impl Counts {
    /// Reads the counts of a country: its states and its cities.
    pub fn with_country_headers(headers: &HeaderMap<HeaderValue>) -> (r: Result<Counts, HeaderFault>)
        ensures
            r == match counts_in(
                header_values(*headers),
                Header::StatesCount,
                Some(Header::CitiesCount),
            ) {
                Ok(n) => Ok::<Counts, HeaderFault>(Counts::Country { states: n.0, cities: n.1 }),
                Err(e) => Err(e),
            },
    {
        let states = match header_number(headers, Header::StatesCount) {
            Ok(n) => n,
            Err(e) => {
                return Err(e);
            },
        };
        let cities = match header_number(headers, Header::CitiesCount) {
            Ok(n) => n,
            Err(e) => {
                return Err(e);
            },
        };
        Ok(Counts::Country { states, cities })
    }

    /// Reads the count of a state: its cities.
    pub fn with_state_headers(headers: &HeaderMap<HeaderValue>) -> (r: Result<Counts, HeaderFault>)
        ensures
            r == match counts_in(header_values(*headers), Header::CitiesCount, None) {
                Ok(n) => Ok::<Counts, HeaderFault>(Counts::State { cities: n.0 }),
                Err(e) => Err(e),
            },
    {
        match header_number(headers, Header::CitiesCount) {
            Ok(cities) => Ok(Counts::State { cities }),
            Err(e) => Err(e),
        }
    }

    /// Reads the counts of a region: its countries and its subregions.
    pub fn with_region_headers(headers: &HeaderMap<HeaderValue>) -> (r: Result<Counts, HeaderFault>)
        ensures
            r == match counts_in(
                header_values(*headers),
                Header::CountriesCount,
                Some(Header::SubregionsCount),
            ) {
                Ok(n) => Ok::<Counts, HeaderFault>(
                    Counts::Region { countries: n.0, subregions: n.1 },
                ),
                Err(e) => Err(e),
            },
    {
        let countries = match header_number(headers, Header::CountriesCount) {
            Ok(n) => n,
            Err(e) => {
                return Err(e);
            },
        };
        let subregions = match header_number(headers, Header::SubregionsCount) {
            Ok(n) => n,
            Err(e) => {
                return Err(e);
            },
        };
        Ok(Counts::Region { countries, subregions })
    }

    /// Reads the count of a subregion: its countries.
    pub fn with_subregion_headers(headers: &HeaderMap<HeaderValue>) -> (r: Result<
        Counts,
        HeaderFault,
    >)
        ensures
            r == match counts_in(header_values(*headers), Header::CountriesCount, None) {
                Ok(n) => Ok::<Counts, HeaderFault>(Counts::Subregion { countries: n.0 }),
                Err(e) => Err(e),
            },
    {
        match header_number(headers, Header::CountriesCount) {
            Ok(countries) => Ok(Counts::Subregion { countries }),
            Err(e) => Err(e),
        }
    }

    /// Reads the count of a currency: its countries.
    pub fn with_currency_headers(headers: &HeaderMap<HeaderValue>) -> (r: Result<
        Counts,
        HeaderFault,
    >)
        ensures
            r == match counts_in(header_values(*headers), Header::CountriesCount, None) {
                Ok(n) => Ok::<Counts, HeaderFault>(Counts::Currency { countries: n.0 }),
                Err(e) => Err(e),
            },
    {
        match header_number(headers, Header::CountriesCount) {
            Ok(countries) => Ok(Counts::Currency { countries }),
            Err(e) => Err(e),
        }
    }
}

} // verus!
