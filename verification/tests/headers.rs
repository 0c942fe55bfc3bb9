use http::{HeaderMap, HeaderValue};
use world_tables::headers::{header_number, number_of_text, Header, HeaderError, HeaderFault};
use world_tables::types::{Counts, Pagination};

fn paging(count: &str, total: &str, page: &str, limit: &str, pages: &str) -> HeaderMap {
    let mut headers = HeaderMap::new();
    headers.insert("Pagination-Count", HeaderValue::from_str(count).unwrap());
    headers.insert("Pagination-Total-Count", HeaderValue::from_str(total).unwrap());
    headers.insert("Pagination-Page", HeaderValue::from_str(page).unwrap());
    headers.insert("Pagination-Limit", HeaderValue::from_str(limit).unwrap());
    headers.insert("Pagination-Total-Pages", HeaderValue::from_str(pages).unwrap());
    headers
}

fn fault(header: Header, error: HeaderError) -> HeaderFault {
    HeaderFault { header, error }
}

#[test]
fn pagination_is_read_from_its_five_headers() {
    let headers = paging("95", "195", "2", "100", "2");
    assert_eq!(
        Pagination::with_headers(&headers),
        Ok(Pagination { count: 95, total_count: 195, page: 2, limit: 100, total_pages: 2 })
    );
}

#[test]
fn each_paging_header_is_required() {
    let all = [
        ("Pagination-Count", Header::PaginationCount),
        ("Pagination-Total-Count", Header::PaginationTotalCount),
        ("Pagination-Page", Header::PaginationPage),
        ("Pagination-Limit", Header::PaginationLimit),
        ("Pagination-Total-Pages", Header::PaginationTotalPages),
    ];
    for (name, header) in all {
        let mut headers = paging("1", "2", "3", "4", "5");
        headers.remove(name);
        assert_eq!(Pagination::with_headers(&headers), Err(fault(header, HeaderError::Missing)));
    }
    assert_eq!(
        Pagination::with_headers(&HeaderMap::new()),
        Err(fault(Header::PaginationCount, HeaderError::Missing))
    );
}

#[test]
fn the_first_faulty_header_is_reported() {
    let headers = paging("1", "x", "y", "4", "5");
    assert_eq!(
        Pagination::with_headers(&headers),
        Err(fault(Header::PaginationTotalCount, HeaderError::NotNumber))
    );
}

#[test]
fn a_header_that_is_no_number_is_a_fault() {
    for bad in ["", "-1", "1.0", "ten", "1 2", "99999999999999999999999999"] {
        let headers = paging("1", "2", bad, "4", "5");
        assert_eq!(
            Pagination::with_headers(&headers),
            Err(fault(Header::PaginationPage, HeaderError::NotNumber)),
            "{:?}",
            bad
        );
    }
}

#[test]
fn a_header_that_is_no_text_is_a_fault() {
    let mut headers = paging("1", "2", "3", "4", "5");
    headers.insert("Pagination-Limit", HeaderValue::from_bytes(&[0x31, 0xff]).unwrap());
    assert_eq!(
        Pagination::with_headers(&headers),
        Err(fault(Header::PaginationLimit, HeaderError::NotText))
    );
}

#[test]
fn header_names_are_matched_without_regard_to_case() {
    let mut headers = HeaderMap::new();
    headers.insert("cities-count", HeaderValue::from_static("12"));
    assert_eq!(header_number(&headers, Header::CitiesCount), Ok(12));
    assert_eq!(
        header_number(&headers, Header::StatesCount),
        Err(fault(Header::StatesCount, HeaderError::Missing))
    );
}

#[test]
fn the_first_value_of_a_repeated_header_counts() {
    let mut headers = HeaderMap::new();
    headers.append("Cities-Count", HeaderValue::from_static("12"));
    headers.append("Cities-Count", HeaderValue::from_static("13"));
    assert_eq!(header_number(&headers, Header::CitiesCount), Ok(12));
}

#[test]
fn number_of_text_reads_or_tells_why_not() {
    assert_eq!(number_of_text(Header::CitiesCount, Some("31".to_string())), Ok(31));
    assert_eq!(number_of_text(Header::CitiesCount, Some("+31".to_string())), Ok(31));
    assert_eq!(
        number_of_text(Header::CitiesCount, Some("31 ".to_string())),
        Err(fault(Header::CitiesCount, HeaderError::NotNumber))
    );
    assert_eq!(
        number_of_text(Header::CitiesCount, None),
        Err(fault(Header::CitiesCount, HeaderError::NotText))
    );
}

#[test]
fn counts_of_each_kind_of_entity() {
    let mut headers = HeaderMap::new();
    headers.insert("States-Count", HeaderValue::from_static("50"));
    headers.insert("Cities-Count", HeaderValue::from_static("19000"));
    headers.insert("Countries-Count", HeaderValue::from_static("57"));
    headers.insert("Subregions-Count", HeaderValue::from_static("5"));
    assert_eq!(
        Counts::with_country_headers(&headers),
        Ok(Counts::Country { states: 50, cities: 19000 })
    );
    assert_eq!(Counts::with_state_headers(&headers), Ok(Counts::State { cities: 19000 }));
    assert_eq!(
        Counts::with_region_headers(&headers),
        Ok(Counts::Region { countries: 57, subregions: 5 })
    );
    assert_eq!(Counts::with_subregion_headers(&headers), Ok(Counts::Subregion { countries: 57 }));
    assert_eq!(Counts::with_currency_headers(&headers), Ok(Counts::Currency { countries: 57 }));
}

#[test]
fn counts_need_their_headers() {
    let mut headers = HeaderMap::new();
    headers.insert("States-Count", HeaderValue::from_static("50"));
    assert_eq!(
        Counts::with_country_headers(&headers),
        Err(fault(Header::CitiesCount, HeaderError::Missing))
    );
    assert_eq!(
        Counts::with_region_headers(&headers),
        Err(fault(Header::CountriesCount, HeaderError::Missing))
    );
    headers.insert("Countries-Count", HeaderValue::from_static("many"));
    assert_eq!(
        Counts::with_subregion_headers(&headers),
        Err(fault(Header::CountriesCount, HeaderError::NotNumber))
    );
    assert_eq!(
        Counts::with_region_headers(&headers),
        Err(fault(Header::CountriesCount, HeaderError::NotNumber))
    );
}

#[test]
fn faults_have_their_messages() {
    assert_eq!(
        fault(Header::PaginationCount, HeaderError::Missing).message(),
        "Pagination-Count header not present"
    );
    assert_eq!(
        fault(Header::SubregionsCount, HeaderError::Missing).message(),
        "Subregions-Count header not present"
    );
    assert_eq!(
        fault(Header::PaginationTotalPages, HeaderError::NotNumber).message(),
        "Could not parse header pagination total pages number"
    );
    assert_eq!(
        fault(Header::StatesCount, HeaderError::NotNumber).message(),
        "Could not parse header states count number"
    );
    assert_eq!(
        fault(Header::CitiesCount, HeaderError::NotText).message(),
        "failed to convert header to a str"
    );
}

#[test]
fn header_names_and_words() {
    assert_eq!(Header::PaginationTotalCount.name(), "Pagination-Total-Count");
    assert_eq!(Header::CountriesCount.name(), "Countries-Count");
    assert_eq!(Header::PaginationLimit.words(), "pagination limit");
    assert_eq!(Header::CitiesCount.words(), "cities count");
}
