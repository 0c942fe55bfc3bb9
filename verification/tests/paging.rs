use world_tables::headers::Header;
use world_tables::paging::{
    count_headers, pagination_headers, total_pages, Pagination, DEFAULT_LIMIT,
};
use world_tables::types::Counts;

#[test]
fn default_request_is_first_page_of_ten() {
    let p = Pagination::default();
    assert_eq!(p.page, 1);
    assert_eq!(p.limit, 10);
    assert_eq!(DEFAULT_LIMIT, 10);
}

#[test]
fn limit_and_offset_of_a_page() {
    assert_eq!(Pagination { page: 1, limit: 10 }.to_limit_offset(), (10, 0));
    assert_eq!(Pagination { page: 2, limit: 100 }.to_limit_offset(), (100, 100));
    assert_eq!(Pagination { page: 5, limit: 25 }.to_limit_offset(), (25, 100));
    assert_eq!(Pagination { page: 3, limit: 0 }.to_limit_offset(), (0, 0));
}

#[test]
fn page_zero_starts_where_page_one_does() {
    assert_eq!(Pagination { page: 0, limit: 10 }.to_limit_offset(), (10, 0));
}

#[test]
fn total_pages_rounds_up() {
    assert_eq!(total_pages(101, 25), 5);
    assert_eq!(total_pages(100, 25), 4);
    assert_eq!(total_pages(99, 25), 4);
    assert_eq!(total_pages(195, 100), 2);
    assert_eq!(total_pages(1, 100), 1);
    assert_eq!(total_pages(0, 100), 0);
    assert_eq!(total_pages(usize::MAX, 1), usize::MAX);
    assert_eq!(total_pages(usize::MAX, usize::MAX), 1);
    assert_eq!(total_pages(usize::MAX, 2), usize::MAX / 2 + 1);
}

#[test]
fn total_pages_is_exact_where_floats_round() {
    assert_eq!(total_pages(16_777_217, 1), 16_777_217);
    assert_eq!(total_pages(33_554_435, 2), 16_777_218);
}

#[test]
fn total_pages_with_a_limit_of_zero() {
    assert_eq!(total_pages(0, 0), 0);
    assert_eq!(total_pages(7, 0), usize::MAX);
}

#[test]
fn paging_headers_come_in_their_order() {
    let headers = pagination_headers(Pagination { page: 2, limit: 100 }, 95, 195);
    assert_eq!(
        headers,
        vec![
            (Header::PaginationCount, 95),
            (Header::PaginationTotalCount, 195),
            (Header::PaginationPage, 2),
            (Header::PaginationLimit, 100),
            (Header::PaginationTotalPages, 2),
        ]
    );
    let names: Vec<&str> = headers.iter().map(|h| h.0.name()).collect();
    assert_eq!(
        names,
        vec![
            "Pagination-Count",
            "Pagination-Total-Count",
            "Pagination-Page",
            "Pagination-Limit",
            "Pagination-Total-Pages",
        ]
    );
}

#[test]
fn count_headers_of_each_kind() {
    assert_eq!(
        count_headers(Counts::Country { states: 50, cities: 19000 }),
        vec![(Header::StatesCount, 50), (Header::CitiesCount, 19000)]
    );
    assert_eq!(count_headers(Counts::State { cities: 3 }), vec![(Header::CitiesCount, 3)]);
    assert_eq!(
        count_headers(Counts::Region { countries: 57, subregions: 5 }),
        vec![(Header::CountriesCount, 57), (Header::SubregionsCount, 5)]
    );
    assert_eq!(count_headers(Counts::Subregion { countries: 9 }), vec![(Header::CountriesCount, 9)]);
    assert_eq!(count_headers(Counts::Currency { countries: 1 }), vec![(Header::CountriesCount, 1)]);
}
