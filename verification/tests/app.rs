use http::{HeaderMap, HeaderValue};
use world_tables::app::{no_room_message, unreadable_message, App, PAGE_LIMIT, RETRY_DELAY};
use world_tables::correlate::{routing_message, unread_message};
use world_tables::entity::{Country, Entity, EntityLabel, Key, Metadata, State, Tag, WorldRegion};
use world_tables::paging;
use world_tables::response::{read_response, Body, DataResponse};
use world_tables::types::{Counts, DataKind, MainList, Pagination};
use world_tables::urls::UrlBuilder;
use world_tables::windows::ServerData;

fn app() -> App {
    App::new(UrlBuilder::try_new().unwrap())
}

fn tag(key: &str, label: &str) -> Option<Tag> {
    Some(Tag { key: key.to_string(), label: label.to_string() })
}

fn country(iso2: &str, region: usize) -> Entity {
    Entity::Country(Country {
        iso2: Key::Text(iso2.to_string()),
        name: format!("Country {}", iso2),
        region: EntityLabel::KeyLabel(Key::Int(region), format!("Region {}", region)),
        ..Default::default()
    })
}

fn paging_of(count: usize, total_count: usize, page: usize) -> Pagination {
    Pagination {
        count,
        total_count,
        page,
        limit: PAGE_LIMIT,
        total_pages: paging::total_pages(total_count, PAGE_LIMIT),
    }
}

fn page(rows: Vec<Entity>, page: usize) -> DataResponse {
    DataResponse {
        pagination: Some(paging_of(rows.len(), rows.len(), page)),
        body: Body::List(rows),
        counts: None,
        page_text: page.to_string(),
    }
}

fn object(entity: Entity, counts: Option<Counts>) -> DataResponse {
    DataResponse { body: Body::Object(entity), pagination: None, counts, page_text: "1".to_string() }
}

fn urls(app: &App) -> Vec<(DataKind, String)> {
    app.requests.iter().map(|r| (r.kind, r.url.clone())).collect()
}

const COUNTRY: usize = 0;
const BY_REGION: usize = 0;

#[test]
fn a_new_client_has_nothing() {
    let app = app();
    assert_eq!(PAGE_LIMIT, 100);
    assert_eq!(RETRY_DELAY, 10);
    assert!(matches!(app.metadata, ServerData::Empty));
    assert_eq!(app.url.as_str(), "http://127.0.0.1:3000/");
    assert_eq!(app.main_show, vec![false; 6]);
    assert_eq!(app.tables.len(), 6);
    assert!(app.tables.iter().all(|t| t.is_none()));
    assert_eq!(app.object_windows.len(), 6);
    assert!(app.object_windows.iter().all(|r| r.len() == 0));
    assert_eq!(app.filtered_windows.len(), 7);
    assert!(app.filtered_windows.iter().all(|r| r.len() == 0));
    assert!(app.errors.is_empty());
    assert!(app.requests.is_empty());
}

#[test]
fn selecting_a_key_twice_causes_one_fetch_and_one_window() {
    let mut app = app();
    app.handle_selection(DataKind::Country, tag("US", "United States"));
    app.handle_selection(DataKind::Country, tag("US", "United States of America"));
    assert_eq!(urls(&app), vec![(DataKind::Country, "http://127.0.0.1:3000/country/US".to_string())]);
    assert_eq!(app.object_windows[COUNTRY].len(), 1);
    let window = app.object_windows[COUNTRY].get("US").unwrap();
    assert_eq!(window.title, "United States");
    assert!(window.show);
    assert!(window.data.is_none());
    assert!(window.counts.is_none());
    assert!(app.errors.is_empty());
}

#[test]
fn an_entity_that_arrives_fills_the_one_window() {
    let mut app = app();
    app.handle_selection(DataKind::Country, tag("US", "United States"));
    app.handle_selection(DataKind::Country, tag("US", "United States"));
    assert_eq!(app.take_requests().len(), 1);
    assert!(app.take_requests().is_empty());
    let counts = Some(Counts::Country { states: 50, cities: 19000 });
    app.channels.send(DataKind::Country, Ok(object(country("US", 2), counts)));
    app.recv_response();
    assert_eq!(app.object_windows[COUNTRY].len(), 1);
    let window = app.object_windows[COUNTRY].get("US").unwrap();
    assert_eq!(window.data.as_ref().unwrap().key(), "US");
    assert_eq!(window.counts, counts);
    assert_eq!(window.title, "United States");
    assert!(window.show);
    assert!(app.requests.is_empty());
}

#[test]
fn nothing_selected_changes_nothing() {
    let mut app = app();
    app.handle_selection(DataKind::Country, None);
    app.handle_filtered_selection(DataKind::CitiesByState, None);
    assert!(app.requests.is_empty());
    assert!(app.object_windows.iter().all(|r| r.len() == 0));
    assert!(app.filtered_windows.iter().all(|r| r.len() == 0));
}

#[test]
fn each_kind_of_entity_has_a_registry_and_an_address() {
    let mut app = app();
    let kinds = [
        (DataKind::Country, "/country/7"),
        (DataKind::State, "/state/7"),
        (DataKind::City, "/city/7"),
        (DataKind::Region, "/region/7"),
        (DataKind::Subregion, "/subregion/7"),
        (DataKind::Currency, "/currency/7"),
    ];
    for (slot, (kind, path)) in kinds.iter().enumerate() {
        app.handle_selection(*kind, tag("7", "seven"));
        assert_eq!(app.object_windows[slot].len(), 1);
        let last = app.requests.last().unwrap();
        assert_eq!(last.kind, *kind);
        assert_eq!(last.url, format!("http://127.0.0.1:3000{}", path));
    }
    assert_eq!(app.requests.len(), 6);
}

#[test]
fn a_filtered_selection_opens_a_window_and_fetches_the_first_page() {
    let mut app = app();
    app.handle_filtered_selection(DataKind::StatesByCountry, tag("US", "United States"));
    app.handle_filtered_selection(DataKind::StatesByCountry, tag("US", "United States"));
    assert_eq!(
        urls(&app),
        vec![(
            DataKind::StatesByCountry,
            "http://127.0.0.1:3000/country/US/states?page=1&limit=100".to_string()
        )]
    );
    let registry = &app.filtered_windows[DataKind::StatesByCountry.filter_index()];
    assert_eq!(registry.len(), 1);
    let window = registry.get("US").unwrap();
    assert_eq!(window.title, "States from United States");
    assert!(window.show);
    assert!(window.data.is_none());
}

#[test]
fn filtered_windows_are_titled_by_what_they_list() {
    let cases = [
        (DataKind::CountriesByRegion, "Countries from X"),
        (DataKind::CountriesBySubregion, "Countries from X"),
        (DataKind::CountriesByCurrency, "Countries from X"),
        (DataKind::StatesByCountry, "States from X"),
        (DataKind::CitiesByCountry, "Cities from X"),
        (DataKind::CitiesByState, "Cities from X"),
        (DataKind::SubregionsByRegion, "Subregions from X"),
    ];
    let mut app = app();
    for (kind, title) in cases {
        app.handle_filtered_selection(kind, tag("1", "X"));
        assert_eq!(app.filtered_windows[kind.filter_index()].get("1").unwrap().title, title);
    }
    assert_eq!(app.requests.len(), 7);
}

#[test]
fn a_hidden_window_is_collected_and_opened_anew() {
    let mut app = app();
    app.handle_selection(DataKind::Country, tag("US", "United States"));
    app.handle_selection(DataKind::Country, tag("CA", "Canada"));
    app.channels.send(DataKind::Country, Ok(object(country("US", 2), None)));
    app.recv_response();
    app.object_windows[COUNTRY].window_mut(0).show = false;
    app.collect_garbage();
    assert!(!app.object_windows[COUNTRY].contains_key("US"));
    assert!(app.object_windows[COUNTRY].contains_key("CA"));
    assert_eq!(app.take_requests().len(), 2);
    app.handle_selection(DataKind::Country, tag("US", "United States"));
    assert_eq!(urls(&app), vec![(DataKind::Country, "http://127.0.0.1:3000/country/US".to_string())]);
    let window = app.object_windows[COUNTRY].get("US").unwrap();
    assert!(window.show);
    assert!(window.data.is_none());
}

#[test]
fn garbage_collection_goes_over_every_registry() {
    let mut app = app();
    for i in 7..13 {
        app.handle_selection(DataKind::at(i), tag("1", "one"));
        app.handle_selection(DataKind::at(i), tag("2", "two"));
    }
    for i in 13..20 {
        app.handle_filtered_selection(DataKind::at(i), tag("1", "one"));
        app.handle_filtered_selection(DataKind::at(i), tag("2", "two"));
    }
    for slot in 0..6 {
        app.object_windows[slot].window_mut(1).show = false;
    }
    for slot in 0..7 {
        app.filtered_windows[slot].window_mut(0).show = false;
    }
    app.collect_garbage();
    for slot in 0..6 {
        assert_eq!(app.object_windows[slot].len(), 1);
        assert!(app.object_windows[slot].contains_key("1"));
    }
    for slot in 0..7 {
        assert_eq!(app.filtered_windows[slot].len(), 1);
        assert!(app.filtered_windows[slot].contains_key("2"));
    }
}

#[test]
fn an_answer_for_a_closed_window_is_dropped() {
    let mut app = app();
    app.handle_selection(DataKind::Country, tag("US", "United States"));
    app.object_windows[COUNTRY].window_mut(0).show = false;
    app.collect_garbage();
    app.channels.send(DataKind::Country, Ok(object(country("US", 2), None)));
    app.recv_response();
    assert_eq!(app.object_windows[COUNTRY].len(), 0);
    assert!(app.errors.is_empty());
    assert_eq!(app.channels.pending(DataKind::Country), 0);
}

#[test]
fn pages_are_routed_by_their_owner_not_by_the_order_of_requests() {
    let mut app = app();
    app.handle_filtered_selection(DataKind::CountriesByRegion, tag("1", "Region A"));
    app.handle_filtered_selection(DataKind::CountriesByRegion, tag("2", "Region B"));
    app.channels.send(DataKind::CountriesByRegion, Ok(page(vec![country("BB", 2)], 1)));
    app.recv_response();
    {
        let registry = &app.filtered_windows[BY_REGION];
        assert!(registry.get("1").unwrap().data.is_none());
        let b = registry.get("2").unwrap().data.as_ref().unwrap();
        assert_eq!(b.data[0].key(), "BB");
    }
    app.channels.send(
        DataKind::CountriesByRegion,
        Ok(page(vec![country("AA", 1), country("AB", 1)], 1)),
    );
    app.recv_response();
    let registry = &app.filtered_windows[BY_REGION];
    let a = registry.get("1").unwrap().data.as_ref().unwrap();
    assert_eq!(a.data.len(), 2);
    assert_eq!(a.data[0].key(), "AA");
    let b = registry.get("2").unwrap().data.as_ref().unwrap();
    assert_eq!(b.data.len(), 1);
    assert_eq!(b.data[0].key(), "BB");
    assert_eq!(registry.get("1").unwrap().title, "Countries from Region A");
    assert!(app.errors.is_empty());
}

#[test]
fn one_pass_takes_one_outcome_from_each_channel() {
    let mut app = app();
    app.handle_filtered_selection(DataKind::CountriesByRegion, tag("1", "A"));
    app.handle_filtered_selection(DataKind::CountriesByRegion, tag("2", "B"));
    app.channels.send(DataKind::CountriesByRegion, Ok(page(vec![country("AA", 1)], 1)));
    app.channels.send(DataKind::CountriesByRegion, Ok(page(vec![country("BB", 2)], 1)));
    app.channels.send(DataKind::Countries, Ok(page(vec![country("AA", 1)], 1)));
    app.recv_response();
    assert_eq!(app.channels.pending(DataKind::CountriesByRegion), 1);
    assert_eq!(app.channels.pending(DataKind::Countries), 0);
    assert!(app.filtered_windows[BY_REGION].get("1").unwrap().data.is_some());
    assert!(app.filtered_windows[BY_REGION].get("2").unwrap().data.is_none());
    assert!(app.tables[0].is_some());
    app.recv_response();
    assert_eq!(app.channels.pending(DataKind::CountriesByRegion), 0);
    assert!(app.filtered_windows[BY_REGION].get("2").unwrap().data.is_some());
}

#[test]
fn the_correlator_leaves_the_metadata_channel_alone() {
    let mut app = app();
    app.channels.send(DataKind::Metadata, Err("down".to_string()));
    app.recv_response();
    assert_eq!(app.channels.pending(DataKind::Metadata), 1);
    assert!(app.errors.is_empty());
}

#[test]
fn a_page_that_tells_no_owner_is_a_routing_error() {
    let mut app = app();
    app.handle_filtered_selection(DataKind::CountriesByRegion, tag("1", "A"));
    app.channels.send(DataKind::CountriesByRegion, Ok(page(Vec::new(), 1)));
    app.recv_response();
    assert_eq!(app.errors, vec![routing_message(DataKind::CountriesByRegion)]);
    assert_eq!(app.errors[0], "Region id not found on list of countries from the API");
    assert!(app.filtered_windows[BY_REGION].get("1").unwrap().data.is_none());

    let unowned = Entity::Country(Country::default());
    app.channels.send(DataKind::CountriesByRegion, Ok(page(vec![unowned], 1)));
    app.recv_response();
    assert_eq!(
        app.errors[1..],
        ["Region id not found on list of countries from the API".to_string()]
    );
    assert!(app.filtered_windows[BY_REGION].get("1").unwrap().data.is_none());
}

fn unreadable() -> DataResponse {
    DataResponse {
        body: Body::Unreadable,
        pagination: None,
        counts: None,
        page_text: "1".to_string(),
    }
}

#[test]
fn an_answer_that_cannot_be_read_is_logged_and_changes_nothing() {
    let mut app = app();
    app.handle_selection(DataKind::Country, tag("US", "United States"));
    app.handle_filtered_selection(DataKind::StatesByCountry, tag("US", "United States"));
    app.channels.send(DataKind::Countries, Ok(page(vec![country("US", 2)], 1)));
    app.recv_response();
    assert!(app.errors.is_empty());

    app.channels.send(DataKind::Countries, Ok(unreadable()));
    app.channels.send(DataKind::Country, Ok(unreadable()));
    app.channels.send(DataKind::StatesByCountry, Ok(unreadable()));
    app.recv_response();
    assert_eq!(app.errors, vec![unread_message(), unread_message(), unread_message()]);
    assert_eq!(app.errors[0], "The answer of the service could not be read");
    let table = app.tables[0].as_ref().unwrap();
    assert_eq!(table.data.len(), 1);
    assert_eq!(table.data[0].key(), "US");
    assert!(app.object_windows[COUNTRY].get("US").unwrap().data.is_none());
    assert!(app.filtered_windows[3].get("US").unwrap().data.is_none());
}

#[test]
fn an_answer_of_another_kind_is_logged_and_changes_nothing() {
    let mut app = app();
    app.handle_selection(DataKind::Country, tag("US", "United States"));
    app.channels.send(DataKind::Countries, Ok(page(vec![Entity::State(State::default())], 1)));
    app.channels.send(
        DataKind::Country,
        Ok(object(Entity::State(State { id: Key::Text("US".to_string()), ..Default::default() }), None)),
    );
    app.channels.send(DataKind::States, Ok(object(country("US", 2), None)));
    let mut unpaged = page(vec![country("US", 2)], 1);
    unpaged.pagination = None;
    app.channels.send(DataKind::Regions, Ok(unpaged));
    app.recv_response();
    assert_eq!(app.errors.len(), 4);
    assert!(app.errors.iter().all(|e| *e == unread_message()));
    assert!(app.tables.iter().all(|t| t.is_none()));
    assert!(app.object_windows[COUNTRY].get("US").unwrap().data.is_none());
}

#[test]
fn routing_messages_of_each_kind() {
    assert_eq!(
        routing_message(DataKind::CountriesBySubregion),
        "Subregion id not found on list of countries from the API"
    );
    assert_eq!(
        routing_message(DataKind::CountriesByCurrency),
        "Currency id not found on list of countries from the API"
    );
    assert_eq!(
        routing_message(DataKind::CitiesByCountry),
        "Country id not found on list of cities from the API"
    );
    assert_eq!(
        routing_message(DataKind::CitiesByState),
        "State id not found on list of cities from the API"
    );
    assert_eq!(
        routing_message(DataKind::SubregionsByRegion),
        "Region id not found on list of subregions from the API"
    );
}

#[test]
fn a_failed_fetch_goes_to_the_error_log_and_leaves_the_window_waiting() {
    let mut app = app();
    app.handle_selection(DataKind::State, tag("12", "Texas"));
    app.channels.send(DataKind::State, Err("connection refused".to_string()));
    app.channels.send(DataKind::Cities, Err("timed out".to_string()));
    app.recv_response();
    assert_eq!(app.errors, vec!["timed out".to_string(), "connection refused".to_string()]);
    assert!(app.object_windows[1].get("12").unwrap().data.is_none());
    app.clear_errors();
    assert!(app.errors.is_empty());
}

#[test]
fn a_top_level_page_replaces_the_table_outright() {
    let mut app = app();
    app.channels.send(DataKind::States, Ok(page(vec![Entity::State(State::default())], 1)));
    app.recv_response();
    assert_eq!(app.tables[1].as_ref().unwrap().data.len(), 1);
    app.channels.send(
        DataKind::States,
        Ok(page(vec![Entity::State(State::default()), Entity::State(State::default())], 2)),
    );
    app.recv_response();
    let table = app.tables[1].as_ref().unwrap();
    assert_eq!(table.data.len(), 2);
    assert_eq!(table.page_text, "2");
    app.channels.send(DataKind::States, Err("timed out".to_string()));
    app.recv_response();
    let table = app.tables[1].as_ref().unwrap();
    assert_eq!(table.data.len(), 2);
    assert_eq!(table.page_text, "2");
    assert_eq!(app.errors, vec!["timed out".to_string()]);
}

#[test]
fn page_two_of_195_countries() {
    let request = paging::Pagination { page: 2, limit: 100 };
    assert_eq!(request.to_limit_offset(), (100, 100));
    let sent = paging::pagination_headers(request, 95, 195);
    let mut headers = HeaderMap::new();
    for (header, number) in sent {
        headers.insert(header.name(), HeaderValue::from_str(&number.to_string()).unwrap());
    }
    let rows: Vec<Entity> = (0..95).map(|i| country(&format!("C{}", i), 1)).collect();
    let response = read_response(DataKind::Countries, &headers, Body::List(rows)).unwrap();

    let mut app = app();
    app.show_main_list(MainList::Countries, true);
    app.request_page(DataKind::Countries, "", 2);
    assert_eq!(
        urls(&app),
        vec![
            (DataKind::Countries, "http://127.0.0.1:3000/countries?page=1&limit=100".to_string()),
            (DataKind::Countries, "http://127.0.0.1:3000/countries?page=2&limit=100".to_string()),
        ]
    );
    app.channels.send(DataKind::Countries, Ok(response));
    app.recv_response();
    let table = app.tables[0].as_ref().unwrap();
    assert_eq!(table.pagination.total_pages, 2);
    assert_eq!(table.pagination.page, 2);
    assert_eq!(table.pagination.count, 95);
    assert_eq!(table.pagination.total_count, 195);
    assert_eq!(table.page_text, "2");
    assert_eq!(table.data.len(), 95);
}

#[test]
fn showing_a_listing_asks_for_its_first_page_once() {
    let mut app = app();
    app.show_main_list(MainList::Cities, true);
    app.show_main_list(MainList::Cities, true);
    assert_eq!(
        urls(&app),
        vec![(DataKind::Cities, "http://127.0.0.1:3000/cities?page=1&limit=100".to_string())]
    );
    assert_eq!(app.main_show, vec![false, false, true, false, false, false]);
    app.show_main_list(MainList::Cities, false);
    assert_eq!(app.main_show, vec![false; 6]);
    assert_eq!(app.requests.len(), 1);
    app.show_main_list(MainList::Cities, true);
    assert_eq!(app.requests.len(), 2);
}

#[test]
fn hidden_tables_are_dropped() {
    let mut app = app();
    app.show_main_list(MainList::Countries, true);
    app.channels.send(DataKind::Countries, Ok(page(vec![country("US", 2)], 1)));
    app.channels.send(DataKind::Regions, Ok(page(vec![Entity::Region(WorldRegion::default())], 1)));
    app.recv_response();
    assert!(app.tables[0].is_some());
    assert!(app.tables[3].is_some());
    app.drop_hidden_tables();
    assert!(app.tables[0].is_some());
    assert!(app.tables[3].is_none());
    app.show_main_list(MainList::Countries, false);
    app.drop_hidden_tables();
    assert!(app.tables[0].is_none());
}

#[test]
fn request_page_of_a_filtered_listing() {
    let mut app = app();
    app.request_page(DataKind::CitiesByState, "1416", 3);
    assert_eq!(
        urls(&app),
        vec![(
            DataKind::CitiesByState,
            "http://127.0.0.1:3000/state/1416/cities?page=3&limit=100".to_string()
        )]
    );
}

#[test]
fn the_page_field_of_a_filtered_window_is_written_by_its_control_only() {
    let mut app = app();
    app.handle_filtered_selection(DataKind::CountriesByRegion, tag("1", "A"));
    assert_eq!(app.filtered_windows[BY_REGION].get("1").unwrap().page_text, "1");

    app.set_page_text(DataKind::CountriesByRegion, "1", "7".to_string());
    assert_eq!(app.filtered_windows[BY_REGION].get("1").unwrap().page_text, "7");

    app.channels.send(DataKind::CountriesByRegion, Ok(page(vec![country("AA", 1)], 3)));
    app.recv_response();
    let window = app.filtered_windows[BY_REGION].get("1").unwrap();
    assert_eq!(window.page_text, "7");
    assert_eq!(window.data.as_ref().unwrap().data.len(), 1);
    assert_eq!(window.data.as_ref().unwrap().pagination.page, 3);

    app.channels.send(
        DataKind::CountriesByRegion,
        Ok(page(vec![country("AA", 1), country("AB", 1)], 4)),
    );
    app.recv_response();
    let window = app.filtered_windows[BY_REGION].get("1").unwrap();
    assert_eq!(window.page_text, "7");
    assert_eq!(window.data.as_ref().unwrap().data.len(), 2);
    assert_eq!(window.data.as_ref().unwrap().pagination.page, 4);

    app.set_page_text(DataKind::CountriesByRegion, "1", "".to_string());
    app.set_page_text(DataKind::CountriesByRegion, "2", "5".to_string());
    let window = app.filtered_windows[BY_REGION].get("1").unwrap();
    assert_eq!(window.page_text, "");
    assert_eq!(window.data.as_ref().unwrap().data.len(), 2);
    assert_eq!(app.filtered_windows[BY_REGION].len(), 1);
}

#[test]
fn the_page_field_of_a_table_comes_with_its_page() {
    let mut app = app();
    app.set_page_text(DataKind::States, "", "4".to_string());
    assert!(app.tables[1].is_none());
    app.channels.send(DataKind::Countries, Ok(page(vec![country("AA", 1)], 1)));
    app.recv_response();
    app.set_page_text(DataKind::Countries, "", "4".to_string());
    assert_eq!(app.tables[0].as_ref().unwrap().page_text, "4");
    app.channels.send(DataKind::Countries, Ok(page(vec![country("AA", 1)], 2)));
    app.recv_response();
    assert_eq!(app.tables[0].as_ref().unwrap().page_text, "2");
}

#[test]
fn a_tick_begins_with_the_mandatory_load() {
    let mut app = app();
    app.show_main_list(MainList::Countries, true);
    app.take_requests();
    app.channels.send(DataKind::Countries, Ok(page(vec![country("AA", 1)], 1)));

    assert!(!app.begin_tick(0));
    assert!(matches!(app.metadata, ServerData::Loading));
    assert_eq!(app.requests.len(), 1);
    assert_eq!(app.channels.pending(DataKind::Countries), 1);
    assert!(app.tables[0].is_none());

    app.channels.send(DataKind::Metadata, Ok(metadata_response()));
    assert!(!app.begin_tick(1));
    assert!(app.metadata.is_ok());
    assert_eq!(app.channels.pending(DataKind::Countries), 1);

    app.channels.send(DataKind::Regions, Ok(page(vec![Entity::Region(WorldRegion::default())], 1)));
    assert!(app.begin_tick(2));
    assert_eq!(app.channels.pending(DataKind::Countries), 0);
    assert!(app.tables[0].is_some());
    assert!(app.tables[3].is_some());
    assert!(app.begin_tick(3));
    assert!(app.tables[0].is_some());
    assert!(app.tables[3].is_none());
}

#[test]
fn a_tick_in_milliseconds_waits_ten_thousand() {
    let mut app = app();
    app.metadata = ServerData::Failed(String::new(), 5_900);
    assert!(!app.begin_tick_with(15_000, 10_000));
    assert!(matches!(app.metadata, ServerData::Failed(_, 5_900)));
    assert!(!app.begin_tick_with(15_899, 10_000));
    assert!(matches!(app.metadata, ServerData::Failed(_, 5_900)));
    assert!(!app.begin_tick_with(15_900, 10_000));
    assert!(matches!(app.metadata, ServerData::Empty));
}

#[test]
fn bootstrap_asks_for_the_metadata_and_waits() {
    let mut app = app();
    app.bootstrap(0);
    assert!(matches!(app.metadata, ServerData::Loading));
    assert_eq!(urls(&app), vec![(DataKind::Metadata, "http://127.0.0.1:3000/metadata".to_string())]);
    app.bootstrap(1);
    app.bootstrap(2);
    assert!(matches!(app.metadata, ServerData::Loading));
    assert_eq!(app.requests.len(), 1);
}

fn metadata_response() -> DataResponse {
    DataResponse {
        body: Body::Metadata(Metadata {
            version: "0.1.0".to_string(),
            countries: 250,
            ..Default::default()
        }),
        pagination: None,
        counts: None,
        page_text: "1".to_string(),
    }
}

#[test]
fn bootstrap_ends_when_the_metadata_arrives() {
    let mut app = app();
    assert!(!app.metadata.is_ok());
    app.bootstrap(0);
    app.channels.send(DataKind::Metadata, Ok(metadata_response()));
    app.bootstrap(1);
    assert!(app.metadata.is_ok());
    assert_eq!(app.metadata.unwrap_ref().countries, 250);
    assert_eq!(app.metadata.unwrap_ref().version, "0.1.0");
    app.channels.send(DataKind::Metadata, Err("late".to_string()));
    app.bootstrap(100);
    assert!(app.metadata.is_ok());
    assert_eq!(app.requests.len(), 1);
    assert!(app.errors.is_empty());
    assert_eq!(app.channels.pending(DataKind::Metadata), 1);
}

#[test]
fn bootstrap_retries_after_ten_units_and_not_before() {
    let mut app = app();
    app.bootstrap(5);
    app.channels.send(DataKind::Metadata, Err("connection refused".to_string()));
    app.bootstrap(7);
    match &app.metadata {
        ServerData::Failed(message, at) => {
            assert_eq!(message, "connection refused");
            assert_eq!(*at, 7);
        },
        _ => panic!("the load has failed"),
    }
    app.bootstrap(8);
    assert_eq!(app.errors, vec!["connection refused".to_string()]);
    match &app.metadata {
        ServerData::Failed(message, at) => {
            assert_eq!(message, "");
            assert_eq!(*at, 7);
        },
        _ => panic!("the load has failed"),
    }
    for now in 9..17 {
        app.bootstrap(now);
        assert!(matches!(app.metadata, ServerData::Failed(_, 7)), "at {}", now);
    }
    assert_eq!(app.errors.len(), 1);
    assert_eq!(app.requests.len(), 1);
    app.bootstrap(17);
    assert!(matches!(app.metadata, ServerData::Empty));
    assert_eq!(app.requests.len(), 1);
    app.bootstrap(17);
    assert!(matches!(app.metadata, ServerData::Loading));
    assert_eq!(app.requests.len(), 2);
}

#[test]
fn bootstrap_retry_does_not_overflow_at_the_end_of_time() {
    let mut app = app();
    app.metadata = ServerData::Failed(String::new(), u64::MAX - 3);
    app.bootstrap(u64::MAX);
    assert!(matches!(app.metadata, ServerData::Failed(_, _)));
    app.metadata = ServerData::Failed(String::new(), 20);
    app.bootstrap(3);
    assert!(matches!(app.metadata, ServerData::Failed(_, 20)));
}

#[test]
fn metadata_that_cannot_be_read_fails_the_load() {
    let mut app = app();
    app.bootstrap(0);
    app.channels.send(DataKind::Metadata, Ok(page(Vec::new(), 1)));
    app.bootstrap(4);
    match &app.metadata {
        ServerData::Failed(message, at) => {
            assert_eq!(*message, unreadable_message());
            assert_eq!(message, "The metadata of the service could not be read");
            assert_eq!(*at, 4);
        },
        _ => panic!("the load has failed"),
    }
}

#[test]
fn a_key_that_the_address_has_no_room_for_opens_no_window() {
    let mut app = app();
    let long = "k".repeat(50_000_000);
    app.handle_selection(DataKind::Country, tag(&long, "long"));
    app.handle_filtered_selection(DataKind::StatesByCountry, tag(&long, "long"));
    app.request_page(DataKind::StatesByCountry, &long, 1);
    assert!(app.requests.is_empty());
    assert_eq!(app.object_windows[COUNTRY].len(), 0);
    assert_eq!(app.filtered_windows[3].len(), 0);
    assert_eq!(app.errors, vec![no_room_message(), no_room_message(), no_room_message()]);
    assert_eq!(app.errors[0], "The address of the request is too long");
    assert!(App::object_url(&app.url, DataKind::Country, &long).is_none());
}

#[test]
fn object_url_is_for_single_entities_only() {
    let url = UrlBuilder::try_new().unwrap();
    assert_eq!(
        App::object_url(&url, DataKind::Currency, "USD").unwrap().as_str(),
        "http://127.0.0.1:3000/currency/USD"
    );
    assert!(App::object_url(&url, DataKind::Countries, "USD").is_none());
    assert!(App::object_url(&url, DataKind::Metadata, "USD").is_none());
    assert!(App::object_url(&url, DataKind::CitiesByState, "1").is_none());
}

#[test]
fn new_window_is_a_guarded_insert() {
    let mut registry = world_tables::registry::Registry::new();
    assert!(App::new_window("US".to_string(), "first".to_string(), &mut registry));
    assert!(!App::new_window("US".to_string(), "second".to_string(), &mut registry));
    assert_eq!(registry.len(), 1);
    assert_eq!(registry.get("US").unwrap().title, "first");
}

#[test]
fn well_formedness_is_checked_on_the_shape_of_the_state() {
    let mut app = app();
    assert!(app.is_wf());
    app.handle_selection(DataKind::Country, tag("US", "United States"));
    app.show_main_list(MainList::States, true);
    assert!(app.is_wf());
    app.tables.pop();
    assert!(!app.is_wf());
    app.tables.push(None);
    assert!(app.is_wf());
    app.main_show.push(true);
    assert!(!app.is_wf());
    app.main_show.pop();
    app.object_windows.pop();
    assert!(!app.is_wf());
}

#[test]
fn the_retry_delay_can_be_chosen() {
    let mut app = app();
    app.metadata = ServerData::Failed(String::new(), 100);
    app.bootstrap_with(102, 3);
    assert!(matches!(app.metadata, ServerData::Failed(_, 100)));
    app.bootstrap_with(103, 3);
    assert!(matches!(app.metadata, ServerData::Empty));
    app.metadata = ServerData::Failed(String::new(), 100);
    app.bootstrap_with(100, 0);
    assert!(matches!(app.metadata, ServerData::Empty));
    app.metadata = ServerData::Failed(String::new(), 100);
    app.bootstrap(109);
    assert!(matches!(app.metadata, ServerData::Failed(_, 100)));
    app.bootstrap(110);
    assert!(matches!(app.metadata, ServerData::Empty));
}

#[test]
fn a_window_whose_key_the_address_has_no_room_for_breaks_the_state() {
    let mut app = app();
    app.handle_selection(DataKind::Country, tag("US", "United States"));
    app.handle_filtered_selection(DataKind::CitiesByState, tag("12", "Texas"));
    assert!(app.is_wf());
    let long = "k".repeat(45_000_000);
    app.object_windows[COUNTRY].insert_if_vacant(long.clone(), Default::default());
    assert!(!app.is_wf());
    app.object_windows[COUNTRY].remove(&long);
    assert!(app.is_wf());
}
