use world_tables::types::{
    Counts, DataKind, MainList, MainListData, Pagination, FILTER_COUNT, KIND_COUNT, LIST_COUNT,
};

const KINDS: [DataKind; 20] = [
    DataKind::Metadata,
    DataKind::Countries,
    DataKind::States,
    DataKind::Cities,
    DataKind::Regions,
    DataKind::Subregions,
    DataKind::Currencies,
    DataKind::Country,
    DataKind::State,
    DataKind::City,
    DataKind::Region,
    DataKind::Subregion,
    DataKind::Currency,
    DataKind::CountriesByRegion,
    DataKind::CountriesBySubregion,
    DataKind::CountriesByCurrency,
    DataKind::StatesByCountry,
    DataKind::CitiesByCountry,
    DataKind::CitiesByState,
    DataKind::SubregionsByRegion,
];

#[test]
fn column_headers_of_each_listing() {
    assert_eq!(
        MainListData::Countries("Countries", None).column_headers(),
        &["Country", "Region", "Subregion"]
    );
    assert_eq!(MainListData::States("States", None).column_headers(), &["State", "Country"]);
    assert_eq!(
        MainListData::Cities("Cities", None).column_headers(),
        &["City", "State", "Country"]
    );
    assert_eq!(MainListData::Regions("Regions", None).column_headers(), &["Region"]);
    assert_eq!(
        MainListData::Subregions("Subregions", None).column_headers(),
        &["Subregion", "Region"]
    );
    assert_eq!(
        MainListData::Currencies("Currencies", None).column_headers(),
        &["Name", "ISO", "Symbol"]
    );
}

#[test]
fn data_gives_title_and_paging() {
    let p = Pagination { count: 95, total_count: 195, page: 2, limit: 100, total_pages: 2 };
    assert_eq!(MainListData::Countries("Countries", Some(p)).data(), ("Countries", Some(p)));
    assert_eq!(MainListData::States("States from X", None).data(), ("States from X", None));
    assert_eq!(MainListData::Cities("c", Some(p)).data(), ("c", Some(p)));
    assert_eq!(MainListData::Regions("r", None).data(), ("r", None));
    assert_eq!(MainListData::Subregions("s", Some(p)).data(), ("s", Some(p)));
    assert_eq!(MainListData::Currencies("m", None).data(), ("m", None));
}

#[test]
fn kinds_have_places_of_their_own() {
    assert_eq!(KIND_COUNT, 20);
    for (i, kind) in KINDS.iter().enumerate() {
        assert_eq!(kind.index(), i);
        assert_eq!(DataKind::at(i), *kind);
    }
}

#[test]
fn kinds_fall_into_four_groups() {
    for kind in KINDS {
        let i = kind.index();
        assert_eq!(kind.main_list(), (1..7).contains(&i), "{:?}", kind);
        assert_eq!(kind.object(), (7..13).contains(&i), "{:?}", kind);
        assert_eq!(kind.filtered(), (13..20).contains(&i), "{:?}", kind);
    }
    assert!(!DataKind::Metadata.main_list());
    assert!(!DataKind::Metadata.object());
    assert!(!DataKind::Metadata.filtered());
}

#[test]
fn kinds_name_the_entity_they_carry() {
    assert_eq!(DataKind::Metadata.entity_list(), None);
    assert_eq!(DataKind::Countries.entity_list(), Some(MainList::Countries));
    assert_eq!(DataKind::Country.entity_list(), Some(MainList::Countries));
    assert_eq!(DataKind::CountriesByCurrency.entity_list(), Some(MainList::Countries));
    assert_eq!(DataKind::StatesByCountry.entity_list(), Some(MainList::States));
    assert_eq!(DataKind::CitiesByState.entity_list(), Some(MainList::Cities));
    assert_eq!(DataKind::Region.entity_list(), Some(MainList::Regions));
    assert_eq!(DataKind::SubregionsByRegion.entity_list(), Some(MainList::Subregions));
    assert_eq!(DataKind::Currency.entity_list(), Some(MainList::Currencies));
}

#[test]
fn filtered_kinds_have_seven_registries() {
    assert_eq!(FILTER_COUNT, 7);
    assert_eq!(DataKind::CountriesByRegion.filter_index(), 0);
    assert_eq!(DataKind::CountriesBySubregion.filter_index(), 1);
    assert_eq!(DataKind::CountriesByCurrency.filter_index(), 2);
    assert_eq!(DataKind::StatesByCountry.filter_index(), 3);
    assert_eq!(DataKind::CitiesByCountry.filter_index(), 4);
    assert_eq!(DataKind::CitiesByState.filter_index(), 5);
    assert_eq!(DataKind::SubregionsByRegion.filter_index(), 6);
}

#[test]
fn listings_have_places_and_kinds() {
    assert_eq!(LIST_COUNT, 6);
    let lists = [
        (MainList::Countries, DataKind::Countries),
        (MainList::States, DataKind::States),
        (MainList::Cities, DataKind::Cities),
        (MainList::Regions, DataKind::Regions),
        (MainList::Subregions, DataKind::Subregions),
        (MainList::Currencies, DataKind::Currencies),
    ];
    for (i, (list, kind)) in lists.iter().enumerate() {
        assert_eq!(list.index(), i);
        assert_eq!(list.kind(), *kind);
        assert_eq!(kind.entity_list(), Some(*list));
    }
}

#[test]
fn default_pagination_is_all_zero() {
    assert_eq!(
        Pagination::default(),
        Pagination { count: 0, total_count: 0, page: 0, limit: 0, total_pages: 0 }
    );
    assert_ne!(Counts::State { cities: 1 }, Counts::State { cities: 2 });
}
