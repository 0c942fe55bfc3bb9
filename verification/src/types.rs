//! The values that the client keeps of what it has fetched.

use vstd::prelude::*;

verus! {

/// The six top-level listings.
#[derive(Clone, Copy, Debug, PartialEq, Eq, Structural)]
pub enum MainList {
    Countries,
    States,
    Cities,
    Regions,
    Subregions,
    Currencies,
}

/// Every kind of request that the client issues. Each kind has a channel of
/// its own, on which the answers to requests of that kind arrive.
#[derive(Clone, Copy, Debug, PartialEq, Eq, Structural)]
pub enum DataKind {
    Metadata,
    Countries,
    States,
    Cities,
    Regions,
    Subregions,
    Currencies,
    Country,
    State,
    City,
    Region,
    Subregion,
    Currency,
    CountriesByRegion,
    CountriesBySubregion,
    CountriesByCurrency,
    StatesByCountry,
    CitiesByCountry,
    CitiesByState,
    SubregionsByRegion,
}

/// The number of request kinds.
pub const KIND_COUNT: usize = 20;

impl DataKind {
    /// The kind asks for one of the six top-level listings.
    pub open spec fn is_main_list(self) -> bool {
        self is Countries || self is States || self is Cities || self is Regions
            || self is Subregions || self is Currencies
    }

    /// The kind asks for a single entity.
    pub open spec fn is_object(self) -> bool {
        self is Country || self is State || self is City || self is Region || self is Subregion
            || self is Currency
    }

    /// The kind asks for the entities related to one entity.
    pub open spec fn is_filtered(self) -> bool {
        self is CountriesByRegion || self is CountriesBySubregion || self is CountriesByCurrency
            || self is StatesByCountry || self is CitiesByCountry || self is CitiesByState
            || self is SubregionsByRegion
    }

    /// The answer to a request of this kind tells how its listing is paged.
    pub open spec fn is_paged(self) -> bool {
        self.is_main_list() || self.is_filtered()
    }

    /// The answer to a request of this kind tells how many related entities
    /// there are. A city has none to count.
    pub open spec fn is_counted(self) -> bool {
        self.is_object() && !(self is City)
    }

    /// The place of the kind in the table of channels.
    pub open spec fn index_spec(self) -> nat {
        match self {
            DataKind::Metadata => 0,
            DataKind::Countries => 1,
            DataKind::States => 2,
            DataKind::Cities => 3,
            DataKind::Regions => 4,
            DataKind::Subregions => 5,
            DataKind::Currencies => 6,
            DataKind::Country => 7,
            DataKind::State => 8,
            DataKind::City => 9,
            DataKind::Region => 10,
            DataKind::Subregion => 11,
            DataKind::Currency => 12,
            DataKind::CountriesByRegion => 13,
            DataKind::CountriesBySubregion => 14,
            DataKind::CountriesByCurrency => 15,
            DataKind::StatesByCountry => 16,
            DataKind::CitiesByCountry => 17,
            DataKind::CitiesByState => 18,
            DataKind::SubregionsByRegion => 19,
        }
    }

    /// The kind at a place of the table of channels.
    pub open spec fn at_spec(index: nat) -> DataKind {
        if index == 0 {
            DataKind::Metadata
        } else if index == 1 {
            DataKind::Countries
        } else if index == 2 {
            DataKind::States
        } else if index == 3 {
            DataKind::Cities
        } else if index == 4 {
            DataKind::Regions
        } else if index == 5 {
            DataKind::Subregions
        } else if index == 6 {
            DataKind::Currencies
        } else if index == 7 {
            DataKind::Country
        } else if index == 8 {
            DataKind::State
        } else if index == 9 {
            DataKind::City
        } else if index == 10 {
            DataKind::Region
        } else if index == 11 {
            DataKind::Subregion
        } else if index == 12 {
            DataKind::Currency
        } else if index == 13 {
            DataKind::CountriesByRegion
        } else if index == 14 {
            DataKind::CountriesBySubregion
        } else if index == 15 {
            DataKind::CountriesByCurrency
        } else if index == 16 {
            DataKind::StatesByCountry
        } else if index == 17 {
            DataKind::CitiesByCountry
        } else if index == 18 {
            DataKind::CitiesByState
        } else {
            DataKind::SubregionsByRegion
        }
    }

    /// Whether the kind asks for a top-level listing.
    pub fn main_list(self) -> (r: bool)
        ensures
            r == self.is_main_list(),
    {
        match self {
            DataKind::Countries | DataKind::States | DataKind::Cities | DataKind::Regions
            | DataKind::Subregions | DataKind::Currencies => true,
            _ => false,
        }
    }

    /// Whether the kind asks for a single entity.
    pub fn object(self) -> (r: bool)
        ensures
            r == self.is_object(),
    {
        match self {
            DataKind::Country | DataKind::State | DataKind::City | DataKind::Region
            | DataKind::Subregion | DataKind::Currency => true,
            _ => false,
        }
    }

    /// Whether the kind asks for the entities related to one entity.
    pub fn filtered(self) -> (r: bool)
        ensures
            r == self.is_filtered(),
    {
        match self {
            DataKind::CountriesByRegion | DataKind::CountriesBySubregion
            | DataKind::CountriesByCurrency | DataKind::StatesByCountry
            | DataKind::CitiesByCountry | DataKind::CitiesByState
            | DataKind::SubregionsByRegion => true,
            _ => false,
        }
    }

    /// The place of the kind in the table of channels.
    pub fn index(self) -> (r: usize)
        ensures
            r == self.index_spec(),
            r < KIND_COUNT,
    {
        match self {
            DataKind::Metadata => 0,
            DataKind::Countries => 1,
            DataKind::States => 2,
            DataKind::Cities => 3,
            DataKind::Regions => 4,
            DataKind::Subregions => 5,
            DataKind::Currencies => 6,
            DataKind::Country => 7,
            DataKind::State => 8,
            DataKind::City => 9,
            DataKind::Region => 10,
            DataKind::Subregion => 11,
            DataKind::Currency => 12,
            DataKind::CountriesByRegion => 13,
            DataKind::CountriesBySubregion => 14,
            DataKind::CountriesByCurrency => 15,
            DataKind::StatesByCountry => 16,
            DataKind::CitiesByCountry => 17,
            DataKind::CitiesByState => 18,
            DataKind::SubregionsByRegion => 19,
        }
    }

    /// The kind at a place of the table of channels.
    pub fn at(index: usize) -> (r: DataKind)
        requires
            index < KIND_COUNT,
        ensures
            r == DataKind::at_spec(index as nat),
            r.index_spec() == index,
    {
        if index == 0 {
            DataKind::Metadata
        } else if index == 1 {
            DataKind::Countries
        } else if index == 2 {
            DataKind::States
        } else if index == 3 {
            DataKind::Cities
        } else if index == 4 {
            DataKind::Regions
        } else if index == 5 {
            DataKind::Subregions
        } else if index == 6 {
            DataKind::Currencies
        } else if index == 7 {
            DataKind::Country
        } else if index == 8 {
            DataKind::State
        } else if index == 9 {
            DataKind::City
        } else if index == 10 {
            DataKind::Region
        } else if index == 11 {
            DataKind::Subregion
        } else if index == 12 {
            DataKind::Currency
        } else if index == 13 {
            DataKind::CountriesByRegion
        } else if index == 14 {
            DataKind::CountriesBySubregion
        } else if index == 15 {
            DataKind::CountriesByCurrency
        } else if index == 16 {
            DataKind::StatesByCountry
        } else if index == 17 {
            DataKind::CitiesByCountry
        } else if index == 18 {
            DataKind::CitiesByState
        } else {
            DataKind::SubregionsByRegion
        }
    }
}

/// The number of top-level listings, and of kinds of entity.
pub const LIST_COUNT: usize = 6;

/// The number of kinds of filtered listing.
pub const FILTER_COUNT: usize = 7;

impl MainList {
    /// The place of the listing among the six.
    pub open spec fn index_spec(self) -> nat {
        match self {
            MainList::Countries => 0,
            MainList::States => 1,
            MainList::Cities => 2,
            MainList::Regions => 3,
            MainList::Subregions => 4,
            MainList::Currencies => 5,
        }
    }

    /// The place of the listing among the six.
    pub fn index(self) -> (r: usize)
        ensures
            r == self.index_spec(),
            r < LIST_COUNT,
    {
        match self {
            MainList::Countries => 0,
            MainList::States => 1,
            MainList::Cities => 2,
            MainList::Regions => 3,
            MainList::Subregions => 4,
            MainList::Currencies => 5,
        }
    }

    /// The kind of request that asks for the listing.
    pub open spec fn kind_spec(self) -> DataKind {
        match self {
            MainList::Countries => DataKind::Countries,
            MainList::States => DataKind::States,
            MainList::Cities => DataKind::Cities,
            MainList::Regions => DataKind::Regions,
            MainList::Subregions => DataKind::Subregions,
            MainList::Currencies => DataKind::Currencies,
        }
    }

    /// The kind of request that asks for the listing.
    pub fn kind(self) -> (r: DataKind)
        ensures
            r == self.kind_spec(),
            r.is_main_list(),
            r.subject() == Some(self),
    {
        match self {
            MainList::Countries => DataKind::Countries,
            MainList::States => DataKind::States,
            MainList::Cities => DataKind::Cities,
            MainList::Regions => DataKind::Regions,
            MainList::Subregions => DataKind::Subregions,
            MainList::Currencies => DataKind::Currencies,
        }
    }
}

impl DataKind {
    /// The kind of entity that the answer to a request of this kind holds,
    /// named by the listing of such entities. The metadata holds none.
    pub open spec fn subject(self) -> Option<MainList> {
        match self {
            DataKind::Metadata => None,
            DataKind::Countries | DataKind::Country | DataKind::CountriesByRegion
            | DataKind::CountriesBySubregion | DataKind::CountriesByCurrency => Some(
                MainList::Countries,
            ),
            DataKind::States | DataKind::State | DataKind::StatesByCountry => Some(
                MainList::States,
            ),
            DataKind::Cities | DataKind::City | DataKind::CitiesByCountry
            | DataKind::CitiesByState => Some(MainList::Cities),
            DataKind::Regions | DataKind::Region => Some(MainList::Regions),
            DataKind::Subregions | DataKind::Subregion | DataKind::SubregionsByRegion => Some(
                MainList::Subregions,
            ),
            DataKind::Currencies | DataKind::Currency => Some(MainList::Currencies),
        }
    }

    /// The place of the registry of a filtered kind among the seven.
    pub open spec fn filter_slot(self) -> nat
        recommends
            self.is_filtered(),
    {
        (self.index_spec() - 13) as nat
    }

    /// The kind of entity that the answer to a request of this kind holds.
    pub fn entity_list(self) -> (r: Option<MainList>)
        ensures
            r == self.subject(),
    {
        match self {
            DataKind::Metadata => None,
            DataKind::Countries | DataKind::Country | DataKind::CountriesByRegion
            | DataKind::CountriesBySubregion | DataKind::CountriesByCurrency => Some(
                MainList::Countries,
            ),
            DataKind::States | DataKind::State | DataKind::StatesByCountry => Some(
                MainList::States,
            ),
            DataKind::Cities | DataKind::City | DataKind::CitiesByCountry
            | DataKind::CitiesByState => Some(MainList::Cities),
            DataKind::Regions | DataKind::Region => Some(MainList::Regions),
            DataKind::Subregions | DataKind::Subregion | DataKind::SubregionsByRegion => Some(
                MainList::Subregions,
            ),
            DataKind::Currencies | DataKind::Currency => Some(MainList::Currencies),
        }
    }

    /// The place of the registry of a filtered kind among the seven.
    pub fn filter_index(self) -> (r: usize)
        requires
            self.is_filtered(),
        ensures
            r == self.filter_slot(),
            r < FILTER_COUNT,
    {
        self.index() - 13
    }
}

/// Each kind has a place of its own in the table of channels, and each place
/// of the table belongs to a kind.
pub proof fn lemma_kind_index_is_one_to_one(a: DataKind, b: DataKind, index: nat)
    ensures
        a.index_spec() < KIND_COUNT,
        DataKind::at_spec(a.index_spec()) == a,
        a.index_spec() == b.index_spec() ==> a == b,
        index < KIND_COUNT ==> DataKind::at_spec(index).index_spec() == index,
{
}

/// How a listing is paged, as the service reports it with each page.
#[derive(Clone, Copy, Debug, PartialEq, Eq, Structural)]
pub struct Pagination {
    pub count: usize,
    pub total_count: usize,
    pub page: usize,
    pub limit: usize,
    pub total_pages: usize,
}

impl Default for Pagination {
    fn default() -> (r: Self)
        ensures
            r == (Pagination { count: 0, total_count: 0, page: 0, limit: 0, total_pages: 0 }),
    {
        Pagination { count: 0, total_count: 0, page: 0, limit: 0, total_pages: 0 }
    }
}

/// How many entities are related to one entity, by the kind of that entity.
#[derive(Clone, Copy, Debug, PartialEq, Eq, Structural)]
pub enum Counts {
    Country { states: usize, cities: usize },
    State { cities: usize },
    Region { countries: usize, subregions: usize },
    Subregion { countries: usize },
    Currency { countries: usize },
}

/// The title and the paging of a listing that is shown.
#[derive(Debug)]
pub enum MainListData<'a> {
    Countries(&'a str, Option<Pagination>),
    States(&'a str, Option<Pagination>),
    Cities(&'a str, Option<Pagination>),
    Regions(&'a str, Option<Pagination>),
    Subregions(&'a str, Option<Pagination>),
    Currencies(&'a str, Option<Pagination>),
}

impl<'a> MainListData<'a> {
    /// The listing that the value belongs to.
    pub open spec fn list(&self) -> MainList {
        match self {
            MainListData::Countries(..) => MainList::Countries,
            MainListData::States(..) => MainList::States,
            MainListData::Cities(..) => MainList::Cities,
            MainListData::Regions(..) => MainList::Regions,
            MainListData::Subregions(..) => MainList::Subregions,
            MainListData::Currencies(..) => MainList::Currencies,
        }
    }

    /// The title of the listing.
    pub open spec fn title(&self) -> &'a str {
        match self {
            MainListData::Countries(title, _) => *title,
            MainListData::States(title, _) => *title,
            MainListData::Cities(title, _) => *title,
            MainListData::Regions(title, _) => *title,
            MainListData::Subregions(title, _) => *title,
            MainListData::Currencies(title, _) => *title,
        }
    }

    /// The paging of the listing, once a page has arrived.
    pub open spec fn pagination(&self) -> Option<Pagination> {
        match self {
            MainListData::Countries(_, pagination) => *pagination,
            MainListData::States(_, pagination) => *pagination,
            MainListData::Cities(_, pagination) => *pagination,
            MainListData::Regions(_, pagination) => *pagination,
            MainListData::Subregions(_, pagination) => *pagination,
            MainListData::Currencies(_, pagination) => *pagination,
        }
    }

    /// The column titles of the table of a listing.
    pub fn column_headers(&self) -> (r: &'static [&'static str])
        ensures
            r@.map_values(|s: &'static str| s@) == column_titles(self.list()),
    {
        let r: &'static [&'static str] = match self {
            MainListData::Countries(..) => &["Country", "Region", "Subregion"],
            MainListData::States(..) => &["State", "Country"],
            MainListData::Cities(..) => &["City", "State", "Country"],
            MainListData::Regions(..) => &["Region"],
            MainListData::Subregions(..) => &["Subregion", "Region"],
            MainListData::Currencies(..) => &["Name", "ISO", "Symbol"],
        };
        assert(r@.map_values(|s: &'static str| s@) =~= column_titles(self.list()));
        r
    }

    /// The title and the paging of the listing.
    pub fn data(&self) -> (r: (&'a str, Option<Pagination>))
        ensures
            r.0 == self.title(),
            r.1 == self.pagination(),
    {
        match self {
            MainListData::Countries(title, pagination) => (*title, *pagination),
            MainListData::States(title, pagination) => (*title, *pagination),
            MainListData::Cities(title, pagination) => (*title, *pagination),
            MainListData::Regions(title, pagination) => (*title, *pagination),
            MainListData::Subregions(title, pagination) => (*title, *pagination),
            MainListData::Currencies(title, pagination) => (*title, *pagination),
        }
    }
}

/// The column titles of the table of each listing, left to right.
pub open spec fn column_titles(list: MainList) -> Seq<Seq<char>> {
    match list {
        MainList::Countries => seq!["Country"@, "Region"@, "Subregion"@],
        MainList::States => seq!["State"@, "Country"@],
        MainList::Cities => seq!["City"@, "State"@, "Country"@],
        MainList::Regions => seq!["Region"@],
        MainList::Subregions => seq!["Subregion"@, "Region"@],
        MainList::Currencies => seq!["Name"@, "ISO"@, "Symbol"@],
    }
}

} // verus!
