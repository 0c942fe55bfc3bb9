//! The entities of the world tables and the references between them.

use vstd::prelude::*;
use vstd::string::*;
use crate::text::{decimal, usize_to_string};
use crate::types::{DataKind, MainList};

verus! {

/// The text that stands for a key that is not set.
pub open spec fn none_text() -> Seq<char> {
    seq!['N', 'o', 'n', 'e']
}

/// A key and the label that was current when the key was read: what one
/// entity holds of another, and what a selection hands to a window.
#[derive(Debug, PartialEq, Eq, Hash, Default)]
pub struct Tag {
    pub key: String,
    pub label: String,
}

impl Clone for Tag {
    fn clone(&self) -> (r: Self)
        ensures
            r == *self,
    {
        Tag { key: self.key.clone(), label: self.label.clone() }
    }
}

impl Tag {
    /// A reference with its label.
    pub fn new(key: String, label: String) -> (r: Self)
        ensures
            r.key == key,
            r.label == label,
    {
        Tag { key, label }
    }

    /// A reference whose label is not known yet: it is empty.
    pub fn from_key(key: String) -> (r: Self)
        ensures
            r.key == key,
            r.label@ == Seq::<char>::empty(),
    {
        Tag { key, label: String::new() }
    }
}

/// The primary key of an entity: a number, a code, or nothing yet.
#[derive(Debug, PartialEq, Eq, Hash, Default)]
pub enum Key {
    Int(usize),
    Text(String),
    #[default]
    Unset,
}

impl Clone for Key {
    fn clone(&self) -> (r: Self)
        ensures
            r == *self,
    {
        match self {
            Key::Int(n) => Key::Int(*n),
            Key::Text(s) => Key::Text(s.clone()),
            Key::Unset => Key::Unset,
        }
    }
}

impl Key {
    /// The key is set.
    pub open spec fn is_set(&self) -> bool {
        !(*self is Unset)
    }

    /// The text under which the key is looked up: the decimal text of a
    /// number, a code as it is, and the word `None` for a key that is not set.
    pub open spec fn text(&self) -> Seq<char> {
        match self {
            Key::Int(n) => decimal(*n as nat),
            Key::Text(s) => s@,
            Key::Unset => none_text(),
        }
    }

    /// Two keys name the same entity: both numbers and equal, both codes
    /// and equal, or both not set.
    pub open spec fn same(&self, other: &Key) -> bool {
        match (self, other) {
            (Key::Int(a), Key::Int(b)) => a == b,
            (Key::Text(a), Key::Text(b)) => a@ == b@,
            (Key::Unset, Key::Unset) => true,
            _ => false,
        }
    }

    /// Whether the key is set.
    pub fn is_some(&self) -> (r: bool)
        ensures
            r == self.is_set(),
    {
        match self {
            Key::Unset => false,
            _ => true,
        }
    }

    /// The text of the key.
    pub fn to_text(&self) -> (r: String)
        ensures
            r@ == self.text(),
    {
        match self {
            Key::Int(n) => usize_to_string(*n),
            Key::Text(s) => s.clone(),
            Key::Unset => {
                proof {
                    reveal_strlit("None");
                }
                let r = String::from_str("None");
                assert(r@ =~= none_text());
                r
            },
        }
    }

    /// Whether two keys name the same entity.
    pub fn is_same(&self, other: &Key) -> (r: bool)
        ensures
            r == self.same(other),
    {
        match self {
            Key::Int(a) => match other {
                Key::Int(b) => *a == *b,
                _ => false,
            },
            Key::Text(a) => match other {
                Key::Text(b) => *a == *b,
                _ => false,
            },
            Key::Unset => match other {
                Key::Unset => true,
                _ => false,
            },
        }
    }
}

/// What an entity holds of a related one: its key with a label, or nothing.
#[derive(Debug, PartialEq, Eq, Default)]
pub enum EntityLabel {
    KeyLabel(Key, String),
    #[default]
    Absent,
}

impl Clone for EntityLabel {
    fn clone(&self) -> (r: Self)
        ensures
            r == *self,
    {
        match self {
            EntityLabel::KeyLabel(key, label) => EntityLabel::KeyLabel(key.clone(), label.clone()),
            EntityLabel::Absent => EntityLabel::Absent,
        }
    }
}

impl EntityLabel {
    /// The text of the key of the related entity, where there is one.
    pub open spec fn key_text(&self) -> Option<Seq<char>> {
        match self {
            EntityLabel::KeyLabel(key, _) => Some(key.text()),
            EntityLabel::Absent => None,
        }
    }

    /// The label of the related entity, where there is one.
    pub open spec fn label_text(&self) -> Option<Seq<char>> {
        match self {
            EntityLabel::KeyLabel(_, label) => Some(label@),
            EntityLabel::Absent => None,
        }
    }

    /// The related entity can be selected: it has a key that is set.
    pub open spec fn tagged(&self) -> bool {
        match self {
            EntityLabel::KeyLabel(key, _) => key.is_set(),
            EntityLabel::Absent => false,
        }
    }

    /// The text of the key of the related entity.
    pub fn key(&self) -> (r: Option<String>)
        ensures
            r.is_some() == self.key_text().is_some(),
            r.is_some() ==> r.unwrap()@ == self.key_text().unwrap(),
    {
        match self {
            EntityLabel::KeyLabel(key, _) => Some(key.to_text()),
            EntityLabel::Absent => None,
        }
    }

    /// The label of the related entity.
    pub fn label(&self) -> (r: Option<String>)
        ensures
            r.is_some() == self.label_text().is_some(),
            r.is_some() ==> r.unwrap()@ == self.label_text().unwrap(),
    {
        match self {
            EntityLabel::KeyLabel(_, label) => Some(label.clone()),
            EntityLabel::Absent => None,
        }
    }

    /// Key and label together, where the reference holds them.
    pub fn tag(&self) -> (r: Option<Tag>)
        ensures
            r.is_some() == self.key_text().is_some(),
            r.is_some() ==> r.unwrap().key@ == self.key_text().unwrap(),
            r.is_some() ==> r.unwrap().label@ == self.label_text().unwrap(),
    {
        match self {
            EntityLabel::KeyLabel(key, label) => Some(Tag { key: key.to_text(), label: label.clone() }),
            EntityLabel::Absent => None,
        }
    }

    /// Whether the related entity can be selected.
    pub fn has_tag(&self) -> (r: bool)
        ensures
            r == self.tagged(),
    {
        match self {
            EntityLabel::KeyLabel(key, _) => key.is_some(),
            EntityLabel::Absent => false,
        }
    }
}

/// A country. Coordinates are held as the text they are shown as.
#[derive(Clone, Debug, PartialEq, Eq, Default)]
pub struct Country {
    pub iso2: Key,
    pub iso3: String,
    pub name: String,
    pub code: u32,
    pub capital: EntityLabel,
    pub currency: EntityLabel,
    pub tld: String,
    pub native: String,
    pub region: EntityLabel,
    pub subregion: EntityLabel,
    pub latitude: String,
    pub longitude: String,
    pub emoji: String,
    pub emoji_u: String,
}

/// A currency, known by its ISO code.
#[derive(Clone, Debug, Default)]
pub struct Currency {
    pub iso: Key,
    pub name: String,
    pub symbol: String,
}

/// A region of the world.
#[derive(Clone, Debug, PartialEq, Eq, Default)]
pub struct WorldRegion {
    pub id: Key,
    pub name: String,
}

/// A subregion of a region.
#[derive(Clone, Debug, PartialEq, Eq, Default)]
pub struct WorldSubregion {
    pub id: Key,
    pub name: String,
    pub region: EntityLabel,
}

/// A state or province of a country.
#[derive(Clone, Debug, PartialEq, Eq, Default)]
pub struct State {
    pub id: Key,
    pub name: String,
    pub code: String,
    pub country: EntityLabel,
    pub latitude: Option<String>,
    pub longitude: Option<String>,
}

/// A city.
#[derive(Clone, Debug, PartialEq, Eq, Default)]
pub struct City {
    pub id: Key,
    pub name: String,
    pub state: EntityLabel,
    pub country: EntityLabel,
    pub latitude: Option<String>,
    pub longitude: Option<String>,
}

/// What the service holds: its version and the number of rows of each table.
#[derive(Clone, Debug, PartialEq, Eq, Default)]
pub struct Metadata {
    pub version: String,
    pub countries: usize,
    pub states: usize,
    pub cities: usize,
    pub regions: usize,
    pub subregions: usize,
    pub currencies: usize,
}

impl PartialEq for Currency {
    /// Two currencies are the same if their keys are, whatever their labels.
    fn eq(&self, other: &Self) -> (r: bool) {
        self.iso.is_same(&other.iso)
    }
}

impl Eq for Currency {

}

impl vstd::std_specs::cmp::PartialEqSpecImpl for Currency {
    open spec fn obeys_eq_spec() -> bool {
        true
    }

    open spec fn eq_spec(&self, other: &Self) -> bool {
        self.iso.same(&other.iso)
    }
}

impl Metadata {
    /// The number of rows of a listing.
    pub open spec fn count_spec(&self, list: MainList) -> usize {
        match list {
            MainList::Countries => self.countries,
            MainList::States => self.states,
            MainList::Cities => self.cities,
            MainList::Regions => self.regions,
            MainList::Subregions => self.subregions,
            MainList::Currencies => self.currencies,
        }
    }

    /// The number of rows of a listing.
    pub fn count_of(&self, list: MainList) -> (r: usize)
        ensures
            r == self.count_spec(list),
    {
        match list {
            MainList::Countries => self.countries,
            MainList::States => self.states,
            MainList::Cities => self.cities,
            MainList::Regions => self.regions,
            MainList::Subregions => self.subregions,
            MainList::Currencies => self.currencies,
        }
    }
}

/// Key and label of an entity, for a window's registry and title.
pub fn tag_of(key: &Key, label: &String) -> (r: Tag)
    ensures
        r.key@ == key.text(),
        r.label@ == label@,
{
    Tag { key: key.to_text(), label: label.clone() }
}

impl Country {
    /// Key and name of the country.
    pub fn tag(&self) -> (r: Tag)
        ensures
            r.key@ == self.iso2.text(),
            r.label@ == self.name@,
    {
        tag_of(&self.iso2, &self.name)
    }
}

impl Currency {
    /// Key and name of the currency.
    pub fn tag(&self) -> (r: Tag)
        ensures
            r.key@ == self.iso.text(),
            r.label@ == self.name@,
    {
        tag_of(&self.iso, &self.name)
    }
}

impl WorldRegion {
    /// Key and name of the region.
    pub fn tag(&self) -> (r: Tag)
        ensures
            r.key@ == self.id.text(),
            r.label@ == self.name@,
    {
        tag_of(&self.id, &self.name)
    }
}

impl WorldSubregion {
    /// Key and name of the subregion.
    pub fn tag(&self) -> (r: Tag)
        ensures
            r.key@ == self.id.text(),
            r.label@ == self.name@,
    {
        tag_of(&self.id, &self.name)
    }
}

impl State {
    /// Key and name of the state.
    pub fn tag(&self) -> (r: Tag)
        ensures
            r.key@ == self.id.text(),
            r.label@ == self.name@,
    {
        tag_of(&self.id, &self.name)
    }
}

impl City {
    /// Key and name of the city.
    pub fn tag(&self) -> (r: Tag)
        ensures
            r.key@ == self.id.text(),
            r.label@ == self.name@,
    {
        tag_of(&self.id, &self.name)
    }
}

/// An entity of any of the six kinds.
#[derive(Clone, Debug)]
pub enum Entity {
    Country(Country),
    State(State),
    City(City),
    Region(WorldRegion),
    Subregion(WorldSubregion),
    Currency(Currency),
}

impl Entity {
    /// The kind of the entity, named by the listing of such entities.
    pub open spec fn list(&self) -> MainList {
        match self {
            Entity::Country(_) => MainList::Countries,
            Entity::State(_) => MainList::States,
            Entity::City(_) => MainList::Cities,
            Entity::Region(_) => MainList::Regions,
            Entity::Subregion(_) => MainList::Subregions,
            Entity::Currency(_) => MainList::Currencies,
        }
    }

    /// The primary key of the entity.
    pub open spec fn key_spec(&self) -> Key {
        match self {
            Entity::Country(e) => e.iso2,
            Entity::State(e) => e.id,
            Entity::City(e) => e.id,
            Entity::Region(e) => e.id,
            Entity::Subregion(e) => e.id,
            Entity::Currency(e) => e.iso,
        }
    }

    /// The name of the entity.
    pub open spec fn name_spec(&self) -> Seq<char> {
        match self {
            Entity::Country(e) => e.name@,
            Entity::State(e) => e.name@,
            Entity::City(e) => e.name@,
            Entity::Region(e) => e.name@,
            Entity::Subregion(e) => e.name@,
            Entity::Currency(e) => e.name@,
        }
    }

    /// What the entity holds of the entity that owns the listing of a
    /// filtered kind: of a country its region, subregion or currency, of a
    /// state its country, of a city its country or state, of a subregion its
    /// region. An entity of another kind than the listing holds nothing of it.
    pub open spec fn owner(&self, relation: DataKind) -> Option<EntityLabel> {
        match (relation, self) {
            (DataKind::CountriesByRegion, Entity::Country(e)) => Some(e.region),
            (DataKind::CountriesBySubregion, Entity::Country(e)) => Some(e.subregion),
            (DataKind::CountriesByCurrency, Entity::Country(e)) => Some(e.currency),
            (DataKind::StatesByCountry, Entity::State(e)) => Some(e.country),
            (DataKind::CitiesByCountry, Entity::City(e)) => Some(e.country),
            (DataKind::CitiesByState, Entity::City(e)) => Some(e.state),
            (DataKind::SubregionsByRegion, Entity::Subregion(e)) => Some(e.region),
            _ => None,
        }
    }

    /// The text of the key of the owner of a filtered listing, as the entity
    /// holds it.
    pub open spec fn owner_key(&self, relation: DataKind) -> Option<Seq<char>> {
        match self.owner(relation) {
            Some(reference) => reference.key_text(),
            None => None,
        }
    }

    /// The kind of the entity.
    pub fn list_kind(&self) -> (r: MainList)
        ensures
            r == self.list(),
    {
        match self {
            Entity::Country(_) => MainList::Countries,
            Entity::State(_) => MainList::States,
            Entity::City(_) => MainList::Cities,
            Entity::Region(_) => MainList::Regions,
            Entity::Subregion(_) => MainList::Subregions,
            Entity::Currency(_) => MainList::Currencies,
        }
    }

    /// The text of the primary key of the entity.
    pub fn key(&self) -> (r: String)
        ensures
            r@ == self.key_spec().text(),
    {
        match self {
            Entity::Country(e) => e.iso2.to_text(),
            Entity::State(e) => e.id.to_text(),
            Entity::City(e) => e.id.to_text(),
            Entity::Region(e) => e.id.to_text(),
            Entity::Subregion(e) => e.id.to_text(),
            Entity::Currency(e) => e.iso.to_text(),
        }
    }

    /// Key and name of the entity.
    pub fn tag(&self) -> (r: Tag)
        ensures
            r.key@ == self.key_spec().text(),
            r.label@ == self.name_spec(),
    {
        match self {
            Entity::Country(e) => e.tag(),
            Entity::State(e) => e.tag(),
            Entity::City(e) => e.tag(),
            Entity::Region(e) => e.tag(),
            Entity::Subregion(e) => e.tag(),
            Entity::Currency(e) => e.tag(),
        }
    }

    /// The text of the key of the owner of a filtered listing.
    pub fn owner_key_text(&self, relation: DataKind) -> (r: Option<String>)
        ensures
            r.is_some() == self.owner_key(relation).is_some(),
            r.is_some() ==> r.unwrap()@ == self.owner_key(relation).unwrap(),
    {
        match self {
            Entity::Country(e) => match relation {
                DataKind::CountriesByRegion => e.region.key(),
                DataKind::CountriesBySubregion => e.subregion.key(),
                DataKind::CountriesByCurrency => e.currency.key(),
                _ => None,
            },
            Entity::State(e) => match relation {
                DataKind::StatesByCountry => e.country.key(),
                _ => None,
            },
            Entity::City(e) => match relation {
                DataKind::CitiesByCountry => e.country.key(),
                DataKind::CitiesByState => e.state.key(),
                _ => None,
            },
            Entity::Subregion(e) => match relation {
                DataKind::SubregionsByRegion => e.region.key(),
                _ => None,
            },
            _ => None,
        }
    }
}

} // verus!
