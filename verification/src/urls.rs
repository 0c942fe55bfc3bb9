//! The addresses of the service: one base address and a fixed path for each
//! kind of request.

use vstd::prelude::*;
use vstd::string::*;
use url::Url;
use crate::text::{decimal, usize_to_string};
use crate::types::DataKind;

verus! {

/// `url::Url`, a parsed address. Nothing is known of a value of it but what
/// the functions below tell.
#[verifier::external_type_specification]
#[verifier::external_body]
pub struct ExUrl(url::Url);

/// The text of an address, as `url::Url::as_str` gives it.
pub uninterp spec fn url_text(url: Url) -> Seq<char>;

/// The text of the address that `url::Url::parse` reads from `input`, where
/// it reads one.
pub uninterp spec fn parsed_text(input: Seq<char>) -> Option<Seq<char>>;

/// The text of an address after `url::Url::set_path` has given it the path
/// `path`.
pub uninterp spec fn text_with_path(text: Seq<char>, path: Seq<char>) -> Seq<char>;

/// The text of an address after `url::PathSegmentsMut::extend` has added
/// `segments` to its path.
pub uninterp spec fn text_with_segments(text: Seq<char>, segments: Seq<Seq<char>>) -> Seq<char>;

/// The text of an address after `form_urlencoded::Serializer::append_pair`
/// has added the pair of `name` and `value` to its query.
pub uninterp spec fn text_with_pair(text: Seq<char>, name: Seq<char>, value: Seq<char>) -> Seq<
    char,
>;

/// The path in the text of an address, as `url::Url::path` gives it.
pub uninterp spec fn path_of_text(text: Seq<char>) -> Seq<char>;

/// The address can take a path: in its text a slash follows the first colon.
pub open spec fn text_is_base(text: Seq<char>) -> bool {
    exists|i: int|
        0 <= i && i + 1 < text.len() && #[trigger] text[i] == ':' && text[i + 1] == '/' && (forall|
            j: int,
        |
            0 <= j < i ==> text[j] != ':')
}

/// The most bytes that the text of an address may come to while the crate
/// behind it works on it: positions in the text are 32-bit numbers there.
pub const URL_LIMIT: usize = 0x7fff_ffff;

/// The bytes set aside for the separators that a change of an address adds.
pub const WORD_ROOM: usize = 64;

/// The bytes set aside for the fixed words of a path or a query and their
/// separators.
pub const ROUTE_ROOM: usize = 1024;

/// An address of the text `text` has room for a change that is given at most
/// four texts, none longer than `piece`. A character takes at most four
/// bytes, and each byte of a given text at most three in the address.
pub open spec fn room_for(text: Seq<char>, piece: Seq<char>) -> bool {
    4 * text.len() + 48 * (piece.len() + 1) + WORD_ROOM <= URL_LIMIT
}

/// Calls `url::Url::parse`, which reads an address from a text or fails.
#[verifier::external_body]
fn url_parse(input: &str) -> (r: Option<Url>)
    ensures
        r.is_some() == parsed_text(input@).is_some(),
        r.is_some() ==> url_text(r.unwrap()) == parsed_text(input@).unwrap(),
{
    Url::parse(input).ok()
}

/// Calls `Clone::clone` of `url::Url`: the copy has the same text.
#[verifier::external_body]
fn url_clone(url: &Url) -> (r: Url)
    ensures
        url_text(r) == url_text(*url),
{
    url.clone()
}

/// Calls `url::Url::as_str`, which gives the text of the address.
#[verifier::external_body]
fn url_as_str(url: &Url) -> (r: &str)
    ensures
        r@ == url_text(*url),
{
    url.as_str()
}

/// Calls `url::Url::cannot_be_a_base`. An address cannot be a base when no
/// slash follows the colon that ends its scheme, the first colon of its text.
#[verifier::external_body]
fn url_cannot_be_a_base(url: &Url) -> (r: bool)
    ensures
        r == !text_is_base(url_text(*url)),
{
    url.cannot_be_a_base()
}

/// Calls `url::Url::path`, which gives the path of the address.
#[verifier::external_body]
fn url_path(url: &Url) -> (r: String)
    ensures
        r@ == path_of_text(url_text(*url)),
{
    url.path().to_string()
}

/// Calls `url::Url::set_path`. The crate keeps positions in the text as
/// 32-bit numbers and stops the program where the text outgrows them, so the
/// address must have room for the path. An address that can take a path
/// still can after it got a path that begins with a small letter.
#[verifier::external_body]
fn url_set_path(url: &mut Url, path: &str)
    requires
        room_for(url_text(*old(url)), path@),
    ensures
        url_text(*final(url)) == text_with_path(url_text(*old(url)), path@),
        text_is_base(url_text(*old(url))) && path@.len() > 0 && 'a' <= path@[0] && path@[0] <= 'z'
            ==> text_is_base(url_text(*final(url))),
{
    url.set_path(path);
}

/// Calls `url::Url::path_segments_mut` and, on what it gives,
/// `url::PathSegmentsMut::extend`. The first fails exactly for an address
/// that cannot be a base, and the address is then left as it was. Otherwise
/// the segments are added to the path, and the address can still take a path.
/// The address must have room for the segments, as for `set_path`.
#[verifier::external_body]
fn url_extend(url: &mut Url, segments: &Vec<&str>) -> (done: bool)
    requires
        segments@.len() <= 3,
        forall|i: int| 0 <= i < segments@.len() ==> room_for(url_text(*old(url)), segments@[i]@),
    ensures
        done == text_is_base(url_text(*old(url))),
        done ==> url_text(*final(url)) == text_with_segments(
            url_text(*old(url)),
            segments@.map_values(|s: &str| s@),
        ),
        done ==> text_is_base(url_text(*final(url))),
        !done ==> url_text(*final(url)) == url_text(*old(url)),
{
    match url.path_segments_mut() {
        Ok(mut path) => {
            path.extend(segments);
            true
        },
        Err(()) => false,
    }
}

/// Calls `url::Url::query_pairs_mut` and, on what it gives,
/// `form_urlencoded::Serializer::append_pair` twice, which adds two pairs to
/// the query, one after the other. An address that can take a path still
/// can. The address must have room for the four texts, as for `set_path`.
#[verifier::external_body]
fn url_append_pairs(url: &mut Url, name: &str, value: &str, next_name: &str, next_value: &str)
    requires
        room_for(url_text(*old(url)), name@),
        room_for(url_text(*old(url)), value@),
        room_for(url_text(*old(url)), next_name@),
        room_for(url_text(*old(url)), next_value@),
    ensures
        url_text(*final(url)) == text_with_pair(
            text_with_pair(url_text(*old(url)), name@, value@),
            next_name@,
            next_value@,
        ),
        text_is_base(url_text(*old(url))) ==> text_is_base(url_text(*final(url))),
{
    url.query_pairs_mut().append_pair(name, value).append_pair(next_name, next_value);
}

/// An address of the text `text` has room for a key or a number of `extra`
/// characters, beside the fixed words of its path or query.
pub open spec fn text_fits(text: Seq<char>, extra: nat) -> bool {
    4 * text.len() + 48 * (extra + 1) + ROUTE_ROOM <= URL_LIMIT
}

/// An address of the text `text` has room for a page and a limit.
pub open spec fn page_fits(text: Seq<char>, page: usize, limit: usize) -> bool {
    text_fits(text, decimal(page as nat).len()) && text_fits(text, decimal(limit as nat).len())
}

/// The text of the address that a builder starts from when none is given.
pub open spec fn default_base() -> Seq<char> {
    "http://127.0.0.1:3000"@
}

/// The path of the metadata request and of the six top-level listings.
pub open spec fn list_path(kind: DataKind) -> Seq<char> {
    match kind {
        DataKind::Metadata => "metadata"@,
        DataKind::Countries => "countries"@,
        DataKind::States => "states"@,
        DataKind::Cities => "cities"@,
        DataKind::Regions => "regions"@,
        DataKind::Subregions => "subregions"@,
        _ => "currencies"@,
    }
}

/// The word that stands before the key in the path of a request about one
/// entity: the kind of entity that the key belongs to.
pub open spec fn owner_word(kind: DataKind) -> Seq<char> {
    match kind {
        DataKind::Country | DataKind::StatesByCountry | DataKind::CitiesByCountry => "country"@,
        DataKind::State | DataKind::CitiesByState => "state"@,
        DataKind::City => "city"@,
        DataKind::Region | DataKind::CountriesByRegion | DataKind::SubregionsByRegion => "region"@,
        DataKind::Subregion | DataKind::CountriesBySubregion => "subregion"@,
        _ => "currency"@,
    }
}

/// The word that stands after the key in the path of a filtered listing:
/// what is listed.
pub open spec fn listed_word(kind: DataKind) -> Seq<char> {
    match kind {
        DataKind::StatesByCountry => "states"@,
        DataKind::CitiesByCountry | DataKind::CitiesByState => "cities"@,
        DataKind::SubregionsByRegion => "subregions"@,
        _ => "countries"@,
    }
}

/// The path segments of a request about the entity of a key: for a single
/// entity its word and the key, for a filtered listing the word of the owner,
/// the key and what is listed.
pub open spec fn route_segments(kind: DataKind, key: Seq<char>) -> Seq<Seq<char>> {
    if kind.is_filtered() {
        seq![owner_word(kind), key, listed_word(kind)]
    } else {
        seq![owner_word(kind), key]
    }
}

/// The text of the address of a request, from the text of the base address.
pub open spec fn route_text(base: Seq<char>, kind: DataKind, key: Seq<char>) -> Seq<char> {
    if kind.is_object() || kind.is_filtered() {
        text_with_segments(base, route_segments(kind, key))
    } else {
        text_with_path(base, list_path(kind))
    }
}

/// The text of an address that asks for a page: the page and then the limit
/// are added to its query, both in decimal.
pub open spec fn paged_text(text: Seq<char>, page: usize, limit: usize) -> Seq<char> {
    text_with_pair(
        text_with_pair(text, "page"@, decimal(page as nat)),
        "limit"@,
        decimal(limit as nat),
    )
}

/// An address of the service. It can always take a path.
#[derive(Debug)]
pub struct UrlBuilder {
    url: Url,
}

impl Clone for UrlBuilder {
    fn clone(&self) -> (r: Self)
        ensures
            r.text() == self.text(),
    {
        proof {
            use_type_invariant(self);
        }
        UrlBuilder { url: url_clone(&self.url) }
    }
}

impl UrlBuilder {
    #[verifier::type_invariant]
    spec fn takes_path(&self) -> bool {
        text_is_base(url_text(self.url))
    }

    /// The text of the address.
    pub closed spec fn text(&self) -> Seq<char> {
        url_text(self.url)
    }

    /// The address has room for a key or a number of `extra` characters,
    /// beside the fixed words of its path or query.
    pub open spec fn fits(&self, extra: nat) -> bool {
        text_fits(self.text(), extra)
    }

    /// The address of a service on this machine, at port 3000.
    pub fn new() -> (r: Self)
        requires
            parsed_text(default_base()).is_some(),
            text_is_base(parsed_text(default_base()).unwrap()),
        ensures
            r.text() == parsed_text(default_base()).unwrap(),
    {
        match url_parse("http://127.0.0.1:3000") {
            Some(url) => UrlBuilder { url },
            None => vstd::pervasive::unreached(),
        }
    }

    /// The address of a service on this machine, at port 3000, where that
    /// text reads as an address that can take a path.
    pub fn try_new() -> (r: Option<Self>)
        ensures
            r.is_some() == (parsed_text(default_base()).is_some() && text_is_base(
                parsed_text(default_base()).unwrap(),
            )),
            r.is_some() ==> r.unwrap().text() == parsed_text(default_base()).unwrap(),
    {
        match url_parse("http://127.0.0.1:3000") {
            Some(url) => {
                if url_cannot_be_a_base(&url) {
                    None
                } else {
                    Some(UrlBuilder::new())
                }
            },
            None => None,
        }
    }

    /// The address that `host` reads as.
    pub fn with_base(host: &str) -> (r: Self)
        requires
            parsed_text(host@).is_some(),
            text_is_base(parsed_text(host@).unwrap()),
        ensures
            r.text() == parsed_text(host@).unwrap(),
    {
        match url_parse(host) {
            Some(url) => UrlBuilder { url },
            None => vstd::pervasive::unreached(),
        }
    }

    /// The address that `host` reads as, where it reads as one that can take
    /// a path.
    pub fn try_with_base(host: &str) -> (r: Option<Self>)
        ensures
            r.is_some() == (parsed_text(host@).is_some() && text_is_base(
                parsed_text(host@).unwrap(),
            )),
            r.is_some() ==> r.unwrap().text() == parsed_text(host@).unwrap(),
    {
        match url_parse(host) {
            Some(url) => {
                if url_cannot_be_a_base(&url) {
                    None
                } else {
                    Some(UrlBuilder::with_base(host))
                }
            },
            None => None,
        }
    }

    /// The address of the service at a socket address, given as
    /// text: what `http://` and then `addr` reads as.
    pub fn with_addr(addr: &str) -> (r: Option<Self>)
        ensures
            r.is_some() == (parsed_text("http://"@ + addr@).is_some() && text_is_base(
                parsed_text("http://"@ + addr@).unwrap(),
            )),
            r.is_some() ==> r.unwrap().text() == parsed_text("http://"@ + addr@).unwrap(),
    {
        let text = String::from_str("http://").concat(addr);
        UrlBuilder::try_with_base(text.as_str())
    }

    /// The text of the address.
    pub fn as_str(&self) -> (r: &str)
        ensures
            r@ == self.text(),
    {
        url_as_str(&self.url)
    }

    /// The number of characters of the text of the address.
    pub fn size(&self) -> (r: usize)
        ensures
            r == self.text().len(),
    {
        url_as_str(&self.url).unicode_len()
    }

    /// The text of the address.
    pub fn build(self) -> (r: String)
        ensures
            r@ == self.text(),
    {
        String::from_str(url_as_str(&self.url))
    }

    /// The path of the address.
    pub fn path(self) -> (r: String)
        ensures
            r@ == path_of_text(self.text()),
    {
        url_path(&self.url)
    }

    /// Whether the address has room for a key or a number of `extra`
    /// characters.
    pub fn has_room(&self, extra: usize) -> (r: bool)
        ensures
            r == self.fits(extra as nat),
    {
        let size = self.size();
        let most: usize = (URL_LIMIT - ROUTE_ROOM) / 48 - 1;
        extra <= most && size <= (URL_LIMIT - ROUTE_ROOM - 48 * (extra + 1)) / 4
    }

    /// The address of a request of a kind: for a single entity and for a
    /// filtered listing the path of this address grows by the segments of the
    /// kind and the key; for the metadata and the top-level listings the
    /// path is replaced, and the key is not read.
    pub fn route(&self, kind: DataKind, key: &str) -> (r: Self)
        requires
            self.fits(key@.len()),
        ensures
            r.text() == route_text(self.text(), kind, key@),
    {
        proof {
            use_type_invariant(self);
        }
        let mut url = url_clone(&self.url);
        if kind.object() || kind.filtered() {
            let mut segments: Vec<&str> = Vec::new();
            segments.push(owner(kind));
            segments.push(key);
            if kind.filtered() {
                segments.push(listed(kind));
            }
            assert(segments@.map_values(|s: &str| s@) =~= route_segments(kind, key@));
            let done = url_extend(&mut url, &segments);
            assert(done);
        } else {
            url_set_path(&mut url, list_word(kind));
        }
        UrlBuilder { url }
    }

    /// The address of a request of a kind, where this address has room for
    /// the key.
    pub fn try_route(&self, kind: DataKind, key: &str) -> (r: Option<Self>)
        ensures
            r.is_some() == self.fits(key@.len()),
            r.is_some() ==> r.unwrap().text() == route_text(self.text(), kind, key@),
    {
        if self.has_room(key.unicode_len()) {
            Some(self.route(kind, key))
        } else {
            None
        }
    }

    /// The address with a page and a limit added to its query.
    pub fn with_pagination(self, page: usize, limit: usize) -> (r: Self)
        requires
            self.fits(decimal(page as nat).len()),
            self.fits(decimal(limit as nat).len()),
        ensures
            r.text() == paged_text(self.text(), page, limit),
    {
        proof {
            use_type_invariant(&self);
            reveal_strlit("page");
            reveal_strlit("limit");
        }
        let page_text = usize_to_string(page);
        let limit_text = usize_to_string(limit);
        let mut url = url_clone(&self.url);
        url_append_pairs(&mut url, "page", page_text.as_str(), "limit", limit_text.as_str());
        UrlBuilder { url }
    }

    /// The address with a page and a limit added to its query, where it has
    /// room for both numbers.
    pub fn try_with_pagination(self, page: usize, limit: usize) -> (r: Option<Self>)
        ensures
            r.is_some() == page_fits(self.text(), page, limit),
            r.is_some() ==> r.unwrap().text() == paged_text(self.text(), page, limit),
    {
        let page_size = usize_to_string(page).as_str().unicode_len();
        let limit_size = usize_to_string(limit).as_str().unicode_len();
        if self.has_room(page_size) && self.has_room(limit_size) {
            Some(self.with_pagination(page, limit))
        } else {
            None
        }
    }

    /// The address of a request for a page of a listing, where this address
    /// has room for the key and the address of the listing for the page and
    /// the limit.
    pub fn paged_route(&self, kind: DataKind, key: &str, page: usize, limit: usize) -> (r: Option<
        Self,
    >)
        ensures
            r.is_some() == (self.fits(key@.len()) && page_fits(
                route_text(self.text(), kind, key@),
                page,
                limit,
            )),
            r.is_some() ==> r.unwrap().text() == paged_text(
                route_text(self.text(), kind, key@),
                page,
                limit,
            ),
    {
        match self.try_route(kind, key) {
            Some(route) => route.try_with_pagination(page, limit),
            None => None,
        }
    }

    /// The address that asks for the metadata.
    pub fn for_metadata(&self) -> (r: Self)
        requires
            self.fits(0),
        ensures
            r.text() == text_with_path(self.text(), list_path(DataKind::Metadata)),
    {
        proof {
            reveal_strlit("");
        }
        self.route(DataKind::Metadata, "")
    }

    /// The address that asks for all countries.
    pub fn for_countries(&self) -> (r: Self)
        requires
            self.fits(0),
        ensures
            r.text() == text_with_path(self.text(), list_path(DataKind::Countries)),
    {
        proof {
            reveal_strlit("");
        }
        self.route(DataKind::Countries, "")
    }

    /// The address that asks for all states.
    pub fn for_states(&self) -> (r: Self)
        requires
            self.fits(0),
        ensures
            r.text() == text_with_path(self.text(), list_path(DataKind::States)),
    {
        proof {
            reveal_strlit("");
        }
        self.route(DataKind::States, "")
    }

    /// The address that asks for all cities.
    pub fn for_cities(&self) -> (r: Self)
        requires
            self.fits(0),
        ensures
            r.text() == text_with_path(self.text(), list_path(DataKind::Cities)),
    {
        proof {
            reveal_strlit("");
        }
        self.route(DataKind::Cities, "")
    }

    /// The address that asks for all regions.
    pub fn for_world_regions(&self) -> (r: Self)
        requires
            self.fits(0),
        ensures
            r.text() == text_with_path(self.text(), list_path(DataKind::Regions)),
    {
        proof {
            reveal_strlit("");
        }
        self.route(DataKind::Regions, "")
    }

    /// The address that asks for all subregions.
    pub fn for_world_subregions(&self) -> (r: Self)
        requires
            self.fits(0),
        ensures
            r.text() == text_with_path(self.text(), list_path(DataKind::Subregions)),
    {
        proof {
            reveal_strlit("");
        }
        self.route(DataKind::Subregions, "")
    }

    /// The address that asks for all currencies.
    pub fn for_currencies(&self) -> (r: Self)
        requires
            self.fits(0),
        ensures
            r.text() == text_with_path(self.text(), list_path(DataKind::Currencies)),
    {
        proof {
            reveal_strlit("");
        }
        self.route(DataKind::Currencies, "")
    }

    /// The address that asks for a country, by its key.
    pub fn for_country(&self, key: &str) -> (r: Self)
        requires
            self.fits(key@.len()),
        ensures
            r.text() == text_with_segments(self.text(), route_segments(DataKind::Country, key@)),
    {
        self.route(DataKind::Country, key)
    }

    /// The address that asks for a state, by its key.
    pub fn for_state(&self, key: &str) -> (r: Self)
        requires
            self.fits(key@.len()),
        ensures
            r.text() == text_with_segments(self.text(), route_segments(DataKind::State, key@)),
    {
        self.route(DataKind::State, key)
    }

    /// The address that asks for a city, by its key.
    pub fn for_city(&self, key: &str) -> (r: Self)
        requires
            self.fits(key@.len()),
        ensures
            r.text() == text_with_segments(self.text(), route_segments(DataKind::City, key@)),
    {
        self.route(DataKind::City, key)
    }

    /// The address that asks for a region, by its key.
    pub fn for_world_region(&self, key: &str) -> (r: Self)
        requires
            self.fits(key@.len()),
        ensures
            r.text() == text_with_segments(self.text(), route_segments(DataKind::Region, key@)),
    {
        self.route(DataKind::Region, key)
    }

    /// The address that asks for a subregion, by its key.
    pub fn for_world_subregion(&self, key: &str) -> (r: Self)
        requires
            self.fits(key@.len()),
        ensures
            r.text() == text_with_segments(self.text(), route_segments(DataKind::Subregion, key@)),
    {
        self.route(DataKind::Subregion, key)
    }

    /// The address that asks for a currency, by its key.
    pub fn for_currency(&self, key: &str) -> (r: Self)
        requires
            self.fits(key@.len()),
        ensures
            r.text() == text_with_segments(self.text(), route_segments(DataKind::Currency, key@)),
    {
        self.route(DataKind::Currency, key)
    }

    /// The address that asks for the countries of a region, by its key.
    pub fn for_countries_from_region(&self, key: &str) -> (r: Self)
        requires
            self.fits(key@.len()),
        ensures
            r.text() == text_with_segments(self.text(), route_segments(DataKind::CountriesByRegion, key@)),
    {
        self.route(DataKind::CountriesByRegion, key)
    }

    /// The address that asks for the countries of a subregion, by its key.
    pub fn for_countries_from_subregion(&self, key: &str) -> (r: Self)
        requires
            self.fits(key@.len()),
        ensures
            r.text() == text_with_segments(self.text(), route_segments(DataKind::CountriesBySubregion, key@)),
    {
        self.route(DataKind::CountriesBySubregion, key)
    }

    /// The address that asks for the countries that use a currency, by its key.
    pub fn for_countries_from_currency(&self, key: &str) -> (r: Self)
        requires
            self.fits(key@.len()),
        ensures
            r.text() == text_with_segments(self.text(), route_segments(DataKind::CountriesByCurrency, key@)),
    {
        self.route(DataKind::CountriesByCurrency, key)
    }

    /// The address that asks for the states of a country, by its key.
    pub fn for_states_from_country(&self, key: &str) -> (r: Self)
        requires
            self.fits(key@.len()),
        ensures
            r.text() == text_with_segments(self.text(), route_segments(DataKind::StatesByCountry, key@)),
    {
        self.route(DataKind::StatesByCountry, key)
    }

    /// The address that asks for the cities of a country, by its key.
    pub fn for_cities_from_country(&self, key: &str) -> (r: Self)
        requires
            self.fits(key@.len()),
        ensures
            r.text() == text_with_segments(self.text(), route_segments(DataKind::CitiesByCountry, key@)),
    {
        self.route(DataKind::CitiesByCountry, key)
    }

    /// The address that asks for the cities of a state, by its key.
    pub fn for_cities_from_state(&self, key: &str) -> (r: Self)
        requires
            self.fits(key@.len()),
        ensures
            r.text() == text_with_segments(self.text(), route_segments(DataKind::CitiesByState, key@)),
    {
        self.route(DataKind::CitiesByState, key)
    }

    /// The address that asks for the subregions of a region, by its key.
    pub fn for_subregions_from_region(&self, key: &str) -> (r: Self)
        requires
            self.fits(key@.len()),
        ensures
            r.text() == text_with_segments(self.text(), route_segments(DataKind::SubregionsByRegion, key@)),
    {
        self.route(DataKind::SubregionsByRegion, key)
    }
}

/// The path of the metadata request and of the six top-level listings.
fn list_word(kind: DataKind) -> (r: &'static str)
    ensures
        r@ == list_path(kind),
        0 < r@.len() <= 10,
        'a' <= r@[0] && r@[0] <= 'z',
{
    proof {
        reveal_strlit("metadata");
        reveal_strlit("countries");
        reveal_strlit("states");
        reveal_strlit("cities");
        reveal_strlit("regions");
        reveal_strlit("subregions");
        reveal_strlit("currencies");
    }
    match kind {
        DataKind::Metadata => "metadata",
        DataKind::Countries => "countries",
        DataKind::States => "states",
        DataKind::Cities => "cities",
        DataKind::Regions => "regions",
        DataKind::Subregions => "subregions",
        _ => "currencies",
    }
}

/// The word before the key in the path of a request about one entity.
fn owner(kind: DataKind) -> (r: &'static str)
    ensures
        r@ == owner_word(kind),
        r@.len() <= 10,
{
    proof {
        reveal_strlit("country");
        reveal_strlit("state");
        reveal_strlit("city");
        reveal_strlit("region");
        reveal_strlit("subregion");
        reveal_strlit("currency");
    }
    match kind {
        DataKind::Country | DataKind::StatesByCountry | DataKind::CitiesByCountry => "country",
        DataKind::State | DataKind::CitiesByState => "state",
        DataKind::City => "city",
        DataKind::Region | DataKind::CountriesByRegion | DataKind::SubregionsByRegion => "region",
        DataKind::Subregion | DataKind::CountriesBySubregion => "subregion",
        _ => "currency",
    }
}

/// The word after the key in the path of a filtered listing.
fn listed(kind: DataKind) -> (r: &'static str)
    ensures
        r@ == listed_word(kind),
        r@.len() <= 10,
{
    proof {
        reveal_strlit("states");
        reveal_strlit("cities");
        reveal_strlit("subregions");
        reveal_strlit("countries");
    }
    match kind {
        DataKind::StatesByCountry => "states",
        DataKind::CitiesByCountry | DataKind::CitiesByState => "cities",
        DataKind::SubregionsByRegion => "subregions",
        _ => "countries",
    }
}

} // verus!
