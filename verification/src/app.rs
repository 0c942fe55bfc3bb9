//! The controller of the client: it holds every registry and table, decides
//! which requests go out, and puts what arrives where it belongs.

use vstd::prelude::*;
use vstd::string::*;
use crate::channels::Channels;
use crate::correlate::{
    errors_after, filtered_after, objects_after, routing_message, routing_text, table_after,
    texts, unread_message, unread_text,
};
use crate::entity::{Metadata, Tag};
use crate::registry::{lemma_shown_only, registered, shown_only, Registry, Window};
use crate::response::DataResponse;
use crate::types::{DataKind, MainList, FILTER_COUNT, KIND_COUNT, LIST_COUNT};
use crate::urls::{
    list_path, page_fits, paged_text, route_text, text_fits, text_with_path, UrlBuilder,
};
use crate::windows::{FilteredTableData, ObjectData, Page, ServerData, TableData};

verus! {

/// The time, in time units, that passes between a failure of the mandatory
/// load and the next attempt.
pub const RETRY_DELAY: u64 = 10;

/// The number of rows of a page that the client asks for.
pub const PAGE_LIMIT: usize = 100;

/// A fetch that is to be made: the address, and the kind whose channel the
/// outcome goes to.
#[derive(Debug)]
pub struct Request {
    pub kind: DataKind,
    pub url: String,
}

/// The state of the client.
#[derive(Debug)]
pub struct App {
    /// The base address of the service.
    pub url: UrlBuilder,
    /// The mandatory load that gates everything else.
    pub metadata: ServerData<Metadata>,
    /// The channels on which completed fetches arrive.
    pub channels: Channels,
    /// Which of the six top-level listings are shown.
    pub main_show: Vec<bool>,
    /// The page of each top-level listing, once it has arrived.
    pub tables: Vec<Option<TableData>>,
    /// The windows of single entities, one registry for each kind of entity.
    pub object_windows: Vec<Registry<ObjectData>>,
    /// The windows of filtered listings, one registry for each kind of them.
    pub filtered_windows: Vec<Registry<FilteredTableData>>,
    /// The error log.
    pub errors: Vec<String>,
    /// The fetches that were decided on and wait to be made.
    pub requests: Vec<Request>,
}

/// The message for a request whose address would grow beyond what an
/// address can hold.
pub open spec fn no_room_text() -> Seq<char> {
    "The address of the request is too long"@
}

/// The message for a request whose address would grow beyond what an
/// address can hold.
pub fn no_room_message() -> (r: String)
    ensures
        r@ == no_room_text(),
{
    String::from_str("The address of the request is too long")
}

/// What a filtered listing lists, as its window's title names it.
pub open spec fn listing_title(kind: DataKind) -> Seq<char> {
    match kind {
        DataKind::StatesByCountry => "States"@,
        DataKind::CitiesByCountry | DataKind::CitiesByState => "Cities"@,
        DataKind::SubregionsByRegion => "Subregions"@,
        _ => "Countries"@,
    }
}

/// The title of the window of a filtered listing: what is listed, and the
/// label of the entity that owns the listing.
pub open spec fn filtered_title(kind: DataKind, label: Seq<char>) -> Seq<char> {
    listing_title(kind) + " from "@ + label
}

/// What a filtered listing lists, as its window's title names it.
fn listing_word(kind: DataKind) -> (r: &'static str)
    ensures
        r@ == listing_title(kind),
{
    match kind {
        DataKind::StatesByCountry => "States",
        DataKind::CitiesByCountry | DataKind::CitiesByState => "Cities",
        DataKind::SubregionsByRegion => "Subregions",
        _ => "Countries",
    }
}

/// The address of the first page of a filtered listing has room for its key.
pub open spec fn first_page_fits(base: Seq<char>, kind: DataKind, key: Seq<char>) -> bool {
    text_fits(base, key.len()) && page_fits(route_text(base, kind, key), 1, PAGE_LIMIT)
}

/// The oldest outcome that waits on a channel, if one does.
pub open spec fn first_of(waiting: Seq<Result<DataResponse, String>>) -> Option<
    Result<DataResponse, String>,
> {
    if waiting.len() > 0 {
        Some(waiting.first())
    } else {
        None
    }
}

/// The error log after the oldest outcome of each channel before the place
/// `upto` was taken in, in the order of the channels. The channel of the
/// metadata, at place zero, is not among them.
pub open spec fn errors_upto(
    errors: Seq<Seq<char>>,
    channels: Seq<Seq<Result<DataResponse, String>>>,
    upto: nat,
) -> Seq<Seq<char>>
    decreases upto,
{
    if upto <= 1 {
        errors
    } else {
        let prior = errors_upto(errors, channels, (upto - 1) as nat);
        match first_of(channels[upto - 1]) {
            Some(outcome) => errors_after(prior, DataKind::at_spec((upto - 1) as nat), outcome),
            None => prior,
        }
    }
}

/// The message for metadata that arrived in a shape that cannot be read.
pub open spec fn unreadable_text() -> Seq<char> {
    "The metadata of the service could not be read"@
}

/// The message for metadata that arrived in a shape that cannot be read.
pub fn unreadable_message() -> (r: String)
    ensures
        r@ == unreadable_text(),
{
    String::from_str("The metadata of the service could not be read")
}

/// The delay `delay` has passed since the time `failed_at`.
pub open spec fn retry_due(failed_at: u64, now: u64, delay: u64) -> bool {
    now >= failed_at + delay
}

/// The address of the text `base` has room for a request of `kind` about
/// `key`: for the first page of a filtered listing, or for a single entity.
pub open spec fn key_has_room(base: Seq<char>, kind: DataKind, key: Seq<char>) -> bool {
    if kind.is_filtered() {
        first_page_fits(base, kind, key)
    } else {
        text_fits(base, key.len())
    }
}

/// The address of the text `base` has room for a request of `kind` about
/// each key of the entries.
pub open spec fn keys_have_room<W>(
    base: Seq<char>,
    kind: DataKind,
    entries: Seq<(Seq<char>, W)>,
) -> bool {
    forall|j: int| 0 <= j < entries.len() ==> key_has_room(base, kind, (#[trigger] entries[j]).0)
}

/// Whether the address has room for a request of `kind` about each key of a
/// registry.
pub fn registry_has_room<W>(url: &UrlBuilder, kind: DataKind, registry: &Registry<W>) -> (r: bool)
    ensures
        r == keys_have_room(url.text(), kind, registry@),
{
    let mut j: usize = 0;
    while j < registry.len()
        invariant
            j <= registry@.len(),
            forall|k: int| 0 <= k < j ==> key_has_room(url.text(), kind, (#[trigger] registry@[k]).0),
        decreases registry@.len() - j,
    {
        let key = registry.key_at(j);
        let fits = if kind.filtered() {
            url.paged_route(kind, key.as_str(), 1, PAGE_LIMIT).is_some()
        } else {
            url.has_room(key.as_str().unicode_len())
        };
        if !fits {
            assert(!key_has_room(url.text(), kind, registry@[j as int].0));
            return false;
        }
        j = j + 1;
    }
    true
}

/// When the hidden windows go, the address still has room for each key
/// that is left.
pub proof fn lemma_shown_keys_have_room<W: Window>(
    base: Seq<char>,
    kind: DataKind,
    entries: Seq<(Seq<char>, W)>,
)
    requires
        keys_have_room(base, kind, entries),
    ensures
        keys_have_room(base, kind, shown_only(entries)),
{
    let kept = shown_only(entries);
    lemma_shown_only(entries);
    assert forall|j: int| 0 <= j < kept.len() implies key_has_room(
        base,
        kind,
        (#[trigger] kept[j]).0,
    ) by {
        assert(kept.contains(kept[j]));
        let k = choose|k: int| 0 <= k < entries.len() && entries[k] == kept[j];
        assert(key_has_room(base, kind, entries[k].0));
    }
}

impl App {
    /// Every table has its six or seven places, the channels are there, no
    /// registry holds a key twice, and the address has room for the request
    /// that each window was opened with.
    pub open spec fn wf(&self) -> bool {
        &&& self.channels.wf()
        &&& self.main_show@.len() == LIST_COUNT
        &&& self.tables@.len() == LIST_COUNT
        &&& self.object_windows@.len() == LIST_COUNT
        &&& self.filtered_windows@.len() == FILTER_COUNT
        &&& forall|i: int|
            0 <= i < LIST_COUNT ==> (#[trigger] self.object_windows@[i]).wf() && keys_have_room(
                self.url.text(),
                DataKind::at_spec((i + 7) as nat),
                self.object_windows@[i]@,
            )
        &&& forall|i: int|
            0 <= i < FILTER_COUNT ==> (#[trigger] self.filtered_windows@[i]).wf()
                && keys_have_room(
                self.url.text(),
                DataKind::at_spec((i + 13) as nat),
                self.filtered_windows@[i]@,
            )
    }

    /// Whether the state is well formed.
    pub fn is_wf(&self) -> (r: bool)
        ensures
            r == self.wf(),
    {
        if !self.channels.is_wf() || self.main_show.len() != LIST_COUNT || self.tables.len()
            != LIST_COUNT || self.object_windows.len() != LIST_COUNT || self.filtered_windows.len()
            != FILTER_COUNT {
            return false;
        }
        let mut i: usize = 0;
        while i < LIST_COUNT
            invariant
                i <= LIST_COUNT,
                self.object_windows@.len() == LIST_COUNT,
                forall|j: int|
                    0 <= j < i ==> (#[trigger] self.object_windows@[j]).wf() && keys_have_room(
                        self.url.text(),
                        DataKind::at_spec((j + 7) as nat),
                        self.object_windows@[j]@,
                    ),
            decreases LIST_COUNT - i,
        {
            if !self.object_windows[i].is_wf() || !registry_has_room(
                &self.url,
                DataKind::at(i + 7),
                &self.object_windows[i],
            ) {
                return false;
            }
            i = i + 1;
        }
        let mut i: usize = 0;
        while i < FILTER_COUNT
            invariant
                i <= FILTER_COUNT,
                self.filtered_windows@.len() == FILTER_COUNT,
                forall|j: int|
                    0 <= j < LIST_COUNT ==> (#[trigger] self.object_windows@[j]).wf()
                        && keys_have_room(
                        self.url.text(),
                        DataKind::at_spec((j + 7) as nat),
                        self.object_windows@[j]@,
                    ),
                forall|j: int|
                    0 <= j < i ==> (#[trigger] self.filtered_windows@[j]).wf() && keys_have_room(
                        self.url.text(),
                        DataKind::at_spec((j + 13) as nat),
                        self.filtered_windows@[j]@,
                    ),
            decreases FILTER_COUNT - i,
        {
            if !self.filtered_windows[i].is_wf() || !registry_has_room(
                &self.url,
                DataKind::at(i + 13),
                &self.filtered_windows[i],
            ) {
                return false;
            }
            i = i + 1;
        }
        true
    }

    /// The registry of the windows of a kind of single entity.
    pub open spec fn objects(&self, kind: DataKind) -> Registry<ObjectData>
        recommends
            kind.is_object(),
    {
        self.object_windows@[kind.subject().unwrap().index_spec() as int]
    }

    /// The registry of the windows of a kind of filtered listing.
    pub open spec fn filtered(&self, kind: DataKind) -> Registry<FilteredTableData>
        recommends
            kind.is_filtered(),
    {
        self.filtered_windows@[kind.filter_slot() as int]
    }

    /// A client that has loaded nothing and shows nothing.
    pub fn new(url: UrlBuilder) -> (r: Self)
        ensures
            r.wf(),
            r.url == url,
            r.metadata is Empty,
            r.errors@.len() == 0,
            r.requests@.len() == 0,
            forall|i: int| 0 <= i < KIND_COUNT ==> (#[trigger] r.channels@[i]).len() == 0,
            forall|i: int| 0 <= i < LIST_COUNT ==> !(#[trigger] r.main_show@[i]),
            forall|i: int| 0 <= i < LIST_COUNT ==> (#[trigger] r.tables@[i]).is_none(),
            forall|i: int| 0 <= i < LIST_COUNT ==> (#[trigger] r.object_windows@[i])@.len() == 0,
            forall|i: int|
                0 <= i < FILTER_COUNT ==> (#[trigger] r.filtered_windows@[i])@.len() == 0,
    {
        let mut main_show: Vec<bool> = Vec::new();
        let mut tables: Vec<Option<TableData>> = Vec::new();
        let mut object_windows: Vec<Registry<ObjectData>> = Vec::new();
        let mut i: usize = 0;
        while i < LIST_COUNT
            invariant
                i <= LIST_COUNT,
                main_show@.len() == i,
                tables@.len() == i,
                object_windows@.len() == i,
                forall|j: int| 0 <= j < i ==> !(#[trigger] main_show@[j]),
                forall|j: int| 0 <= j < i ==> (#[trigger] tables@[j]).is_none(),
                forall|j: int|
                    0 <= j < i ==> (#[trigger] object_windows@[j])@.len() == 0
                        && object_windows@[j].wf(),
            decreases LIST_COUNT - i,
        {
            main_show.push(false);
            tables.push(None);
            object_windows.push(Registry::new());
            i = i + 1;
        }
        let mut filtered_windows: Vec<Registry<FilteredTableData>> = Vec::new();
        let mut i: usize = 0;
        while i < FILTER_COUNT
            invariant
                i <= FILTER_COUNT,
                filtered_windows@.len() == i,
                forall|j: int|
                    0 <= j < i ==> (#[trigger] filtered_windows@[j])@.len() == 0
                        && filtered_windows@[j].wf(),
            decreases FILTER_COUNT - i,
        {
            filtered_windows.push(Registry::new());
            i = i + 1;
        }
        App {
            url,
            metadata: ServerData::Empty,
            channels: Channels::new(),
            main_show,
            tables,
            object_windows,
            filtered_windows,
            errors: Vec::new(),
            requests: Vec::new(),
        }
    }

    /// Decides on a fetch of an address, for the channel of a kind.
    pub fn request(&mut self, url: &UrlBuilder, data_kind: DataKind)
        ensures
            final(self).requests@.len() == old(self).requests@.len() + 1,
            final(self).requests@.drop_last() == old(self).requests@,
            final(self).requests@.last().kind == data_kind,
            final(self).requests@.last().url@ == url.text(),
            final(self).url == old(self).url,
            final(self).metadata == old(self).metadata,
            final(self).channels == old(self).channels,
            final(self).main_show == old(self).main_show,
            final(self).tables == old(self).tables,
            final(self).object_windows == old(self).object_windows,
            final(self).filtered_windows == old(self).filtered_windows,
            final(self).errors == old(self).errors,
    {
        let text = String::from_str(url.as_str());
        self.requests.push(Request { kind: data_kind, url: text });
        assert(self.requests@.drop_last() =~= old(self).requests@);
    }

    /// Hands out the fetches that were decided on, oldest first, for the
    /// program around to make them.
    pub fn take_requests(&mut self) -> (r: Vec<Request>)
        ensures
            r@ == old(self).requests@,
            final(self).requests@.len() == 0,
            final(self).url == old(self).url,
            final(self).metadata == old(self).metadata,
            final(self).channels == old(self).channels,
            final(self).main_show == old(self).main_show,
            final(self).tables == old(self).tables,
            final(self).object_windows == old(self).object_windows,
            final(self).filtered_windows == old(self).filtered_windows,
            final(self).errors == old(self).errors,
    {
        let mut taken: Vec<Request> = Vec::new();
        core::mem::swap(&mut self.requests, &mut taken);
        taken
    }

    /// Empties the error log.
    pub fn clear_errors(&mut self)
        ensures
            final(self).errors@.len() == 0,
            final(self).url == old(self).url,
            final(self).metadata == old(self).metadata,
            final(self).channels == old(self).channels,
            final(self).main_show == old(self).main_show,
            final(self).tables == old(self).tables,
            final(self).object_windows == old(self).object_windows,
            final(self).filtered_windows == old(self).filtered_windows,
            final(self).requests == old(self).requests,
    {
        self.errors = Vec::new();
    }

    /// The address of a single entity of a kind. Other kinds have none.
    pub fn object_url(url: &UrlBuilder, data_kind: DataKind, key: &str) -> (r: Option<UrlBuilder>)
        ensures
            r.is_some() == (data_kind.is_object() && url.fits(key@.len())),
            r.is_some() ==> r.unwrap().text() == route_text(url.text(), data_kind, key@),
    {
        if data_kind.object() {
            url.try_route(data_kind, key)
        } else {
            None
        }
    }

    /// Opens the window of a key that has none: a window with the label as
    /// its title, shown, waiting for its entity. A key that has a window keeps
    /// it as it is.
    pub fn new_window(key: String, label: String, windows_map: &mut Registry<ObjectData>) -> (opened:
        bool)
        requires
            old(windows_map).wf(),
        ensures
            final(windows_map).wf(),
            opened == !old(windows_map).has(key@),
            final(windows_map).keys() == registered(old(windows_map).keys(), key@),
            !opened ==> final(windows_map)@ == old(windows_map)@,
            opened ==> final(windows_map)@ == old(windows_map)@.push(
                (key@, ObjectData { data: None, show: true, title: label, counts: None }),
            ),
    {
        let window = ObjectData { data: None, show: true, title: label, counts: None };
        windows_map.insert_if_vacant(key, window)
    }

    /// Nothing but the windows of single entities, the error log and the
    /// fetches to be made differs between the two states.
    pub open spec fn same_but_objects(&self, before: &App) -> bool {
        &&& self.url == before.url
        &&& self.metadata == before.metadata
        &&& self.channels == before.channels
        &&& self.main_show == before.main_show
        &&& self.tables == before.tables
        &&& self.filtered_windows == before.filtered_windows
    }

    /// Nothing but the windows of filtered listings, the error log and the
    /// fetches to be made differs between the two states.
    pub open spec fn same_but_filtered(&self, before: &App) -> bool {
        &&& self.url == before.url
        &&& self.metadata == before.metadata
        &&& self.channels == before.channels
        &&& self.main_show == before.main_show
        &&& self.tables == before.tables
        &&& self.object_windows == before.object_windows
    }

    /// What a selection of a single entity does to the state `before`.
    /// Nothing at all where nothing was selected or the key has a window.
    /// Otherwise a window with the label as its title is opened, shown and
    /// waiting, and the fetch of the entity is decided on; or, where the
    /// address has no room for the key, a message enters the error log and
    /// no window is opened.
    pub open spec fn selected(&self, before: &App, kind: DataKind, selection: Option<Tag>) -> bool {
        let slot = kind.subject().unwrap().index_spec() as int;
        &&& self.same_but_objects(before)
        &&& self.object_windows@.len() == before.object_windows@.len()
        &&& forall|i: int|
            0 <= i < self.object_windows@.len() && i != slot ==> #[trigger] self.object_windows@[i]
                == before.object_windows@[i]
        &&& match selection {
            None => self.objects(kind)@ == before.objects(kind)@ && self.requests@
                == before.requests@ && self.errors@ == before.errors@,
            Some(tag) => if before.objects(kind).has(tag.key@) {
                self.objects(kind)@ == before.objects(kind)@ && self.requests@ == before.requests@
                    && self.errors@ == before.errors@
            } else if before.url.fits(tag.key@.len()) {
                &&& self.objects(kind)@ == before.objects(kind)@.push(
                    (tag.key@, ObjectData { data: None, show: true, title: tag.label, counts: None }),
                )
                &&& self.requests@.len() == before.requests@.len() + 1
                &&& self.requests@.drop_last() == before.requests@
                &&& self.requests@.last().kind == kind
                &&& self.requests@.last().url@ == route_text(before.url.text(), kind, tag.key@)
                &&& self.errors@ == before.errors@
            } else {
                &&& self.objects(kind)@ == before.objects(kind)@
                &&& self.requests@ == before.requests@
                &&& self.errors@.len() == before.errors@.len() + 1
                &&& self.errors@.drop_last() == before.errors@
                &&& self.errors@.last()@ == no_room_text()
            },
        }
    }

    /// What a selection of a filtered listing does to the state `before`.
    /// Nothing at all where nothing was selected or the key has a window.
    /// Otherwise a window is opened, shown and waiting, its title telling
    /// what is listed and for whom and its page field at the first page, and
    /// the fetch of the first page is decided on; or, where the address has no room, a message enters the error
    /// log and no window is opened.
    pub open spec fn selected_filtered(
        &self,
        before: &App,
        kind: DataKind,
        selection: Option<Tag>,
    ) -> bool {
        let slot = kind.filter_slot() as int;
        &&& self.same_but_filtered(before)
        &&& self.filtered_windows@.len() == before.filtered_windows@.len()
        &&& forall|i: int|
            0 <= i < self.filtered_windows@.len() && i != slot
                ==> #[trigger] self.filtered_windows@[i] == before.filtered_windows@[i]
        &&& match selection {
            None => self.filtered(kind)@ == before.filtered(kind)@ && self.requests@
                == before.requests@ && self.errors@ == before.errors@,
            Some(tag) => if before.filtered(kind).has(tag.key@) {
                self.filtered(kind)@ == before.filtered(kind)@ && self.requests@
                    == before.requests@ && self.errors@ == before.errors@
            } else if first_page_fits(before.url.text(), kind, tag.key@) {
                &&& self.filtered(kind)@.len() == before.filtered(kind)@.len() + 1
                &&& self.filtered(kind)@.drop_last() == before.filtered(kind)@
                &&& self.filtered(kind)@.last().0 == tag.key@
                &&& self.filtered(kind)@.last().1.data.is_none()
                &&& self.filtered(kind)@.last().1.show
                &&& self.filtered(kind)@.last().1.title@ == filtered_title(kind, tag.label@)
                &&& self.filtered(kind)@.last().1.page_text@ == seq!['1']
                &&& self.requests@.len() == before.requests@.len() + 1
                &&& self.requests@.drop_last() == before.requests@
                &&& self.requests@.last().kind == kind
                &&& self.requests@.last().url@ == paged_text(
                    route_text(before.url.text(), kind, tag.key@),
                    1,
                    PAGE_LIMIT,
                )
                &&& self.errors@ == before.errors@
            } else {
                &&& self.filtered(kind)@ == before.filtered(kind)@
                &&& self.requests@ == before.requests@
                &&& self.errors@.len() == before.errors@.len() + 1
                &&& self.errors@.drop_last() == before.errors@
                &&& self.errors@.last()@ == no_room_text()
            },
        }
    }

    /// Opens the window of a selected entity, unless it is open, and
    /// decides on the fetch of the entity. A key that has a window causes
    /// no second fetch.
    pub fn handle_selection(&mut self, data_kind: DataKind, selection: Option<Tag>)
        requires
            old(self).wf(),
            data_kind.is_object(),
        ensures
            final(self).wf(),
            final(self).selected(old(self), data_kind, selection),
    {
        let tag = match selection {
            Some(tag) => tag,
            None => {
                return ;
            },
        };
        let slot = match data_kind.entity_list() {
            Some(list) => list.index(),
            None => {
                return ;
            },
        };
        if self.object_windows[slot].contains_key(tag.key.as_str()) {
            return ;
        }
        match App::object_url(&self.url, data_kind, tag.key.as_str()) {
            None => {
                self.errors.push(no_room_message());
                assert(self.errors@.drop_last() =~= old(self).errors@);
            },
            Some(url) => {
                let windows_map = &mut self.object_windows[slot];
                App::new_window(tag.key, tag.label, windows_map);
                self.request(&url, data_kind);
            },
        }
    }

    /// Opens the window of a selected filtered listing, unless it is open,
    /// and decides on the fetch of its first page. A key that has a window
    /// causes no second fetch.
    pub fn handle_filtered_selection(&mut self, data_kind: DataKind, selection: Option<Tag>)
        requires
            old(self).wf(),
            data_kind.is_filtered(),
        ensures
            final(self).wf(),
            final(self).selected_filtered(old(self), data_kind, selection),
    {
        let tag = match selection {
            Some(tag) => tag,
            None => {
                return ;
            },
        };
        let slot = data_kind.filter_index();
        if self.filtered_windows[slot].contains_key(tag.key.as_str()) {
            return ;
        }
        match self.url.paged_route(data_kind, tag.key.as_str(), 1, PAGE_LIMIT) {
            None => {
                self.errors.push(no_room_message());
                assert(self.errors@.drop_last() =~= old(self).errors@);
            },
            Some(url) => {
                let title = String::from_str(listing_word(data_kind)).concat(" from ").concat(
                    tag.label.as_str(),
                );
                proof {
                    reveal_strlit("1");
                }
                let page_text = String::from_str("1");
                assert(page_text@ =~= seq!['1']);
                let window = FilteredTableData { data: None, show: true, title, page_text };
                let windows_map = &mut self.filtered_windows[slot];
                windows_map.insert_if_vacant(tag.key, window);
                self.request(&url, data_kind);
                assert(self.filtered(data_kind)@.drop_last() =~= old(self).filtered(data_kind)@);
            },
        }
    }

    /// What an outcome that arrived on the channel of `kind` does to the
    /// state `before`: the table or the registry of the kind changes by the
    /// rule of the kind, the error log takes what the outcome adds to it, and
    /// nothing else changes.
    pub open spec fn delivered(
        &self,
        before: &App,
        kind: DataKind,
        outcome: Result<DataResponse, String>,
    ) -> bool {
        let list_slot = kind.subject().unwrap().index_spec() as int;
        let filter_slot = kind.filter_slot() as int;
        &&& self.url == before.url
        &&& self.metadata == before.metadata
        &&& self.channels == before.channels
        &&& self.main_show == before.main_show
        &&& self.requests == before.requests
        &&& self.tables@.len() == before.tables@.len()
        &&& forall|i: int|
            0 <= i < self.tables@.len() ==> #[trigger] self.tables@[i] == if kind.is_main_list()
                && i == list_slot {
                table_after(before.tables@[i], kind, outcome)
            } else {
                before.tables@[i]
            }
        &&& self.object_windows@.len() == before.object_windows@.len()
        &&& forall|i: int|
            0 <= i < self.object_windows@.len() ==> (#[trigger] self.object_windows@[i])@
                == if kind.is_object() && i == list_slot {
                objects_after(before.object_windows@[i]@, kind, outcome)
            } else {
                before.object_windows@[i]@
            }
        &&& self.filtered_windows@.len() == before.filtered_windows@.len()
        &&& forall|i: int|
            0 <= i < self.filtered_windows@.len() ==> (#[trigger] self.filtered_windows@[i])@
                == if kind.is_filtered() && i == filter_slot {
                filtered_after(before.filtered_windows@[i]@, kind, outcome)
            } else {
                before.filtered_windows@[i]@
            }
        &&& texts(self.errors@) == errors_after(texts(before.errors@), kind, outcome)
    }

    /// Puts an outcome that arrived on the channel of `kind` where it
    /// belongs. The message of a failed fetch goes to the error log. A page
    /// of a top-level listing replaces the table. An entity goes to the window
    /// under its key, a page of a filtered listing to the window under the key
    /// of its owner, which the first entity of the page tells; the page field
    /// of that window stays as it is. Where the window is closed already, the
    /// answer is dropped. An answer that does not hold what its kind asks for,
    /// and a page that does not tell its owner, change nothing and leave a
    /// message in the error log.
    pub fn deliver(&mut self, kind: DataKind, outcome: Result<DataResponse, String>)
        requires
            old(self).wf(),
            !(kind is Metadata),
        ensures
            final(self).wf(),
            final(self).delivered(old(self), kind, outcome),
    {
        let response = match outcome {
            Err(message) => {
                self.errors.push(message);
                assert(texts(self.errors@) =~= texts(old(self).errors@).push(message@));
                return ;
            },
            Ok(response) => response,
        };
        if kind.main_list() {
            let slot = match kind.entity_list() {
                Some(list) => list.index(),
                None => {
                    return ;
                },
            };
            match response.into_table(kind) {
                Some(table) => {
                    self.tables.set(slot, Some(table));
                },
                None => {
                    self.errors.push(unread_message());
                    assert(texts(self.errors@) =~= texts(old(self).errors@).push(unread_text()));
                },
            }
        } else if kind.object() {
            let slot = match kind.entity_list() {
                Some(list) => list.index(),
                None => {
                    return ;
                },
            };
            match response.into_object(kind) {
                None => {
                    self.errors.push(unread_message());
                    assert(texts(self.errors@) =~= texts(old(self).errors@).push(unread_text()));
                },
                Some((entity, counts)) => {
                    let key = entity.key();
                    let registry = &mut self.object_windows[slot];
                    match registry.position(key.as_str()) {
                        None => {},
                        Some(place) => {
                            let window = registry.window_mut(place);
                            window.data = Some(entity);
                            window.counts = counts;
                        },
                    }
                },
            }
        } else {
            let slot = kind.filter_index();
            let owner = match &response.body {
                crate::response::Body::List(page) => {
                    if page.len() > 0 {
                        page[0].owner_key_text(kind)
                    } else {
                        None
                    }
                },
                _ => None,
            };
            match response.into_table(kind) {
                None => {
                    self.errors.push(unread_message());
                    assert(texts(self.errors@) =~= texts(old(self).errors@).push(unread_text()));
                },
                Some(table) => match owner {
                    Some(key) => {
                        let registry = &mut self.filtered_windows[slot];
                        match registry.position(key.as_str()) {
                            None => {},
                            Some(place) => {
                                let window = registry.window_mut(place);
                                window.data = Some(
                                    Page { data: table.data, pagination: table.pagination },
                                );
                            },
                        }
                    },
                    None => {
                        self.errors.push(routing_message(kind));
                        assert(texts(self.errors@) =~= texts(old(self).errors@).push(
                            routing_text(kind),
                        ));
                    },
                },
            }
        }
    }

    /// What one pass over the channels before the place `upto` does to the
    /// state `before`. From each such channel but that of the metadata the
    /// oldest outcome is taken, if one waits, and put where it belongs: each
    /// table and each registry changes by the outcome of its own kind alone,
    /// and the error log takes what the outcomes add, in the order of the
    /// channels.
    pub open spec fn received_upto(&self, before: &App, upto: nat) -> bool {
        &&& self.url == before.url
        &&& self.metadata == before.metadata
        &&& self.main_show == before.main_show
        &&& self.requests == before.requests
        &&& self.channels@.len() == before.channels@.len()
        &&& forall|i: int|
            0 <= i < self.channels@.len() ==> #[trigger] self.channels@[i] == if 1 <= i < upto
                && before.channels@[i].len() > 0 {
                before.channels@[i].drop_first()
            } else {
                before.channels@[i]
            }
        &&& self.tables@.len() == before.tables@.len()
        &&& forall|i: int|
            0 <= i < self.tables@.len() ==> #[trigger] self.tables@[i] == match first_of(
                before.channels@[i + 1],
            ) {
                Some(outcome) => if i + 1 < upto {
                    table_after(before.tables@[i], DataKind::at_spec((i + 1) as nat), outcome)
                } else {
                    before.tables@[i]
                },
                None => before.tables@[i],
            }
        &&& self.object_windows@.len() == before.object_windows@.len()
        &&& forall|i: int|
            0 <= i < self.object_windows@.len() ==> (#[trigger] self.object_windows@[i])@
                == match first_of(before.channels@[i + 7]) {
                Some(outcome) => if i + 7 < upto {
                    objects_after(
                        before.object_windows@[i]@,
                        DataKind::at_spec((i + 7) as nat),
                        outcome,
                    )
                } else {
                    before.object_windows@[i]@
                },
                None => before.object_windows@[i]@,
            }
        &&& self.filtered_windows@.len() == before.filtered_windows@.len()
        &&& forall|i: int|
            0 <= i < self.filtered_windows@.len() ==> (#[trigger] self.filtered_windows@[i])@
                == match first_of(before.channels@[i + 13]) {
                Some(outcome) => if i + 13 < upto {
                    filtered_after(
                        before.filtered_windows@[i]@,
                        DataKind::at_spec((i + 13) as nat),
                        outcome,
                    )
                } else {
                    before.filtered_windows@[i]@
                },
                None => before.filtered_windows@[i]@,
            }
        &&& texts(self.errors@) == errors_upto(texts(before.errors@), before.channels@, upto)
    }

    /// What one pass over all channels does to the state `before`.
    pub open spec fn received(&self, before: &App) -> bool {
        self.received_upto(before, KIND_COUNT as nat)
    }

    /// One pass of the correlator: from the channel of each kind but the
    /// metadata, in the order of the kinds, the oldest outcome is taken if one
    /// waits, and put where it belongs. Nothing is waited for, and what is
    /// behind the oldest outcome of a channel stays for the next pass.
    pub fn recv_response(&mut self)
        requires
            old(self).wf(),
        ensures
            final(self).wf(),
            final(self).received(old(self)),
    {
        let mut index: usize = 1;
        while index < KIND_COUNT
            invariant
                1 <= index <= KIND_COUNT,
                self.wf(),
                old(self).wf(),
                self.received_upto(old(self), index as nat),
            decreases KIND_COUNT - index,
        {
            let kind = DataKind::at(index);
            match self.channels.try_recv(kind) {
                Some(outcome) => {
                    self.deliver(kind, outcome);
                },
                None => {},
            }
            index = index + 1;
        }
    }

    /// What the garbage collection of one tick does to the state `before`:
    /// every window that is not shown leaves its registry, the others stay in
    /// their order, and nothing else changes.
    pub open spec fn collected(&self, before: &App) -> bool {
        &&& self.url == before.url
        &&& self.metadata == before.metadata
        &&& self.channels == before.channels
        &&& self.main_show == before.main_show
        &&& self.tables == before.tables
        &&& self.errors == before.errors
        &&& self.requests == before.requests
        &&& self.object_windows@.len() == before.object_windows@.len()
        &&& forall|i: int|
            0 <= i < self.object_windows@.len() ==> (#[trigger] self.object_windows@[i])@
                == shown_only(before.object_windows@[i]@)
        &&& self.filtered_windows@.len() == before.filtered_windows@.len()
        &&& forall|i: int|
            0 <= i < self.filtered_windows@.len() ==> (#[trigger] self.filtered_windows@[i])@
                == shown_only(before.filtered_windows@[i]@)
    }

    /// Removes from every registry the windows that are not shown. It is
    /// run once in each tick, after the windows were drawn, so that a window
    /// goes whether it was closed by its own button or by the window manager.
    pub fn collect_garbage(&mut self)
        requires
            old(self).wf(),
        ensures
            final(self).wf(),
            final(self).collected(old(self)),
    {
        let mut i: usize = 0;
        while i < LIST_COUNT
            invariant
                i <= LIST_COUNT,
                self.url == old(self).url,
                self.metadata == old(self).metadata,
                self.channels == old(self).channels,
                self.main_show == old(self).main_show,
                self.tables == old(self).tables,
                self.errors == old(self).errors,
                self.requests == old(self).requests,
                self.filtered_windows == old(self).filtered_windows,
                self.object_windows@.len() == LIST_COUNT,
                old(self).wf(),
                forall|j: int|
                    0 <= j < LIST_COUNT ==> (#[trigger] self.object_windows@[j]).wf()
                        && keys_have_room(
                        self.url.text(),
                        DataKind::at_spec((j + 7) as nat),
                        self.object_windows@[j]@,
                    ),
                forall|j: int|
                    0 <= j < i ==> (#[trigger] self.object_windows@[j])@ == shown_only(
                        old(self).object_windows@[j]@,
                    ),
                forall|j: int|
                    i <= j < LIST_COUNT ==> #[trigger] self.object_windows@[j] == old(
                        self,
                    ).object_windows@[j],
            decreases LIST_COUNT - i,
        {
            proof {
                lemma_shown_keys_have_room(
                    self.url.text(),
                    DataKind::at_spec((i + 7) as nat),
                    self.object_windows@[i as int]@,
                );
            }
            let registry = &mut self.object_windows[i];
            registry.retain_visible();
            i = i + 1;
        }
        let mut i: usize = 0;
        while i < FILTER_COUNT
            invariant
                i <= FILTER_COUNT,
                self.url == old(self).url,
                self.metadata == old(self).metadata,
                self.channels == old(self).channels,
                self.main_show == old(self).main_show,
                self.tables == old(self).tables,
                self.errors == old(self).errors,
                self.requests == old(self).requests,
                self.object_windows@.len() == LIST_COUNT,
                forall|j: int|
                    0 <= j < LIST_COUNT ==> (#[trigger] self.object_windows@[j]).wf()
                        && keys_have_room(
                        self.url.text(),
                        DataKind::at_spec((j + 7) as nat),
                        self.object_windows@[j]@,
                    ),
                forall|j: int|
                    0 <= j < LIST_COUNT ==> (#[trigger] self.object_windows@[j])@ == shown_only(
                        old(self).object_windows@[j]@,
                    ),
                self.filtered_windows@.len() == FILTER_COUNT,
                old(self).wf(),
                forall|j: int|
                    0 <= j < FILTER_COUNT ==> (#[trigger] self.filtered_windows@[j]).wf()
                        && keys_have_room(
                        self.url.text(),
                        DataKind::at_spec((j + 13) as nat),
                        self.filtered_windows@[j]@,
                    ),
                forall|j: int|
                    0 <= j < i ==> (#[trigger] self.filtered_windows@[j])@ == shown_only(
                        old(self).filtered_windows@[j]@,
                    ),
                forall|j: int|
                    i <= j < FILTER_COUNT ==> #[trigger] self.filtered_windows@[j] == old(
                        self,
                    ).filtered_windows@[j],
            decreases FILTER_COUNT - i,
        {
            proof {
                lemma_shown_keys_have_room(
                    self.url.text(),
                    DataKind::at_spec((i + 13) as nat),
                    self.filtered_windows@[i as int]@,
                );
            }
            let registry = &mut self.filtered_windows[i];
            registry.retain_visible();
            i = i + 1;
        }
    }

    /// What dropping the hidden tables does to the state `before`: the table
    /// of each top-level listing that is not shown is dropped, and nothing
    /// else changes.
    pub open spec fn tables_dropped(&self, before: &App) -> bool {
        &&& self.url == before.url
        &&& self.metadata == before.metadata
        &&& self.channels == before.channels
        &&& self.main_show == before.main_show
        &&& self.object_windows == before.object_windows
        &&& self.filtered_windows == before.filtered_windows
        &&& self.errors == before.errors
        &&& self.requests == before.requests
        &&& self.tables@.len() == before.tables@.len()
        &&& forall|i: int|
            0 <= i < self.tables@.len() ==> #[trigger] self.tables@[i] == if before.main_show@[i] {
                before.tables@[i]
            } else {
                None
            }
    }

    /// Drops the table of each top-level listing that is not shown, so that
    /// a listing that is shown again starts with a fresh page.
    pub fn drop_hidden_tables(&mut self)
        requires
            old(self).wf(),
        ensures
            final(self).wf(),
            final(self).tables_dropped(old(self)),
    {
        let mut i: usize = 0;
        while i < LIST_COUNT
            invariant
                i <= LIST_COUNT,
                self.wf(),
                old(self).wf(),
                self.url == old(self).url,
                self.metadata == old(self).metadata,
                self.channels == old(self).channels,
                self.main_show == old(self).main_show,
                self.object_windows == old(self).object_windows,
                self.filtered_windows == old(self).filtered_windows,
                self.errors == old(self).errors,
                self.requests == old(self).requests,
                forall|j: int|
                    0 <= j < i ==> #[trigger] self.tables@[j] == if old(self).main_show@[j] {
                        old(self).tables@[j]
                    } else {
                        None
                    },
                forall|j: int| i <= j < LIST_COUNT ==> #[trigger] self.tables@[j] == old(self).tables@[j],
            decreases LIST_COUNT - i,
        {
            if !self.main_show[i] {
                self.tables.set(i, None);
            }
            i = i + 1;
        }
    }

    /// What one tick of the mandatory load does to the state `before` at the
    /// time `now`, with a retry delay of `delay`. With nothing loaded the
    /// fetch of the metadata is decided on and the load is under way. While
    /// it is under way the channel of the metadata is asked once: an answer
    /// that holds the metadata ends the load for good, any other outcome fails
    /// it at `now`. After a failure the load starts over once the delay has
    /// passed, and not before; until then the message is moved to the error
    /// log the first time that it is seen. Once the metadata is there, nothing
    /// happens any more.
    pub open spec fn booted_after(&self, before: &App, now: u64, delay: u64) -> bool {
        &&& self.url == before.url
        &&& self.main_show == before.main_show
        &&& self.tables == before.tables
        &&& self.object_windows == before.object_windows
        &&& self.filtered_windows == before.filtered_windows
        &&& match before.metadata {
            ServerData::Ready(_) => {
                &&& self.metadata == before.metadata
                &&& self.channels == before.channels
                &&& self.errors == before.errors
                &&& self.requests == before.requests
            },
            ServerData::Empty => {
                &&& self.channels == before.channels
                &&& self.errors == before.errors
                &&& if before.url.fits(0) {
                    &&& self.metadata is Loading
                    &&& self.requests@.len() == before.requests@.len() + 1
                    &&& self.requests@.drop_last() == before.requests@
                    &&& self.requests@.last().kind == DataKind::Metadata
                    &&& self.requests@.last().url@ == text_with_path(
                        before.url.text(),
                        list_path(DataKind::Metadata),
                    )
                } else {
                    &&& self.metadata is Failed
                    &&& self.metadata->Failed_0@ == no_room_text()
                    &&& self.metadata->Failed_1 == now
                    &&& self.requests == before.requests
                }
            },
            ServerData::Loading => {
                &&& self.errors == before.errors
                &&& self.requests == before.requests
                &&& match first_of(before.channels.waiting(DataKind::Metadata)) {
                    None => self.metadata is Loading && self.channels@ == before.channels@,
                    Some(outcome) => {
                        &&& self.channels@ == before.channels@.update(
                            0,
                            before.channels@[0].drop_first(),
                        )
                        &&& match outcome {
                            Ok(response) => if response.body is Metadata {
                                self.metadata == ServerData::Ready(response.body->Metadata_0)
                            } else {
                                &&& self.metadata is Failed
                                &&& self.metadata->Failed_0@ == unreadable_text()
                                &&& self.metadata->Failed_1 == now
                            },
                            Err(message) => self.metadata == ServerData::<Metadata>::Failed(
                                message,
                                now,
                            ),
                        }
                    },
                }
            },
            ServerData::Failed(message, failed_at) => {
                &&& self.channels == before.channels
                &&& self.requests == before.requests
                &&& if retry_due(failed_at, now, delay) {
                    self.metadata is Empty && self.errors == before.errors
                } else if message@.len() > 0 {
                    &&& self.metadata is Failed
                    &&& self.metadata->Failed_0@.len() == 0
                    &&& self.metadata->Failed_1 == failed_at
                    &&& self.errors@ == before.errors@.push(message)
                } else {
                    self.metadata == before.metadata && self.errors == before.errors
                }
            },
        }
    }

    /// What one tick of the mandatory load does to the state `before` at the
    /// time `now`, with the retry delay of ten time units.
    pub open spec fn booted(&self, before: &App, now: u64) -> bool {
        self.booted_after(before, now, RETRY_DELAY)
    }

    /// One tick of the mandatory load of the metadata, at the time `now`.
    pub fn bootstrap(&mut self, now: u64)
        requires
            old(self).wf(),
        ensures
            final(self).wf(),
            final(self).booted(old(self), now),
    {
        self.bootstrap_with(now, RETRY_DELAY)
    }

    /// One tick of the mandatory load of the metadata, at the time `now`,
    /// with a retry delay of the caller's choice.
    pub fn bootstrap_with(&mut self, now: u64, delay: u64)
        requires
            old(self).wf(),
        ensures
            final(self).wf(),
            final(self).booted_after(old(self), now, delay),
    {
        let mut state = ServerData::Empty;
        core::mem::swap(&mut self.metadata, &mut state);
        match state {
            ServerData::Ready(metadata) => {
                self.metadata = ServerData::Ready(metadata);
            },
            ServerData::Empty => {
                proof {
                    reveal_strlit("");
                }
                match self.url.try_route(DataKind::Metadata, "") {
                    Some(url) => {
                        self.request(&url, DataKind::Metadata);
                        self.metadata = ServerData::Loading;
                    },
                    None => {
                        self.metadata = ServerData::Failed(no_room_message(), now);
                    },
                }
            },
            ServerData::Loading => {
                match self.channels.try_recv(DataKind::Metadata) {
                    None => {
                        self.metadata = ServerData::Loading;
                    },
                    Some(Err(message)) => {
                        self.metadata = ServerData::Failed(message, now);
                    },
                    Some(Ok(response)) => {
                        match response.into_metadata() {
                            Some(metadata) => {
                                self.metadata = ServerData::Ready(metadata);
                            },
                            None => {
                                self.metadata = ServerData::Failed(unreadable_message(), now);
                            },
                        }
                    },
                }
            },
            ServerData::Failed(message, failed_at) => {
                if now >= failed_at && now - failed_at >= delay {
                    self.metadata = ServerData::Empty;
                } else if message.as_str().unicode_len() > 0 {
                    self.errors.push(message);
                    self.metadata = ServerData::Failed(String::new(), failed_at);
                } else {
                    self.metadata = ServerData::Failed(message, failed_at);
                }
            },
        }
    }

    /// The first part of a tick, at the time `now`. The mandatory load comes
    /// before all else: while the metadata is not there, nothing but one tick
    /// of its load happens, and the result says so. Once it is there, the
    /// tables of the hidden top-level listings are dropped and one pass of the
    /// correlator is made; the windows may then be drawn.
    pub fn begin_tick(&mut self, now: u64) -> (ready: bool)
        requires
            old(self).wf(),
        ensures
            final(self).wf(),
            ready == (old(self).metadata is Ready),
            !ready ==> final(self).booted(old(self), now),
            ready ==> exists|mid: App| #[trigger]
                mid.tables_dropped(old(self)) && final(self).received(&mid),
    {
        self.begin_tick_with(now, RETRY_DELAY)
    }

    /// The first part of a tick, with a retry delay of the caller's choice,
    /// in the unit in which the caller tells the time.
    pub fn begin_tick_with(&mut self, now: u64, delay: u64) -> (ready: bool)
        requires
            old(self).wf(),
        ensures
            final(self).wf(),
            ready == (old(self).metadata is Ready),
            !ready ==> final(self).booted_after(old(self), now, delay),
            ready ==> exists|mid: App| #[trigger]
                mid.tables_dropped(old(self)) && final(self).received(&mid),
    {
        if !self.metadata.is_ok() {
            self.bootstrap_with(now, delay);
            false
        } else {
            self.drop_hidden_tables();
            let ghost mid = *self;
            self.recv_response();
            assert(mid.tables_dropped(old(self)) && self.received(&mid));
            true
        }
    }

    /// What asking for a page of a listing does to the state `before`: the
    /// fetch of that page is decided on, or, where the address has no room, a
    /// message enters the error log. Nothing else changes.
    pub open spec fn page_requested(
        &self,
        before: &App,
        kind: DataKind,
        key: Seq<char>,
        page: usize,
    ) -> bool {
        &&& self.url == before.url
        &&& self.metadata == before.metadata
        &&& self.channels == before.channels
        &&& self.main_show == before.main_show
        &&& self.tables == before.tables
        &&& self.object_windows == before.object_windows
        &&& self.filtered_windows == before.filtered_windows
        &&& if text_fits(before.url.text(), key.len()) && page_fits(
            route_text(before.url.text(), kind, key),
            page,
            PAGE_LIMIT,
        ) {
            &&& self.errors == before.errors
            &&& self.requests@.len() == before.requests@.len() + 1
            &&& self.requests@.drop_last() == before.requests@
            &&& self.requests@.last().kind == kind
            &&& self.requests@.last().url@ == paged_text(
                route_text(before.url.text(), kind, key),
                page,
                PAGE_LIMIT,
            )
        } else {
            &&& self.requests == before.requests
            &&& self.errors@.len() == before.errors@.len() + 1
            &&& self.errors@.drop_last() == before.errors@
            &&& self.errors@.last()@ == no_room_text()
        }
    }

    /// Asks for a page of the listing of a window anew: of a top-level
    /// listing, whose address has no key, or of the filtered listing of
    /// the key.
    pub fn request_page(&mut self, kind: DataKind, key: &str, page: usize)
        requires
            old(self).wf(),
            kind.is_paged(),
        ensures
            final(self).wf(),
            final(self).page_requested(old(self), kind, key@, page),
    {
        match self.url.paged_route(kind, key, page, PAGE_LIMIT) {
            Some(url) => {
                self.request(&url, kind);
            },
            None => {
                self.errors.push(no_room_message());
                assert(self.errors@.drop_last() =~= old(self).errors@);
            },
        }
    }

    /// What showing or hiding a top-level listing does to the state
    /// `before`: the flag of the listing is set, and where a hidden listing
    /// comes to be shown, its first page is asked for.
    pub open spec fn main_list_shown(&self, before: &App, list: MainList, show: bool) -> bool {
        let flagged = App {
            url: before.url,
            metadata: before.metadata,
            channels: before.channels,
            main_show: self.main_show,
            tables: before.tables,
            object_windows: before.object_windows,
            filtered_windows: before.filtered_windows,
            errors: before.errors,
            requests: before.requests,
        };
        &&& self.main_show@ == before.main_show@.update(list.index_spec() as int, show)
        &&& if show && !before.main_show@[list.index_spec() as int] {
            self.page_requested(&flagged, list.kind_spec(), Seq::<char>::empty(), 1)
        } else {
            *self == flagged
        }
    }

    /// Shows or hides a top-level listing.
    pub fn show_main_list(&mut self, list: MainList, show: bool)
        requires
            old(self).wf(),
        ensures
            final(self).wf(),
            final(self).main_list_shown(old(self), list, show),
    {
        let slot = list.index();
        let was = self.main_show[slot];
        self.main_show.set(slot, show);
        if show && !was {
            proof {
                reveal_strlit("");
            }
            self.request_page(list.kind(), "", 1);
        }
    }

    /// What a change of the page field of a listing does to the state
    /// `before`: the text goes to the page field of the window of the key, or
    /// of the table of a top-level listing that has arrived, and nothing else
    /// changes.
    pub open spec fn page_text_set(
        &self,
        before: &App,
        kind: DataKind,
        key: Seq<char>,
        text: String,
    ) -> bool {
        let list_slot = kind.subject().unwrap().index_spec() as int;
        let filter_slot = kind.filter_slot() as int;
        &&& self.url == before.url
        &&& self.metadata == before.metadata
        &&& self.channels == before.channels
        &&& self.main_show == before.main_show
        &&& self.object_windows == before.object_windows
        &&& self.errors == before.errors
        &&& self.requests == before.requests
        &&& self.tables@.len() == before.tables@.len()
        &&& forall|i: int|
            0 <= i < self.tables@.len() ==> #[trigger] self.tables@[i] == if kind.is_main_list()
                && i == list_slot {
                table_with_text(before.tables@[i], text)
            } else {
                before.tables@[i]
            }
        &&& self.filtered_windows@.len() == before.filtered_windows@.len()
        &&& forall|i: int|
            0 <= i < self.filtered_windows@.len() ==> (#[trigger] self.filtered_windows@[i])@
                == if kind.is_filtered() && i == filter_slot && before.filtered_windows@[i].has(
                key,
            ) {
                let place = before.filtered_windows@[i].place(key);
                let entry = before.filtered_windows@[i]@[place];
                before.filtered_windows@[i]@.update(
                    place,
                    (
                        entry.0,
                        FilteredTableData {
                            data: entry.1.data,
                            show: entry.1.show,
                            title: entry.1.title,
                            page_text: text,
                        },
                    ),
                )
            } else {
                before.filtered_windows@[i]@
            }
    }

    /// Takes the text of the page field of a listing over from its page
    /// control. For the window of a filtered listing this is the only way in
    /// which the text changes: what arrives from the service fills the window
    /// and leaves its page field alone.
    pub fn set_page_text(&mut self, kind: DataKind, key: &str, text: String)
        requires
            old(self).wf(),
            kind.is_paged(),
        ensures
            final(self).wf(),
            final(self).page_text_set(old(self), kind, key@, text),
    {
        if kind.main_list() {
            let slot = match kind.entity_list() {
                Some(list) => list.index(),
                None => {
                    return ;
                },
            };
            let table = &mut self.tables[slot];
            match table {
                Some(page) => {
                    page.page_text = text;
                },
                None => {},
            }
        } else {
            let slot = kind.filter_index();
            let registry = &mut self.filtered_windows[slot];
            match registry.position(key) {
                None => {},
                Some(place) => {
                    let window = registry.window_mut(place);
                    window.page_text = text;
                },
            }
        }
    }
}

/// A table with another text in its page field; no table stays no table.
pub open spec fn table_with_text(table: Option<TableData>, text: String) -> Option<TableData> {
    match table {
        Some(page) => Some(
            TableData { data: page.data, pagination: page.pagination, page_text: text },
        ),
        None => None,
    }
}

} // verus!
