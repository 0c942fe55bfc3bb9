//! The state of the windows and of the one mandatory load.

use vstd::prelude::*;
use vstd::string::*;
use crate::entity::Entity;
use crate::registry::Window;
use crate::types::{Counts, Pagination};

verus! {

/// The window of a single entity. The entity and its counts arrive together,
/// some time after the window was opened.
#[derive(Debug)]
pub struct ObjectData {
    pub data: Option<Entity>,
    pub show: bool,
    pub title: String,
    pub counts: Option<Counts>,
}

impl Default for ObjectData {
    /// A window that is shown and waits for its entity.
    fn default() -> (r: Self)
        ensures
            r.data.is_none(),
            r.show,
            r.title@ == Seq::<char>::empty(),
            r.counts.is_none(),
    {
        ObjectData { data: None, show: true, title: String::new(), counts: None }
    }
}

impl Window for ObjectData {
    open spec fn visible(&self) -> bool {
        self.show
    }

    fn is_visible(&self) -> (r: bool) {
        self.show
    }
}

/// A page of a top-level listing, with the text of its page field. The
/// whole of it is replaced when a page arrives.
#[derive(Debug)]
pub struct TableData {
    pub data: Vec<Entity>,
    pub pagination: Pagination,
    pub page_text: String,
}

/// The rows of a page of a listing and how the listing is paged.
#[derive(Debug)]
pub struct Page {
    pub data: Vec<Entity>,
    pub pagination: Pagination,
}

/// The window of a filtered listing. Its page arrives some time after the
/// window was opened. The text of its page field is the window's own: the
/// page control of the window writes it, and nothing that arrives does.
#[derive(Debug)]
pub struct FilteredTableData {
    pub data: Option<Page>,
    pub show: bool,
    pub title: String,
    pub page_text: String,
}

impl Window for FilteredTableData {
    open spec fn visible(&self) -> bool {
        self.show
    }

    fn is_visible(&self) -> (r: bool) {
        self.show
    }
}

/// What the client has of something that it must load before anything else:
/// nothing yet, a request under way, the value, or a failure with its message
/// and the time at which it was seen.
#[derive(Debug)]
pub enum ServerData<T> {
    Ready(T),
    Loading,
    Failed(String, u64),
    Empty,
}

impl<T> ServerData<T> {
    /// The value, once it is there.
    pub fn unwrap_ref(&self) -> (r: &T)
        requires
            self is Ready,
        ensures
            *self == ServerData::Ready(*r),
    {
        match self {
            ServerData::Ready(data) => data,
            _ => vstd::pervasive::unreached(),
        }
    }

    /// Whether the value is there.
    pub fn is_ok(&self) -> (r: bool)
        ensures
            r == (self is Ready),
    {
        match self {
            ServerData::Ready(_) => true,
            _ => false,
        }
    }
}

} // verus!
