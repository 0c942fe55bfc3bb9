//! Fetch orchestration and window lifecycle for a browser of world reference
//! data: countries, states, cities, regions, subregions and currencies.
//!
//! The crate holds the decisions of the client and of the listing service:
//! which request a selection causes, where a completed fetch belongs, when a
//! window leaves its registry, and how a listing is cut into pages. Network
//! traffic and drawing are left to the program around it.

pub mod app;
pub mod channels;
pub mod correlate;
pub mod entity;
pub mod headers;
pub mod laws;
pub mod pager;
pub mod paging;
pub mod registry;
pub mod response;
pub mod text;
pub mod types;
pub mod urls;
pub mod windows;
