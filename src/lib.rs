//! Typed model of MapLibre GL JS's coordinate and map-option objects, and
//! the repository's developer tasks.
//!
//! - `lng_lat` and `lng_lat_like`: the canonical coordinate, and the four
//!   shapes that the engine accepts for one, with their normalization.
//! - `host`: values of the JavaScript host as plain data, which is what
//!   crosses the boundary with the engine.
//! - `map_options`: the map's configuration record and the payload that it
//!   is sent as; `map`: the map that the engine constructs from it.
//! - `decimal`: the decimal text of fixed-point quantities.
//! - `tasks` and `book`: the task runner's plans, and the pages of the
//!   book's examples.
//!
//! Angles and zoom levels are fixed-point integers in ten-millionths
//! (`UNITS_PER_DEGREE` units per degree or per zoom level), so that every
//! conversion below is exact.

pub mod book;
pub mod decimal;
pub mod error;
pub mod host;
pub mod lng_lat;
pub mod lng_lat_like;
pub mod map;
pub mod map_options;
pub mod tasks;

pub use error::Error;
pub use host::{HostValue, Primitive};
pub use map::MaplibreMap;
pub use map_options::{MapContainer, MapOptions, MapStyleOption, MapZoom};
pub use lng_lat_like::{normalize, LngLatLike};
pub use lng_lat::{LngLat, FULL_TURN, HALF_TURN, UNITS_PER_DEGREE};
