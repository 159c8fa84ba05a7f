//! The core of a tool that sets satellite imagery as the desktop background.
//!
//! Two things are decided here, and every function that decides them is
//! verified by Verus. The first is the cache of the remote catalog: when the
//! held snapshot is served, when a fetch is due, what a fetch makes of the
//! response that it got, and how the next snapshot takes the place of the
//! last (`cache`, `fetch`, `schema`, `json`, `catalog`). The second is the
//! setting of the image: which display an identifier names, and which options
//! the display service is handed (`display`, `wallpaper`).
//!
//! The network and the display service are not here. The program around this
//! library asks them, and hands in what they answered as plain values.

pub mod cache;
pub mod catalog;
pub mod display;
pub mod fetch;
pub mod json;
pub mod schema;
pub mod wallpaper;

pub use cache::{CacheStep, CatalogCache, PendingRefresh, FRESHNESS_WINDOW};
pub use catalog::{CachedCatalog, Catalog, ImageScaling, ImageSource, Satellite, SatelliteView};
pub use display::{Display, DisplayError, DisplayRegistry};
pub use fetch::{FetchError, FetchResponse, TransportFailure, CATALOG_URL};
pub use json::{parse_json, Json};
pub use wallpaper::{
    set_wallpaper, ApplyError, PlatformOptions, RenderOptions, Rgba, ScalingMode,
    WallpaperRequest, CHANNEL_FULL,
};
