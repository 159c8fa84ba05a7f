//! The catalog of satellite imagery: which satellites there are, the views
//! that each offers, and the images that can be fetched of each view.

use vstd::prelude::*;

verus! {

/// How an image is meant to be laid onto a display.
#[derive(Clone, Copy, Debug, PartialEq, Eq, Structural)]
pub enum ImageScaling {
    /// The whole image is shown.
    Fit,
    /// The whole display is covered.
    Fill,
}

/// One variant of an image that can be fetched.
#[derive(Debug, PartialEq, Eq)]
pub struct ImageSource {
    pub id: u64,
    pub url: String,
    pub estimated_size: String,
    /// The seconds between two updates of the image.
    pub update_interval: u64,
    /// Width and height, in pixels.
    pub dimensions: (u64, u64),
    pub is_thumbnail: bool,
    pub default_scaling: ImageScaling,
}

impl Clone for ImageSource {
    fn clone(&self) -> (copy: Self)
        ensures
            copy == *self,
    {
        ImageSource {
            id: self.id,
            url: self.url.clone(),
            estimated_size: self.estimated_size.clone(),
            update_interval: self.update_interval,
            dimensions: self.dimensions,
            is_thumbnail: self.is_thumbnail,
            default_scaling: self.default_scaling,
        }
    }
}

/// A named view of one satellite, such as a region.
#[derive(Clone, Debug, PartialEq, Eq)]
pub struct SatelliteView {
    pub id: u64,
    pub name: String,
    pub image_sources: Vec<ImageSource>,
}

/// A satellite and its views.
#[derive(Clone, Debug, PartialEq, Eq)]
pub struct Satellite {
    pub id: u64,
    pub name: String,
    pub views: Vec<SatelliteView>,
}

/// The whole remote document. Identifiers are kept as they came: nothing
/// here asks that they differ from one another.
#[derive(Clone, Debug, PartialEq, Eq)]
pub struct Catalog {
    pub dns_http_probe_override: Vec<String>,
    pub satellites: Vec<Satellite>,
}

/// One fetched copy of the catalog with what was noted of the fetch. A
/// snapshot is never edited: a later fetch replaces it as a whole.
#[derive(Clone, Debug, PartialEq, Eq)]
pub struct CachedCatalog {
    pub catalog: Catalog,
    /// The version token that the remote source sent with the document.
    pub etag: String,
    /// When the document was fetched, in seconds since the epoch.
    pub downloaded_at: u64,
}

/// An `ImageSource` as a mathematical value.
pub struct ImageSourceModel {
    pub id: u64,
    pub url: Seq<char>,
    pub estimated_size: Seq<char>,
    pub update_interval: u64,
    pub dimensions: (u64, u64),
    pub is_thumbnail: bool,
    pub default_scaling: ImageScaling,
}

/// A `SatelliteView` as a mathematical value.
pub struct SatelliteViewModel {
    pub id: u64,
    pub name: Seq<char>,
    pub image_sources: Seq<ImageSourceModel>,
}

/// A `Satellite` as a mathematical value.
pub struct SatelliteModel {
    pub id: u64,
    pub name: Seq<char>,
    pub views: Seq<SatelliteViewModel>,
}

/// A `Catalog` as a mathematical value.
pub struct CatalogModel {
    pub dns_http_probe_override: Seq<Seq<char>>,
    pub satellites: Seq<SatelliteModel>,
}

/// A `CachedCatalog` as a mathematical value.
pub struct CachedCatalogModel {
    pub catalog: CatalogModel,
    pub etag: Seq<char>,
    pub downloaded_at: u64,
}

impl View for ImageSource {
    type V = ImageSourceModel;

    open spec fn view(&self) -> ImageSourceModel {
        ImageSourceModel {
            id: self.id,
            url: self.url@,
            estimated_size: self.estimated_size@,
            update_interval: self.update_interval,
            dimensions: self.dimensions,
            is_thumbnail: self.is_thumbnail,
            default_scaling: self.default_scaling,
        }
    }
}

impl DeepView for ImageSource {
    type V = ImageSourceModel;

    open spec fn deep_view(&self) -> ImageSourceModel {
        self@
    }
}

impl View for SatelliteView {
    type V = SatelliteViewModel;

    open spec fn view(&self) -> SatelliteViewModel {
        SatelliteViewModel {
            id: self.id,
            name: self.name@,
            image_sources: self.image_sources.deep_view(),
        }
    }
}

impl DeepView for SatelliteView {
    type V = SatelliteViewModel;

    open spec fn deep_view(&self) -> SatelliteViewModel {
        self@
    }
}

impl View for Satellite {
    type V = SatelliteModel;

    open spec fn view(&self) -> SatelliteModel {
        SatelliteModel { id: self.id, name: self.name@, views: self.views.deep_view() }
    }
}

impl DeepView for Satellite {
    type V = SatelliteModel;

    open spec fn deep_view(&self) -> SatelliteModel {
        self@
    }
}

impl View for Catalog {
    type V = CatalogModel;

    open spec fn view(&self) -> CatalogModel {
        CatalogModel {
            dns_http_probe_override: self.dns_http_probe_override.deep_view(),
            satellites: self.satellites.deep_view(),
        }
    }
}

impl DeepView for Catalog {
    type V = CatalogModel;

    open spec fn deep_view(&self) -> CatalogModel {
        self@
    }
}

impl View for CachedCatalog {
    type V = CachedCatalogModel;

    open spec fn view(&self) -> CachedCatalogModel {
        CachedCatalogModel {
            catalog: self.catalog@,
            etag: self.etag@,
            downloaded_at: self.downloaded_at,
        }
    }
}

} // verus!
