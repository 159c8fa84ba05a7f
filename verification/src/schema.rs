//! The catalog's JSON schema: which JSON document stands for which catalog.
//!
//! A catalog is an object with the members `dnsHttpProbeOverride` (an array
//! of strings) and `satellites` (an array of satellites). Members that the
//! schema does not name are passed over. Where a tree holds a key twice in
//! one object, the first member counts.

use crate::catalog::{
    Catalog, CatalogModel, ImageScaling, ImageSource, ImageSourceModel, Satellite, SatelliteModel,
    SatelliteView, SatelliteViewModel,
};
use crate::json::{lemma_member_is_first, views, Json, JsonModel};
use vstd::prelude::*;

verus! {

/// The integer under `key` in the object `j`.
pub open spec fn number_member(j: JsonModel, key: Seq<char>) -> Option<u64> {
    match j.member(key) {
        Some(value) => value.number(),
        None => None,
    }
}

/// The string under `key` in the object `j`.
pub open spec fn text_member(j: JsonModel, key: Seq<char>) -> Option<Seq<char>> {
    match j.member(key) {
        Some(value) => value.text(),
        None => None,
    }
}

/// The elements of the array under `key` in the object `j`.
pub open spec fn items_member(j: JsonModel, key: Seq<char>) -> Option<Seq<JsonModel>> {
    match j.member(key) {
        Some(value) => value.items(),
        None => None,
    }
}

/// The sequence of what `items` hold, where every one of them holds
/// something.
pub open spec fn all_of<T>(items: Seq<Option<T>>) -> Option<Seq<T>> {
    if forall|i: int| 0 <= i < items.len() ==> (#[trigger] items[i]) is Some {
        Some(Seq::new(items.len(), |i: int| items[i]->0))
    } else {
        None
    }
}

/// The scaling that a document names: the string `fit` or the string `fill`.
pub open spec fn scaling_of(j: JsonModel) -> Option<ImageScaling> {
    match j.text() {
        Some(name) => if name == "fit"@ {
            Some(ImageScaling::Fit)
        } else if name == "fill"@ {
            Some(ImageScaling::Fill)
        } else {
            None
        },
        None => None,
    }
}

/// The dimensions that a document gives: an array of exactly two integers,
/// width before height.
pub open spec fn dimensions_of(j: JsonModel) -> Option<(u64, u64)> {
    match j.items() {
        Some(pair) => if pair.len() == 2 && pair[0].number() is Some && pair[1].number() is Some {
            Some((pair[0].number()->0, pair[1].number()->0))
        } else {
            None
        },
        None => None,
    }
}

/// Whether an image source is a thumbnail: what its member `isThumbnail`
/// says, and no where it has no such member.
pub open spec fn thumbnail_of(j: JsonModel) -> Option<bool> {
    match j.member("isThumbnail"@) {
        Some(value) => value.flag(),
        None => Some(false),
    }
}

/// The image source that a document stands for, where it stands for one.
pub open spec fn source_of(j: JsonModel) -> Option<ImageSourceModel> {
    let id = number_member(j, "id"@);
    let url = text_member(j, "url"@);
    let estimated_size = text_member(j, "estimatedSize"@);
    let update_interval = number_member(j, "updateInterval"@);
    let dimensions = match j.member("dimensions"@) {
        Some(value) => dimensions_of(value),
        None => None,
    };
    let is_thumbnail = thumbnail_of(j);
    let default_scaling = match j.member("defaultScaling"@) {
        Some(value) => scaling_of(value),
        None => None,
    };
    if id is Some && url is Some && estimated_size is Some && update_interval is Some
        && dimensions is Some && is_thumbnail is Some && default_scaling is Some {
        Some(
            ImageSourceModel {
                id: id->0,
                url: url->0,
                estimated_size: estimated_size->0,
                update_interval: update_interval->0,
                dimensions: dimensions->0,
                is_thumbnail: is_thumbnail->0,
                default_scaling: default_scaling->0,
            },
        )
    } else {
        None
    }
}

/// The image sources that the elements of an array stand for, where each
/// stands for one.
pub open spec fn sources_of(items: Seq<JsonModel>) -> Option<Seq<ImageSourceModel>> {
    all_of(items.map_values(|j: JsonModel| source_of(j)))
}

/// The satellite view that a document stands for, where it stands for one.
pub open spec fn view_of(j: JsonModel) -> Option<SatelliteViewModel> {
    let id = number_member(j, "id"@);
    let name = text_member(j, "name"@);
    let image_sources = match items_member(j, "imageSources"@) {
        Some(items) => sources_of(items),
        None => None,
    };
    if id is Some && name is Some && image_sources is Some {
        Some(SatelliteViewModel { id: id->0, name: name->0, image_sources: image_sources->0 })
    } else {
        None
    }
}

/// The satellite views that the elements of an array stand for, where each
/// stands for one.
pub open spec fn views_of(items: Seq<JsonModel>) -> Option<Seq<SatelliteViewModel>> {
    all_of(items.map_values(|j: JsonModel| view_of(j)))
}

/// The satellite that a document stands for, where it stands for one.
pub open spec fn satellite_of(j: JsonModel) -> Option<SatelliteModel> {
    let id = number_member(j, "id"@);
    let name = text_member(j, "name"@);
    let views = match items_member(j, "views"@) {
        Some(items) => views_of(items),
        None => None,
    };
    if id is Some && name is Some && views is Some {
        Some(SatelliteModel { id: id->0, name: name->0, views: views->0 })
    } else {
        None
    }
}

/// The satellites that the elements of an array stand for, where each stands
/// for one.
pub open spec fn satellites_of(items: Seq<JsonModel>) -> Option<Seq<SatelliteModel>> {
    all_of(items.map_values(|j: JsonModel| satellite_of(j)))
}

/// The strings that the elements of an array are, where each is one.
pub open spec fn texts_of(items: Seq<JsonModel>) -> Option<Seq<Seq<char>>> {
    all_of(items.map_values(|j: JsonModel| j.text()))
}

/// The catalog that a document stands for, where it stands for one.
pub open spec fn catalog_of(j: JsonModel) -> Option<CatalogModel> {
    let dns_http_probe_override = match items_member(j, "dnsHttpProbeOverride"@) {
        Some(items) => texts_of(items),
        None => None,
    };
    let satellites = match items_member(j, "satellites"@) {
        Some(items) => satellites_of(items),
        None => None,
    };
    if dns_http_probe_override is Some && satellites is Some {
        Some(
            CatalogModel {
                dns_http_probe_override: dns_http_probe_override->0,
                satellites: satellites->0,
            },
        )
    } else {
        None
    }
}

/// A value that was read, or none, agrees with what the schema gives.
pub open spec fn reads<T: View>(read: Option<T>, given: Option<T::V>) -> bool {
    match read {
        Some(value) => given == Some(value@),
        None => given is None,
    }
}

fn get_number(j: &Json, key: &str) -> (r: Option<u64>)
    ensures
        r == number_member(j@, key@),
{
    match j.member(key) {
        Some(value) => value.as_u64(),
        None => None,
    }
}

fn get_text(j: &Json, key: &str) -> (r: Option<String>)
    ensures
        match r {
            Some(text) => text_member(j@, key@) == Some(text@),
            None => text_member(j@, key@) is None,
        },
{
    match j.member(key) {
        Some(value) => match value.as_text() {
            Some(text) => Some(text.clone()),
            None => None,
        },
        None => None,
    }
}

fn get_items<'a>(j: &'a Json, key: &str) -> (r: Option<&'a Vec<Json>>)
    ensures
        match r {
            Some(items) => items_member(j@, key@) == Some(views(items@)),
            None => items_member(j@, key@) is None,
        },
{
    match j.member(key) {
        Some(value) => value.as_array(),
        None => None,
    }
}

fn text_is(text: &String, name: &str) -> (r: bool)
    ensures
        r == (text@ == name@),
{
    let wanted = name.to_owned();
    *text == wanted
}

impl ImageScaling {
    /// Reads a scaling from the document that names it.
    pub fn from_json(j: &Json) -> (r: Option<ImageScaling>)
        ensures
            r == scaling_of(j@),
    {
        match j.as_text() {
            Some(name) => if text_is(name, "fit") {
                Some(ImageScaling::Fit)
            } else if text_is(name, "fill") {
                Some(ImageScaling::Fill)
            } else {
                None
            },
            None => None,
        }
    }
}

fn get_dimensions(j: &Json) -> (r: Option<(u64, u64)>)
    ensures
        r == dimensions_of(j@),
{
    match j.as_array() {
        Some(pair) => {
            if pair.len() != 2 {
                return None;
            }
            match (pair[0].as_u64(), pair[1].as_u64()) {
                (Some(width), Some(height)) => Some((width, height)),
                _ => None,
            }
        },
        None => None,
    }
}

fn get_thumbnail(j: &Json) -> (r: Option<bool>)
    ensures
        r == thumbnail_of(j@),
{
    match j.member("isThumbnail") {
        Some(value) => value.as_bool(),
        None => Some(false),
    }
}

impl ImageSource {
    /// Reads an image source from the document that stands for it.
    pub fn from_json(j: &Json) -> (r: Option<ImageSource>)
        ensures
            reads(r, source_of(j@)),
    {
        let id = get_number(j, "id")?;
        let url = get_text(j, "url")?;
        let estimated_size = get_text(j, "estimatedSize")?;
        let update_interval = get_number(j, "updateInterval")?;
        let dimensions = get_dimensions(j.member("dimensions")?)?;
        let is_thumbnail = get_thumbnail(j)?;
        let default_scaling = ImageScaling::from_json(j.member("defaultScaling")?)?;
        Some(
            ImageSource {
                id,
                url,
                estimated_size,
                update_interval,
                dimensions,
                is_thumbnail,
                default_scaling,
            },
        )
    }
}

fn read_sources(items: &Vec<Json>) -> (r: Option<Vec<ImageSource>>)
    ensures
        match r {
            Some(sources) => sources_of(views(items@)) == Some(sources.deep_view()),
            None => sources_of(views(items@)) is None,
        },
{
    let ghost given = views(items@).map_values(|j: JsonModel| source_of(j));
    let mut sources: Vec<ImageSource> = Vec::new();
    let mut i: usize = 0;
    while i < items.len()
        invariant
            i <= items.len(),
            sources.len() == i,
            given == views(items@).map_values(|j: JsonModel| source_of(j)),
            forall|k: int| 0 <= k < i ==> given[k] == Some(#[trigger] sources@[k]@),
        decreases items.len() - i,
    {
        match ImageSource::from_json(&items[i]) {
            Some(source) => sources.push(source),
            None => {
                assert(given[i as int] is None);
                return None;
            },
        }
        i += 1;
    }
    proof {
        assert forall|k: int| 0 <= k < given.len() implies (#[trigger] given[k]) is Some by {
            assert(given[k] == Some(sources@[k]@));
        }
        assert(all_of(given)->0 =~= sources.deep_view());
    }
    Some(sources)
}

impl SatelliteView {
    /// Reads a satellite view from the document that stands for it.
    pub fn from_json(j: &Json) -> (r: Option<SatelliteView>)
        ensures
            reads(r, view_of(j@)),
    {
        let id = get_number(j, "id")?;
        let name = get_text(j, "name")?;
        let image_sources = read_sources(get_items(j, "imageSources")?)?;
        Some(SatelliteView { id, name, image_sources })
    }
}

fn read_views(items: &Vec<Json>) -> (r: Option<Vec<SatelliteView>>)
    ensures
        match r {
            Some(found) => views_of(views(items@)) == Some(found.deep_view()),
            None => views_of(views(items@)) is None,
        },
{
    let ghost given = views(items@).map_values(|j: JsonModel| view_of(j));
    let mut found: Vec<SatelliteView> = Vec::new();
    let mut i: usize = 0;
    while i < items.len()
        invariant
            i <= items.len(),
            found.len() == i,
            given == views(items@).map_values(|j: JsonModel| view_of(j)),
            forall|k: int| 0 <= k < i ==> given[k] == Some(#[trigger] found@[k]@),
        decreases items.len() - i,
    {
        match SatelliteView::from_json(&items[i]) {
            Some(view) => found.push(view),
            None => {
                assert(given[i as int] is None);
                return None;
            },
        }
        i += 1;
    }
    proof {
        assert forall|k: int| 0 <= k < given.len() implies (#[trigger] given[k]) is Some by {
            assert(given[k] == Some(found@[k]@));
        }
        assert(all_of(given)->0 =~= found.deep_view());
    }
    Some(found)
}

impl Satellite {
    /// Reads a satellite from the document that stands for it.
    pub fn from_json(j: &Json) -> (r: Option<Satellite>)
        ensures
            reads(r, satellite_of(j@)),
    {
        let id = get_number(j, "id")?;
        let name = get_text(j, "name")?;
        let views = read_views(get_items(j, "views")?)?;
        Some(Satellite { id, name, views })
    }
}

fn read_satellites(items: &Vec<Json>) -> (r: Option<Vec<Satellite>>)
    ensures
        match r {
            Some(found) => satellites_of(views(items@)) == Some(found.deep_view()),
            None => satellites_of(views(items@)) is None,
        },
{
    let ghost given = views(items@).map_values(|j: JsonModel| satellite_of(j));
    let mut found: Vec<Satellite> = Vec::new();
    let mut i: usize = 0;
    while i < items.len()
        invariant
            i <= items.len(),
            found.len() == i,
            given == views(items@).map_values(|j: JsonModel| satellite_of(j)),
            forall|k: int| 0 <= k < i ==> given[k] == Some(#[trigger] found@[k]@),
        decreases items.len() - i,
    {
        match Satellite::from_json(&items[i]) {
            Some(satellite) => found.push(satellite),
            None => {
                assert(given[i as int] is None);
                return None;
            },
        }
        i += 1;
    }
    proof {
        assert forall|k: int| 0 <= k < given.len() implies (#[trigger] given[k]) is Some by {
            assert(given[k] == Some(found@[k]@));
        }
        assert(all_of(given)->0 =~= found.deep_view());
    }
    Some(found)
}

fn read_texts(items: &Vec<Json>) -> (r: Option<Vec<String>>)
    ensures
        match r {
            Some(found) => texts_of(views(items@)) == Some(found.deep_view()),
            None => texts_of(views(items@)) is None,
        },
{
    let ghost given = views(items@).map_values(|j: JsonModel| j.text());
    let mut found: Vec<String> = Vec::new();
    let mut i: usize = 0;
    while i < items.len()
        invariant
            i <= items.len(),
            found.len() == i,
            given == views(items@).map_values(|j: JsonModel| j.text()),
            forall|k: int| 0 <= k < i ==> given[k] == Some(#[trigger] found@[k]@),
        decreases items.len() - i,
    {
        match items[i].as_text() {
            Some(text) => found.push(text.clone()),
            None => {
                assert(given[i as int] is None);
                return None;
            },
        }
        i += 1;
    }
    proof {
        assert forall|k: int| 0 <= k < given.len() implies (#[trigger] given[k]) is Some by {
            assert(given[k] == Some(found@[k]@));
        }
        assert(all_of(given)->0 =~= found.deep_view());
    }
    Some(found)
}

impl Catalog {
    /// Reads a catalog from the document that stands for it: `Some` exactly
    /// where the document meets the schema.
    pub fn from_json(j: &Json) -> (r: Option<Catalog>)
        ensures
            reads(r, catalog_of(j@)),
    {
        let dns_http_probe_override = read_texts(get_items(j, "dnsHttpProbeOverride")?)?;
        let satellites = read_satellites(get_items(j, "satellites")?)?;
        Some(Catalog { dns_http_probe_override, satellites })
    }
}

/// The name by which a document calls a scaling.
pub open spec fn scaling_name(scaling: ImageScaling) -> Seq<char> {
    match scaling {
        ImageScaling::Fit => "fit"@,
        ImageScaling::Fill => "fill"@,
    }
}

/// The document that stands for an image source: an object of all its
/// fields, in their order.
pub open spec fn source_json(source: ImageSourceModel) -> JsonModel {
    JsonModel::Object(
        seq![
            ("id"@, JsonModel::Number(Some(source.id))),
            ("url"@, JsonModel::Text(source.url)),
            ("estimatedSize"@, JsonModel::Text(source.estimated_size)),
            ("updateInterval"@, JsonModel::Number(Some(source.update_interval))),
            (
                "dimensions"@,
                JsonModel::Array(
                    seq![
                        JsonModel::Number(Some(source.dimensions.0)),
                        JsonModel::Number(Some(source.dimensions.1)),
                    ],
                ),
            ),
            ("isThumbnail"@, JsonModel::Bool(source.is_thumbnail)),
            ("defaultScaling"@, JsonModel::Text(scaling_name(source.default_scaling))),
        ],
    )
}

/// The document that stands for a satellite view.
pub open spec fn view_json(view: SatelliteViewModel) -> JsonModel {
    JsonModel::Object(
        seq![
            ("id"@, JsonModel::Number(Some(view.id))),
            ("name"@, JsonModel::Text(view.name)),
            (
                "imageSources"@,
                JsonModel::Array(view.image_sources.map_values(|s: ImageSourceModel| source_json(s))),
            ),
        ],
    )
}

/// The document that stands for a satellite.
pub open spec fn satellite_json(satellite: SatelliteModel) -> JsonModel {
    JsonModel::Object(
        seq![
            ("id"@, JsonModel::Number(Some(satellite.id))),
            ("name"@, JsonModel::Text(satellite.name)),
            (
                "views"@,
                JsonModel::Array(satellite.views.map_values(|v: SatelliteViewModel| view_json(v))),
            ),
        ],
    )
}

/// The document that stands for a catalog.
pub open spec fn catalog_json(catalog: CatalogModel) -> JsonModel {
    JsonModel::Object(
        seq![
            (
                "dnsHttpProbeOverride"@,
                JsonModel::Array(
                    catalog.dns_http_probe_override.map_values(|t: Seq<char>| JsonModel::Text(t)),
                ),
            ),
            (
                "satellites"@,
                JsonModel::Array(catalog.satellites.map_values(|s: SatelliteModel| satellite_json(s))),
            ),
        ],
    )
}

impl ImageScaling {
    /// The document that names this scaling.
    pub fn to_json(self) -> (j: Json)
        ensures
            j@ == JsonModel::Text(scaling_name(self)),
    {
        match self {
            ImageScaling::Fit => Json::text("fit"),
            ImageScaling::Fill => Json::text("fill"),
        }
    }
}

fn put(members: &mut Vec<(String, Json)>, key: &str, value: Json)
    ensures
        final(members)@.len() == old(members)@.len() + 1,
        forall|i: int| 0 <= i < old(members)@.len() ==> final(members)@[i] == old(members)@[i],
        final(members)@[old(members)@.len() as int].0@ == key@,
        final(members)@[old(members)@.len() as int].1 == value,
{
    members.push((key.to_owned(), value));
}

impl ImageSource {
    /// The document that stands for this image source.
    pub fn to_json(&self) -> (j: Json)
        ensures
            j@ == source_json(self@),
    {
        let mut pair: Vec<Json> = Vec::new();
        pair.push(Json::number(self.dimensions.0));
        pair.push(Json::number(self.dimensions.1));
        let dimensions = Json::array(pair);
        proof {
            assert(dimensions@->Array_0 =~= seq![
                JsonModel::Number(Some(self.dimensions.0)),
                JsonModel::Number(Some(self.dimensions.1)),
            ]);
        }
        let mut members: Vec<(String, Json)> = Vec::new();
        put(&mut members, "id", Json::number(self.id));
        put(&mut members, "url", Json::text(self.url.as_str()));
        put(&mut members, "estimatedSize", Json::text(self.estimated_size.as_str()));
        put(&mut members, "updateInterval", Json::number(self.update_interval));
        put(&mut members, "dimensions", dimensions);
        put(&mut members, "isThumbnail", Json::flag(self.is_thumbnail));
        put(&mut members, "defaultScaling", self.default_scaling.to_json());
        let j = Json::object(members);
        proof {
            assert(j@->Object_0 =~= source_json(self@)->Object_0);
        }
        j
    }
}

fn write_sources(sources: &Vec<ImageSource>) -> (j: Json)
    ensures
        j@ == JsonModel::Array(
            sources.deep_view().map_values(|s: ImageSourceModel| source_json(s)),
        ),
{
    let mut items: Vec<Json> = Vec::new();
    let mut i: usize = 0;
    while i < sources.len()
        invariant
            i <= sources.len(),
            items.len() == i,
            forall|k: int| 0 <= k < i ==> (#[trigger] items@[k])@ == source_json(sources@[k]@),
        decreases sources.len() - i,
    {
        items.push(sources[i].to_json());
        i += 1;
    }
    let j = Json::array(items);
    proof {
        assert(j@->Array_0 =~= sources.deep_view().map_values(
            |s: ImageSourceModel| source_json(s),
        ));
    }
    j
}

impl SatelliteView {
    /// The document that stands for this satellite view.
    pub fn to_json(&self) -> (j: Json)
        ensures
            j@ == view_json(self@),
    {
        let mut members: Vec<(String, Json)> = Vec::new();
        put(&mut members, "id", Json::number(self.id));
        put(&mut members, "name", Json::text(self.name.as_str()));
        put(&mut members, "imageSources", write_sources(&self.image_sources));
        let j = Json::object(members);
        proof {
            assert(j@->Object_0 =~= view_json(self@)->Object_0);
        }
        j
    }
}

fn write_views(views: &Vec<SatelliteView>) -> (j: Json)
    ensures
        j@ == JsonModel::Array(views.deep_view().map_values(|v: SatelliteViewModel| view_json(v))),
{
    let mut items: Vec<Json> = Vec::new();
    let mut i: usize = 0;
    while i < views.len()
        invariant
            i <= views.len(),
            items.len() == i,
            forall|k: int| 0 <= k < i ==> (#[trigger] items@[k])@ == view_json(views@[k]@),
        decreases views.len() - i,
    {
        items.push(views[i].to_json());
        i += 1;
    }
    let j = Json::array(items);
    proof {
        assert(j@->Array_0 =~= views.deep_view().map_values(
            |v: SatelliteViewModel| view_json(v),
        ));
    }
    j
}

impl Satellite {
    /// The document that stands for this satellite.
    pub fn to_json(&self) -> (j: Json)
        ensures
            j@ == satellite_json(self@),
    {
        let mut members: Vec<(String, Json)> = Vec::new();
        put(&mut members, "id", Json::number(self.id));
        put(&mut members, "name", Json::text(self.name.as_str()));
        put(&mut members, "views", write_views(&self.views));
        let j = Json::object(members);
        proof {
            assert(j@->Object_0 =~= satellite_json(self@)->Object_0);
        }
        j
    }
}

fn write_satellites(satellites: &Vec<Satellite>) -> (j: Json)
    ensures
        j@ == JsonModel::Array(
            satellites.deep_view().map_values(|s: SatelliteModel| satellite_json(s)),
        ),
{
    let mut items: Vec<Json> = Vec::new();
    let mut i: usize = 0;
    while i < satellites.len()
        invariant
            i <= satellites.len(),
            items.len() == i,
            forall|k: int|
                0 <= k < i ==> (#[trigger] items@[k])@ == satellite_json(satellites@[k]@),
        decreases satellites.len() - i,
    {
        items.push(satellites[i].to_json());
        i += 1;
    }
    let j = Json::array(items);
    proof {
        assert(j@->Array_0 =~= satellites.deep_view().map_values(
            |s: SatelliteModel| satellite_json(s),
        ));
    }
    j
}

fn write_texts(texts: &Vec<String>) -> (j: Json)
    ensures
        j@ == JsonModel::Array(texts.deep_view().map_values(|t: Seq<char>| JsonModel::Text(t))),
{
    let mut items: Vec<Json> = Vec::new();
    let mut i: usize = 0;
    while i < texts.len()
        invariant
            i <= texts.len(),
            items.len() == i,
            forall|k: int| 0 <= k < i ==> (#[trigger] items@[k])@ == JsonModel::Text(texts@[k]@),
        decreases texts.len() - i,
    {
        items.push(Json::text(texts[i].as_str()));
        i += 1;
    }
    let j = Json::array(items);
    proof {
        assert(j@->Array_0 =~= texts.deep_view().map_values(|t: Seq<char>| JsonModel::Text(t)));
    }
    j
}

impl Catalog {
    /// The document that stands for this catalog.
    pub fn to_json(&self) -> (j: Json)
        ensures
            j@ == catalog_json(self@),
    {
        let mut members: Vec<(String, Json)> = Vec::new();
        put(&mut members, "dnsHttpProbeOverride", write_texts(&self.dns_http_probe_override));
        put(&mut members, "satellites", write_satellites(&self.satellites));
        let j = Json::object(members);
        proof {
            assert(j@->Object_0 =~= catalog_json(self@)->Object_0);
        }
        j
    }
}

/// An image source is read back from the document that stands for it.
pub proof fn lemma_source_round_trip(source: ImageSourceModel)
    ensures
        source_of(source_json(source)) == Some(source),
{
    reveal_strlit("id");
    reveal_strlit("url");
    reveal_strlit("estimatedSize");
    reveal_strlit("updateInterval");
    reveal_strlit("dimensions");
    reveal_strlit("isThumbnail");
    reveal_strlit("defaultScaling");
    reveal_strlit("fit");
    reveal_strlit("fill");
    let j = source_json(source);
    let members = j->Object_0;
    assert(members.len() == 7);
    assert("id"@.len() == 2);
    assert("url"@.len() == 3);
    assert("estimatedSize"@.len() == 13);
    assert("updateInterval"@.len() == 14);
    assert("dimensions"@.len() == 10);
    assert("isThumbnail"@.len() == 11);
    assert("defaultScaling"@.len() == 14);
    assert("updateInterval"@[0] != "defaultScaling"@[0]);
    lemma_member_is_first(members, "id"@, 0);
    lemma_member_is_first(members, "url"@, 1);
    lemma_member_is_first(members, "estimatedSize"@, 2);
    lemma_member_is_first(members, "updateInterval"@, 3);
    lemma_member_is_first(members, "dimensions"@, 4);
    lemma_member_is_first(members, "isThumbnail"@, 5);
    lemma_member_is_first(members, "defaultScaling"@, 6);
    assert(j.member("dimensions"@)->0.items()->0.len() == 2);
    assert("fit"@.len() == 3);
    assert("fill"@.len() == 4);
}

/// A satellite view is read back from the document that stands for it.
pub proof fn lemma_view_round_trip(view: SatelliteViewModel)
    ensures
        view_of(view_json(view)) == Some(view),
{
    reveal_strlit("id");
    reveal_strlit("name");
    reveal_strlit("imageSources");
    let j = view_json(view);
    let members = j->Object_0;
    assert(members.len() == 3);
    assert("id"@.len() == 2);
    assert("name"@.len() == 4);
    assert("imageSources"@.len() == 12);
    lemma_member_is_first(members, "id"@, 0);
    lemma_member_is_first(members, "name"@, 1);
    lemma_member_is_first(members, "imageSources"@, 2);
    let items = view.image_sources.map_values(|s: ImageSourceModel| source_json(s));
    let given = items.map_values(|j: JsonModel| source_of(j));
    assert forall|i: int| 0 <= i < given.len() implies (#[trigger] given[i]) == Some(
        view.image_sources[i],
    ) by {
        lemma_source_round_trip(view.image_sources[i]);
    }
    assert(all_of(given)->0 =~= view.image_sources);
}

/// A satellite is read back from the document that stands for it.
pub proof fn lemma_satellite_round_trip(satellite: SatelliteModel)
    ensures
        satellite_of(satellite_json(satellite)) == Some(satellite),
{
    reveal_strlit("id");
    reveal_strlit("name");
    reveal_strlit("views");
    let j = satellite_json(satellite);
    let members = j->Object_0;
    assert(members.len() == 3);
    assert("id"@.len() == 2);
    assert("name"@.len() == 4);
    assert("views"@.len() == 5);
    lemma_member_is_first(members, "id"@, 0);
    lemma_member_is_first(members, "name"@, 1);
    lemma_member_is_first(members, "views"@, 2);
    let items = satellite.views.map_values(|v: SatelliteViewModel| view_json(v));
    let given = items.map_values(|j: JsonModel| view_of(j));
    assert forall|i: int| 0 <= i < given.len() implies (#[trigger] given[i]) == Some(
        satellite.views[i],
    ) by {
        lemma_view_round_trip(satellite.views[i]);
    }
    assert(all_of(given)->0 =~= satellite.views);
}

/// Writing a catalog as a document and reading the document gives the
/// catalog back: the same satellites, views and image sources, in the same
/// order and with the same values in every field.
pub proof fn lemma_catalog_round_trip(catalog: CatalogModel)
    ensures
        catalog_of(catalog_json(catalog)) == Some(catalog),
{
    reveal_strlit("dnsHttpProbeOverride");
    reveal_strlit("satellites");
    let j = catalog_json(catalog);
    let members = j->Object_0;
    assert(members.len() == 2);
    assert("dnsHttpProbeOverride"@.len() == 20);
    assert("satellites"@.len() == 10);
    lemma_member_is_first(members, "dnsHttpProbeOverride"@, 0);
    lemma_member_is_first(members, "satellites"@, 1);
    let names = catalog.dns_http_probe_override.map_values(|t: Seq<char>| JsonModel::Text(t));
    let given_names = names.map_values(|j: JsonModel| j.text());
    assert(all_of(given_names)->0 =~= catalog.dns_http_probe_override);
    let items = catalog.satellites.map_values(|s: SatelliteModel| satellite_json(s));
    let given = items.map_values(|j: JsonModel| satellite_of(j));
    assert forall|i: int| 0 <= i < given.len() implies (#[trigger] given[i]) == Some(
        catalog.satellites[i],
    ) by {
        lemma_satellite_round_trip(catalog.satellites[i]);
    }
    assert(all_of(given)->0 =~= catalog.satellites);
}

} // verus!
