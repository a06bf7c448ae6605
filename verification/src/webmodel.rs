//! Response- and request-shaping types of the HTTP surface: the JSON
//! object shapes that search results are mapped into, the raw query
//! parameter bundles, and the error bodies.  Coordinates stay in
//! micro-degrees here; the transport layer owns their decimal form.

use crate::model::ErrorCode;
use crate::mountain::MountainGetException;
use crate::search::{
    MountainBoxSearchQuery, MountainSearchQuery, SearchedBoxMountainResult, SearchedMountain,
    SearchedMountainLocation, SearchedMountainResult, SearchedSurroundingMountain,
    SearchedSurroundingMountainLocation, SearchedSurroundingMountainResult,
    SurroundingMountainSearchQuery,
};
use vstd::prelude::*;

verus! {

/// Error response body: the ordered list of messages.
#[derive(Debug)]
pub struct JsonErrorResponse {
    pub messages: Vec<String>,
}

impl JsonErrorResponse {
    pub fn new(messages: Vec<String>) -> (r: Self)
        ensures
            r.messages == messages,
    {
        Self { messages }
    }
}

/// One API endpoint of the service information response.
#[derive(Debug)]
pub struct JsonEndpoint {
    pub resource: String,
    pub url: String,
}

impl JsonEndpoint {
    pub fn new(resource: String, url: String) -> (r: Self)
        ensures
            r.resource == resource,
            r.url == url,
    {
        Self { resource, url }
    }
}

/// Service information response: what the API is about and where its
/// endpoints and documents live.
#[derive(Debug)]
pub struct JsonInformationResponse {
    pub about: String,
    pub endpoints: Vec<JsonEndpoint>,
    pub documents: String,
}

impl JsonInformationResponse {
    /// Builds the information response from the configured endpoint
    /// and document URLs.
    pub fn new(mountains_url: String, documents_url: String) -> (r: Self)
        ensures
            r.about@ == "日本の主な山岳をJSON形式で提供するAPIです。"@,
            r.endpoints@.len() == 1,
            r.endpoints@[0].resource@ == "mountains"@,
            r.endpoints@[0].url == mountains_url,
            r.documents == documents_url,
    {
        let about = "日本の主な山岳をJSON形式で提供するAPIです。".to_owned();
        let mut endpoints: Vec<JsonEndpoint> = Vec::new();
        endpoints.push(JsonEndpoint::new("mountains".to_owned(), mountains_url));
        Self { about, endpoints, documents: documents_url }
    }
}

/// A mountain as the API responds with it.
#[derive(Debug)]
pub struct JsonMountain {
    pub id: i32,
    pub name: String,
    pub name_kana: String,
    pub area: String,
    pub prefectures: Vec<String>,
    pub elevation: u32,
    pub location: JsonMountainLocation,
    pub tags: Vec<String>,
}

/// Location of a mountain in a response, latitude and longitude in
/// micro-degrees.
#[derive(Debug)]
pub struct JsonMountainLocation {
    pub latitude: i64,
    pub longitude: i64,
    pub gsi_url: String,
}

/// The response form of a searched mountain: the same fields.
pub open spec fn json_mountain_of(m: SearchedMountain) -> JsonMountain {
    JsonMountain {
        id: m.id,
        name: m.name,
        name_kana: m.name_kana,
        area: m.area,
        prefectures: m.prefectures,
        elevation: m.elevation,
        location: JsonMountainLocation {
            latitude: m.location.latitude,
            longitude: m.location.longitude,
            gsi_url: m.location.gsi_url,
        },
        tags: m.tags,
    }
}

impl core::convert::From<SearchedMountain> for JsonMountain {
    fn from(searched_mountain: SearchedMountain) -> (r: Self) {
        JsonMountain {
            id: searched_mountain.id,
            name: searched_mountain.name,
            name_kana: searched_mountain.name_kana,
            area: searched_mountain.area,
            prefectures: searched_mountain.prefectures,
            elevation: searched_mountain.elevation,
            location: JsonMountainLocation {
                latitude: searched_mountain.location.latitude,
                longitude: searched_mountain.location.longitude,
                gsi_url: searched_mountain.location.gsi_url,
            },
            tags: searched_mountain.tags,
        }
    }
}

impl vstd::std_specs::convert::FromSpecImpl<SearchedMountain> for JsonMountain {
    open spec fn obeys_from_spec() -> bool {
        true
    }

    open spec fn from_spec(searched_mountain: SearchedMountain) -> Self {
        json_mountain_of(searched_mountain)
    }
}

impl core::convert::From<SearchedMountainLocation> for JsonMountainLocation {
    fn from(searched_location: SearchedMountainLocation) -> (r: Self) {
        Self {
            latitude: searched_location.latitude,
            longitude: searched_location.longitude,
            gsi_url: searched_location.gsi_url,
        }
    }
}

impl vstd::std_specs::convert::FromSpecImpl<SearchedMountainLocation> for JsonMountainLocation {
    open spec fn obeys_from_spec() -> bool {
        true
    }

    open spec fn from_spec(searched_location: SearchedMountainLocation) -> Self {
        JsonMountainLocation {
            latitude: searched_location.latitude,
            longitude: searched_location.longitude,
            gsi_url: searched_location.gsi_url,
        }
    }
}

/// List search response: the page of mountains and the counts that
/// frame it.
#[derive(Debug)]
pub struct JsonMountainsResponse {
    pub mountains: Vec<JsonMountain>,
    pub total: u64,
    pub offset: u64,
    pub limit: Option<u64>,
}

fn convert_searched(mountains: Vec<SearchedMountain>) -> (r: Vec<JsonMountain>)
    ensures
        r@.len() == mountains@.len(),
        forall|i: int| 0 <= i < mountains@.len() ==> r@[i] == json_mountain_of(mountains@[i]),
{
    let ghost orig = mountains@;
    let mut rest = mountains;
    let mut json: Vec<JsonMountain> = Vec::new();
    while rest.len() > 0
        invariant
            json@.len() + rest@.len() == orig.len(),
            rest@ =~= orig.skip(json@.len() as int),
            forall|i: int| 0 <= i < json@.len() ==> json@[i] == json_mountain_of(orig[i]),
        decreases rest@.len(),
    {
        let m = rest.remove(0);
        proof {
            assert(m == orig[json@.len() as int]);
        }
        json.push(JsonMountain::from(m));
        proof {
            assert(rest@ =~= orig.skip(json@.len() as int));
        }
    }
    json
}

impl JsonMountainsResponse {
    /// Shapes a list search result into its response form.
    pub fn from(result: SearchedMountainResult) -> (r: Self)
        ensures
            r.mountains@.len() == result.mountains@.len(),
            forall|i: int|
                0 <= i < result.mountains@.len() ==> r.mountains@[i] == json_mountain_of(
                    result.mountains@[i],
                ),
            r.total == result.total,
            r.offset == result.offset,
            r.limit == result.limit,
    {
        let SearchedMountainResult { mountains, total, offset, limit } = result;
        let json_mountains = convert_searched(mountains);
        Self { mountains: json_mountains, total, offset, limit }
    }
}

/// Box search response: the mountains within the rectangle and their
/// count.
#[derive(Debug)]
pub struct JsonBoxMountainsResponse {
    pub mountains: Vec<JsonMountain>,
    pub total: u64,
}

impl JsonBoxMountainsResponse {
    /// Shapes a box search result into its response form.
    pub fn from(result: SearchedBoxMountainResult) -> (r: Self)
        ensures
            r.mountains@.len() == result.mountains@.len(),
            forall|i: int|
                0 <= i < result.mountains@.len() ==> r.mountains@[i] == json_mountain_of(
                    result.mountains@[i],
                ),
            r.total == result.total,
    {
        let SearchedBoxMountainResult { mountains, total } = result;
        let json_mountains = convert_searched(mountains);
        Self { mountains: json_mountains, total }
    }
}

/// Raw query parameters of a list search, as the transport hands them
/// over.
#[derive(Debug)]
pub struct MountainSearchQueryParam {
    pub name: Option<String>,
    pub prefecture: Option<String>,
    pub tag: Option<String>,
    pub offset: Option<String>,
    pub limit: Option<String>,
    pub sort: Option<String>,
}

impl core::convert::From<MountainSearchQueryParam> for MountainSearchQuery {
    fn from(mq: MountainSearchQueryParam) -> (r: Self) {
        MountainSearchQuery {
            name: mq.name,
            prefecture: mq.prefecture,
            tag: mq.tag,
            offset: mq.offset,
            limit: mq.limit,
            sort: mq.sort,
        }
    }
}

impl vstd::std_specs::convert::FromSpecImpl<MountainSearchQueryParam> for MountainSearchQuery {
    open spec fn obeys_from_spec() -> bool {
        true
    }

    open spec fn from_spec(mq: MountainSearchQueryParam) -> Self {
        MountainSearchQuery {
            name: mq.name,
            prefecture: mq.prefecture,
            tag: mq.tag,
            offset: mq.offset,
            limit: mq.limit,
            sort: mq.sort,
        }
    }
}

/// Raw query parameters of a box search.  The box parameter is
/// optional on the wire; its absence is a distinct error.
#[derive(Debug)]
pub struct MountainBoxSearchQueryParam {
    pub box_param: Option<String>,
    pub name: Option<String>,
    pub tag: Option<String>,
    pub sort: Option<String>,
}

impl MountainBoxSearchQuery {
    /// Accepts a box search parameter bundle only when the mandatory
    /// box parameter is present; its absence is reported as a missing
    /// parameter, not as an invalid one.
    pub fn try_from(bq: MountainBoxSearchQueryParam) -> (r: Result<Self, Vec<String>>)
        ensures
            match bq.box_param {
                Some(b) => match r {
                    Ok(q) => {
                        &&& q.box_coordinates == b
                        &&& q.name == bq.name
                        &&& q.tag == bq.tag
                        &&& q.sort == bq.sort
                    },
                    Err(_) => false,
                },
                None => match r {
                    Err(msgs) => {
                        &&& msgs@.len() == 1
                        &&& msgs@[0]@
                            == "クエリパラメータ box=(bottom left longitude,bottom left latitude),(upper right longitude,upper right latitude) は必須です。"@
                    },
                    Ok(_) => false,
                },
            },
    {
        let MountainBoxSearchQueryParam { box_param, name, tag, sort } = bq;
        match box_param {
            Some(box_value) => Ok(
                MountainBoxSearchQuery { box_coordinates: box_value, name, tag, sort },
            ),
            None => {
                let mut msgs: Vec<String> = Vec::new();
                msgs.push(
                    "クエリパラメータ box=(bottom left longitude,bottom left latitude),(upper right longitude,upper right latitude) は必須です。".to_owned(),
                );
                Err(msgs)
            },
        }
    }
}

/// Search error of the mountain endpoints, as the transport reports
/// it.
#[derive(Debug, PartialEq, Eq, Structural, Clone, Copy)]
pub enum MountainError {
    NotFound,
    ServerError,
}

impl MountainError {
    /// The response error a failed point lookup maps to: an invalid
    /// identifier reads as not found, everything else as a server
    /// error.
    pub fn from_get_exception(e: &MountainGetException) -> (r: Self)
        ensures
            r == if e.error_code == ErrorCode::InvalidId {
                MountainError::NotFound
            } else {
                MountainError::ServerError
            },
    {
        if e.error_code == ErrorCode::InvalidId {
            MountainError::NotFound
        } else {
            MountainError::ServerError
        }
    }
}

/// A surrounding mountain as the API responds with it.
#[derive(Debug)]
pub struct JsonSurroundingMountain {
    pub id: i32,
    pub name: String,
    pub name_kana: String,
    pub area: String,
    pub prefectures: Vec<String>,
    pub elevation: u32,
    pub location: JsonSurroundingMountainLocation,
    pub tags: Vec<String>,
}

/// Location of a surrounding mountain in a response, latitude and
/// longitude in micro-degrees.
#[derive(Debug)]
pub struct JsonSurroundingMountainLocation {
    pub latitude: i64,
    pub longitude: i64,
    pub gsi_url: String,
}

/// The response form of a searched surrounding mountain: the same
/// fields.
pub open spec fn json_surrounding_of(m: SearchedSurroundingMountain) -> JsonSurroundingMountain {
    JsonSurroundingMountain {
        id: m.id,
        name: m.name,
        name_kana: m.name_kana,
        area: m.area,
        prefectures: m.prefectures,
        elevation: m.elevation,
        location: JsonSurroundingMountainLocation {
            latitude: m.location.latitude,
            longitude: m.location.longitude,
            gsi_url: m.location.gsi_url,
        },
        tags: m.tags,
    }
}

impl core::convert::From<SearchedSurroundingMountain> for JsonSurroundingMountain {
    fn from(searched_mountain: SearchedSurroundingMountain) -> (r: Self) {
        JsonSurroundingMountain {
            id: searched_mountain.id,
            name: searched_mountain.name,
            name_kana: searched_mountain.name_kana,
            area: searched_mountain.area,
            prefectures: searched_mountain.prefectures,
            elevation: searched_mountain.elevation,
            location: JsonSurroundingMountainLocation {
                latitude: searched_mountain.location.latitude,
                longitude: searched_mountain.location.longitude,
                gsi_url: searched_mountain.location.gsi_url,
            },
            tags: searched_mountain.tags,
        }
    }
}

impl vstd::std_specs::convert::FromSpecImpl<SearchedSurroundingMountain> for JsonSurroundingMountain {
    open spec fn obeys_from_spec() -> bool {
        true
    }

    open spec fn from_spec(searched_mountain: SearchedSurroundingMountain) -> Self {
        json_surrounding_of(searched_mountain)
    }
}

impl core::convert::From<SearchedSurroundingMountainLocation> for JsonSurroundingMountainLocation {
    fn from(searched_location: SearchedSurroundingMountainLocation) -> (r: Self) {
        Self {
            latitude: searched_location.latitude,
            longitude: searched_location.longitude,
            gsi_url: searched_location.gsi_url,
        }
    }
}

impl vstd::std_specs::convert::FromSpecImpl<SearchedSurroundingMountainLocation> for JsonSurroundingMountainLocation {
    open spec fn obeys_from_spec() -> bool {
        true
    }

    open spec fn from_spec(searched_location: SearchedSurroundingMountainLocation) -> Self {
        JsonSurroundingMountainLocation {
            latitude: searched_location.latitude,
            longitude: searched_location.longitude,
            gsi_url: searched_location.gsi_url,
        }
    }
}

/// Surrounding search response: the mountains within the radius and
/// the radius used.
#[derive(Debug)]
pub struct JsonSurroundingMountainResponse {
    pub mountains: Vec<JsonSurroundingMountain>,
    pub distance: u32,
}

fn convert_searched_surrounding(mountains: Vec<SearchedSurroundingMountain>) -> (r: Vec<
    JsonSurroundingMountain,
>)
    ensures
        r@.len() == mountains@.len(),
        forall|i: int| 0 <= i < mountains@.len() ==> r@[i] == json_surrounding_of(mountains@[i]),
{
    let ghost orig = mountains@;
    let mut rest = mountains;
    let mut json: Vec<JsonSurroundingMountain> = Vec::new();
    while rest.len() > 0
        invariant
            json@.len() + rest@.len() == orig.len(),
            rest@ =~= orig.skip(json@.len() as int),
            forall|i: int| 0 <= i < json@.len() ==> json@[i] == json_surrounding_of(orig[i]),
        decreases rest@.len(),
    {
        let m = rest.remove(0);
        proof {
            assert(m == orig[json@.len() as int]);
        }
        json.push(JsonSurroundingMountain::from(m));
        proof {
            assert(rest@ =~= orig.skip(json@.len() as int));
        }
    }
    json
}

impl JsonSurroundingMountainResponse {
    /// Shapes a surrounding search result into its response form.
    pub fn from(result: SearchedSurroundingMountainResult) -> (r: Self)
        ensures
            r.mountains@.len() == result.mountains@.len(),
            forall|i: int|
                0 <= i < result.mountains@.len() ==> r.mountains@[i] == json_surrounding_of(
                    result.mountains@[i],
                ),
            r.distance == result.distance,
    {
        let SearchedSurroundingMountainResult { mountains, distance } = result;
        let json_mountains = convert_searched_surrounding(mountains);
        Self { mountains: json_mountains, distance }
    }
}

/// Raw query parameter of a surrounding search.
#[derive(Debug)]
pub struct SurroundingMountainQuery {
    pub distance: Option<String>,
}

/// The name the transport layer binds the surrounding search
/// parameters under.
pub type SurroundingMountainSearchQueryParam = SurroundingMountainQuery;

impl core::convert::From<SurroundingMountainQuery> for SurroundingMountainSearchQuery {
    fn from(query: SurroundingMountainQuery) -> (r: Self) {
        SurroundingMountainSearchQuery { distance: query.distance }
    }
}

impl vstd::std_specs::convert::FromSpecImpl<SurroundingMountainQuery> for SurroundingMountainSearchQuery {
    open spec fn obeys_from_spec() -> bool {
        true
    }

    open spec fn from_spec(query: SurroundingMountainQuery) -> Self {
        SurroundingMountainSearchQuery { distance: query.distance }
    }
}

} // verus!
