//! Domain model of a surrounding-mountain search: the entities it
//! returns, the search distance with its configured default and
//! maximum, and the exception it reports.

use crate::model::{ErrorCode, Id};
use vstd::prelude::*;

verus! {

/// A mountain returned by a surrounding search.
#[derive(Debug)]
pub struct SurroundingMountain {
    pub id: Id,
    pub name: String,
    pub name_kana: String,
    pub area: String,
    pub prefectures: Vec<String>,
    pub elevation: u32,
    pub location: SurroundingMountainLocation,
    pub tags: Vec<String>,
}

/// Geographic point of a surrounding mountain, latitude and longitude
/// in micro-degrees, with its reference-document URL.
#[derive(Debug)]
pub struct SurroundingMountainLocation {
    pub latitude: i64,
    pub longitude: i64,
    pub gsi_url: String,
}

/// Everything of a surrounding mountain but its identifier.
pub struct SurroundingMountainData {
    pub name: String,
    pub name_kana: String,
    pub area: String,
    pub prefectures: Vec<String>,
    pub elevation: u32,
    pub location: SurroundingMountainLocation,
    pub tags: Vec<String>,
}

impl SurroundingMountain {
    pub fn new(id: Id, data: SurroundingMountainData) -> (r: Self)
        ensures
            r.id == id,
            r.name == data.name,
            r.name_kana == data.name_kana,
            r.area == data.area,
            r.prefectures == data.prefectures,
            r.elevation == data.elevation,
            r.location == data.location,
            r.tags == data.tags,
    {
        Self {
            id,
            name: data.name,
            name_kana: data.name_kana,
            area: data.area,
            prefectures: data.prefectures,
            elevation: data.elevation,
            location: data.location,
            tags: data.tags,
        }
    }
}

impl SurroundingMountainLocation {
    pub fn new(latitude: i64, longitude: i64, gsi_url: String) -> (r: Self)
        ensures
            r.latitude == latitude,
            r.longitude == longitude,
            r.gsi_url == gsi_url,
    {
        Self { latitude, longitude, gsi_url }
    }
}

/// Radius of a surrounding search, in meters.
#[derive(Debug, Clone, Copy, PartialEq, Eq, Structural)]
pub struct SurroundingMountainSearchDistance(pub u32);

impl SurroundingMountainSearchDistance {
    pub fn new(distance: u32) -> (r: Self)
        ensures
            r.0 == distance,
    {
        Self(distance)
    }
}

impl core::default::Default for SurroundingMountainSearchDistance {
    /// The documented default search radius: 5000 meters.
    fn default() -> (r: Self)
        ensures
            r.0 == 5000,
    {
        Self(5000)
    }
}

/// The distance configuration a surrounding search consumes: the
/// radius used when a request names none, and the largest radius a
/// request may name, both in meters.
#[derive(Debug, Clone, Copy, PartialEq, Eq, Structural)]
pub struct DistanceConfig {
    pub default_distance: u32,
    pub max_distance: u32,
}

impl DistanceConfig {
    pub fn new(default_distance: u32, max_distance: u32) -> (r: Self)
        ensures
            r.default_distance == default_distance,
            r.max_distance == max_distance,
    {
        Self { default_distance, max_distance }
    }
}

impl core::default::Default for DistanceConfig {
    /// The documented defaults: 5000 meters when unspecified, 100000
    /// meters at most.
    fn default() -> (r: Self)
        ensures
            r.default_distance == 5000,
            r.max_distance == 100000,
    {
        Self { default_distance: 5000, max_distance: 100000 }
    }
}

/// A validated surrounding search: the already-resolved source
/// mountain and the search radius.
pub struct SurroundingMountainSearchCondition {
    pub mountain: crate::mountain::Mountain,
    pub distance: SurroundingMountainSearchDistance,
}

impl SurroundingMountainSearchCondition {
    pub fn new(mountain: crate::mountain::Mountain, distance: SurroundingMountainSearchDistance)
        -> (r: Self)
        ensures
            r.mountain == mountain,
            r.distance == distance,
    {
        Self { mountain, distance }
    }
}

/// Failure of a surrounding search, carrying every per-field message.
#[derive(Debug)]
pub struct SurroundingMountainFindException {
    pub error_code: ErrorCode,
    pub messages: Vec<String>,
}

impl SurroundingMountainFindException {
    pub fn new(error_code: ErrorCode, messages: Vec<String>) -> (r: Self)
        ensures
            r.error_code == error_code,
            r.messages == messages,
    {
        Self { error_code, messages }
    }

    /// Builds the exception that reports an unexpected failure while
    /// searching surrounding mountains, with its single generic
    /// message.
    pub fn new_with_error_code(error_code: ErrorCode) -> (r: Self)
        ensures
            r.error_code == error_code,
            r.messages@.len() == 1,
            r.messages@[0]@ == "周辺の山岳情報を検索中にエラーが発生しました。"@,
    {
        let mut messages: Vec<String> = Vec::new();
        messages.push("周辺の山岳情報を検索中にエラーが発生しました。".to_owned());
        Self { error_code, messages }
    }
}

} // verus!
