//! Search condition builders: each takes the raw optional strings of
//! one search kind, attempts every applicable field parse
//! independently, and returns either the fully validated condition or
//! the complete ordered list of per-field error messages — never just
//! the first.

use crate::boxgrammar::BoxOutcome;
use crate::model::{invalid_param_error, invalid_param_msg};
use crate::mountain::{
    prefecture_name, prefecture_param_ok, sort_of_token, tag_name, tag_param_ok, Mountain,
    MountainBoxCoordinates, MountainBoxSearchCondition, MountainLocation, MountainPrefecture,
    MountainSearchCondition, MountainSortCondition, MountainTag,
};
use crate::surrounding::{
    DistanceConfig, SurroundingMountain, SurroundingMountainLocation,
    SurroundingMountainSearchDistance,
};
use crate::text;
use vstd::prelude::*;

verus! {

/// A mountain as a search hands it out.
#[derive(Debug)]
pub struct SearchedMountain {
    pub id: i32,
    pub name: String,
    pub name_kana: String,
    pub area: String,
    pub prefectures: Vec<String>,
    pub elevation: u32,
    pub location: SearchedMountainLocation,
    pub tags: Vec<String>,
}

/// Location of a searched mountain, latitude and longitude in
/// micro-degrees.
#[derive(Debug)]
pub struct SearchedMountainLocation {
    pub latitude: i64,
    pub longitude: i64,
    pub gsi_url: String,
}

impl core::convert::From<Mountain> for SearchedMountain {
    fn from(mountain: Mountain) -> (r: Self) {
        Self {
            id: mountain.id.value,
            name: mountain.name,
            name_kana: mountain.name_kana,
            area: mountain.area,
            prefectures: mountain.prefectures,
            elevation: mountain.elevation,
            location: SearchedMountainLocation {
                latitude: mountain.location.latitude,
                longitude: mountain.location.longitude,
                gsi_url: mountain.location.gsi_url,
            },
            tags: mountain.tags,
        }
    }
}

/// The searched form of a mountain: the same fields, the identifier
/// unwrapped.
pub open spec fn searched_of(mountain: Mountain) -> SearchedMountain {
    SearchedMountain {
        id: mountain.id.value,
        name: mountain.name,
        name_kana: mountain.name_kana,
        area: mountain.area,
        prefectures: mountain.prefectures,
        elevation: mountain.elevation,
        location: SearchedMountainLocation {
            latitude: mountain.location.latitude,
            longitude: mountain.location.longitude,
            gsi_url: mountain.location.gsi_url,
        },
        tags: mountain.tags,
    }
}

impl vstd::std_specs::convert::FromSpecImpl<Mountain> for SearchedMountain {
    open spec fn obeys_from_spec() -> bool {
        true
    }

    open spec fn from_spec(mountain: Mountain) -> Self {
        searched_of(mountain)
    }
}

impl core::convert::From<MountainLocation> for SearchedMountainLocation {
    fn from(location: MountainLocation) -> (r: Self) {
        Self {
            latitude: location.latitude,
            longitude: location.longitude,
            gsi_url: location.gsi_url,
        }
    }
}

impl vstd::std_specs::convert::FromSpecImpl<MountainLocation> for SearchedMountainLocation {
    open spec fn obeys_from_spec() -> bool {
        true
    }

    open spec fn from_spec(location: MountainLocation) -> Self {
        SearchedMountainLocation {
            latitude: location.latitude,
            longitude: location.longitude,
            gsi_url: location.gsi_url,
        }
    }
}

/// What a list search returns: the page of mountains and the counts
/// that frame it.
#[derive(Debug)]
pub struct SearchedMountainResult {
    pub mountains: Vec<SearchedMountain>,
    pub total: u64,
    pub offset: u64,
    pub limit: Option<u64>,
}

/// Raw optional parameters of a list search, exactly as the request
/// carried them.
#[derive(Debug)]
pub struct MountainSearchQuery {
    pub name: Option<String>,
    pub prefecture: Option<String>,
    pub tag: Option<String>,
    pub offset: Option<String>,
    pub limit: Option<String>,
    pub sort: Option<String>,
}

/// A singleton message list when `bad` holds, else nothing.
pub open spec fn field_err(bad: bool, msg: Seq<char>) -> Seq<Seq<char>> {
    if bad {
        seq![msg]
    } else {
        Seq::empty()
    }
}

/// The optional prefecture parameter is absent or valid.
pub open spec fn pref_field_ok(o: Option<String>) -> bool {
    match o {
        None => true,
        Some(s) => prefecture_param_ok(s@),
    }
}

/// The optional tag parameter is absent or valid.
pub open spec fn tag_field_ok(o: Option<String>) -> bool {
    match o {
        None => true,
        Some(s) => tag_param_ok(s@),
    }
}

/// The optional sort parameter is absent or one of the six tokens.
pub open spec fn sort_field_ok(o: Option<String>) -> bool {
    match o {
        None => true,
        Some(s) => sort_of_token(s@).is_some(),
    }
}

/// The optional offset parameter is absent or a non-negative decimal
/// that fits in a 64-bit unsigned integer.
pub open spec fn offset_field_ok(o: Option<String>) -> bool {
    match o {
        None => true,
        Some(s) => text::parses_as_unsigned(s@) && text::unsigned_val(s@) <= u64::MAX,
    }
}

/// The optional limit parameter is absent or a non-negative decimal
/// that fits in a 64-bit signed integer.
pub open spec fn limit_field_ok(o: Option<String>) -> bool {
    match o {
        None => true,
        Some(s) => text::parses_as_signed(s@) && 0 <= text::signed_val(s@) <= i64::MAX,
    }
}

/// The complete ordered error list of a list search request: one
/// message per invalid field, in the order prefecture, tag, sort,
/// offset, limit.
pub open spec fn search_errors(q: MountainSearchQuery) -> Seq<Seq<char>> {
    field_err(!pref_field_ok(q.prefecture), invalid_param_msg("prefecture (都道府県ID)"@))
        + field_err(!tag_field_ok(q.tag), invalid_param_msg("tag (タグID)"@)) + field_err(
        !sort_field_ok(q.sort),
        invalid_param_msg("sort"@),
    ) + field_err(!offset_field_ok(q.offset), invalid_param_msg("offset"@)) + field_err(
        !limit_field_ok(q.limit),
        invalid_param_msg("limit"@),
    )
}

/// The built prefecture is the one the parameter resolves to.
pub open spec fn built_prefecture(o: Option<String>, p: Option<MountainPrefecture>) -> bool {
    match o {
        None => p is None,
        Some(s) => match p {
            Some(pv) => pv.id as int == text::unsigned_val(s@) && pv.name@ == prefecture_name(
                pv.id as int,
            ),
            None => false,
        },
    }
}

/// The built tag is the one the parameter resolves to.
pub open spec fn built_tag(o: Option<String>, t: Option<MountainTag>) -> bool {
    match o {
        None => t is None,
        Some(s) => match t {
            Some(tv) => tv.id as int == text::unsigned_val(s@) && tv.name@ == tag_name(
                tv.id as int,
            ),
            None => false,
        },
    }
}

/// The built sort condition is the parsed token, or the default when
/// the parameter is absent.
pub open spec fn built_sort(o: Option<String>, c: MountainSortCondition) -> bool {
    match o {
        None => c == (MountainSortCondition {
            key: crate::mountain::MountainSortKey::Id,
            order: crate::mountain::MountainOrderType::Asc,
        }),
        Some(s) => sort_of_token(s@) == Some(c),
    }
}

/// The built skip is the parsed offset, or zero when absent.
pub open spec fn built_skip(o: Option<String>, skip: u64) -> bool {
    match o {
        None => skip == 0,
        Some(s) => skip as int == text::unsigned_val(s@),
    }
}

/// The built limit is the parsed value, or absent — unbounded — when
/// the parameter is absent.
pub open spec fn built_limit(o: Option<String>, limit: Option<i64>) -> bool {
    match o {
        None => limit is None,
        Some(s) => match limit {
            Some(l) => l as int == text::signed_val(s@),
            None => false,
        },
    }
}

impl MountainSearchCondition {
    /// Builds a list search condition, validating every field
    /// independently: either all fields are valid and the condition
    /// carries their parsed values, or the complete ordered list of
    /// per-field messages is returned.
    pub fn try_from(ms: MountainSearchQuery) -> (r: Result<Self, Vec<String>>)
        ensures
            match r {
                Ok(c) => {
                    &&& search_errors(ms).len() == 0
                    &&& c.name == ms.name
                    &&& built_prefecture(ms.prefecture, c.prefecture)
                    &&& built_tag(ms.tag, c.tag)
                    &&& built_sort(ms.sort, c.sort)
                    &&& built_skip(ms.offset, c.skip)
                    &&& built_limit(ms.limit, c.limit)
                },
                Err(msgs) => {
                    &&& search_errors(ms).len() > 0
                    &&& msgs.deep_view() == search_errors(ms)
                },
            },
    {
        let ghost q = ms;
        let MountainSearchQuery { name, prefecture, tag, offset, limit, sort } = ms;

        let mut built_pref: Option<MountainPrefecture> = None;
        let mut pref_bad: bool = false;
        match prefecture {
            Some(p) => match MountainPrefecture::try_from(p) {
                Ok(v) => {
                    built_pref = Some(v);
                },
                Err(_) => {
                    pref_bad = true;
                },
            },
            None => {},
        }

        let mut built_tag_v: Option<MountainTag> = None;
        let mut tag_bad: bool = false;
        match tag {
            Some(t) => match MountainTag::try_from(t) {
                Ok(v) => {
                    built_tag_v = Some(v);
                },
                Err(_) => {
                    tag_bad = true;
                },
            },
            None => {},
        }

        let mut built_sort_v: MountainSortCondition = Default::default();
        let mut sort_bad: bool = false;
        match sort {
            Some(s) => match MountainSortCondition::try_from(s) {
                Ok(v) => {
                    built_sort_v = v;
                },
                Err(_) => {
                    sort_bad = true;
                },
            },
            None => {},
        }

        let mut skip: u64 = 0;
        let mut offset_bad: bool = false;
        match offset.as_ref() {
            Some(s) => match text::parse_u64(s.as_str()) {
                Some(v) => {
                    skip = v;
                },
                None => {
                    offset_bad = true;
                },
            },
            None => {},
        }

        let mut built_limit_v: Option<i64> = None;
        let mut limit_bad: bool = false;
        match limit.as_ref() {
            Some(s) => match text::parse_i64(s.as_str()) {
                Some(v) => {
                    if v < 0 {
                        limit_bad = true;
                    } else {
                        built_limit_v = Some(v);
                    }
                },
                None => {
                    limit_bad = true;
                },
            },
            None => {},
        }

        proof {
            assert(pref_bad == !pref_field_ok(q.prefecture));
            assert(tag_bad == !tag_field_ok(q.tag));
            assert(sort_bad == !sort_field_ok(q.sort));
            assert(offset_bad == !offset_field_ok(q.offset));
            assert(limit_bad == !limit_field_ok(q.limit));
        }

        let mut errors: Vec<String> = Vec::new();
        if pref_bad {
            errors.push(invalid_param_error("prefecture (都道府県ID)"));
        }
        proof {
            assert(errors.deep_view() =~= field_err(
                !pref_field_ok(q.prefecture),
                invalid_param_msg("prefecture (都道府県ID)"@),
            ));
        }
        if tag_bad {
            errors.push(invalid_param_error("tag (タグID)"));
        }
        proof {
            assert(errors.deep_view() =~= field_err(
                !pref_field_ok(q.prefecture),
                invalid_param_msg("prefecture (都道府県ID)"@),
            ) + field_err(!tag_field_ok(q.tag), invalid_param_msg("tag (タグID)"@)));
        }
        if sort_bad {
            errors.push(invalid_param_error("sort"));
        }
        if offset_bad {
            errors.push(invalid_param_error("offset"));
        }
        if limit_bad {
            errors.push(invalid_param_error("limit"));
        }
        proof {
            assert(errors.deep_view() =~= search_errors(q));
        }

        if errors.len() > 0 {
            return Err(errors);
        }
        Ok(
            MountainSearchCondition {
                name,
                prefecture: built_pref,
                tag: built_tag_v,
                skip,
                limit: built_limit_v,
                sort: built_sort_v,
            },
        )
    }
}

/// Error aggregation: a list search request whose prefecture, tag and
/// sort are all invalid, and whose remaining fields are absent or
/// valid, is rejected with exactly three messages, one per field, in
/// field order — no failure suppresses another's message.
pub proof fn lemma_error_aggregation(q: MountainSearchQuery)
    requires
        !pref_field_ok(q.prefecture),
        !tag_field_ok(q.tag),
        !sort_field_ok(q.sort),
        offset_field_ok(q.offset),
        limit_field_ok(q.limit),
    ensures
        search_errors(q).len() == 3,
        search_errors(q)[0] == invalid_param_msg("prefecture (都道府県ID)"@),
        search_errors(q)[1] == invalid_param_msg("tag (タグID)"@),
        search_errors(q)[2] == invalid_param_msg("sort"@),
{
}

/// What a box search returns: the mountains within the rectangle and
/// their count.
#[derive(Debug)]
pub struct SearchedBoxMountainResult {
    pub mountains: Vec<SearchedMountain>,
    pub total: u64,
}

/// Raw parameters of a box search: the mandatory box string and the
/// optional filters.
#[derive(Debug)]
pub struct MountainBoxSearchQuery {
    pub box_coordinates: String,
    pub name: Option<String>,
    pub tag: Option<String>,
    pub sort: Option<String>,
}

/// The box parameter parses and every coordinate is in range.
pub open spec fn box_field_ok(s: Seq<char>) -> bool {
    match crate::boxgrammar::box_outcome(s) {
        BoxOutcome::Box { .. } => true,
        _ => false,
    }
}

/// The complete ordered error list of a box search request: one
/// message per invalid field, in the order box, tag, sort.
pub open spec fn box_search_errors(q: MountainBoxSearchQuery) -> Seq<Seq<char>> {
    field_err(!box_field_ok(q.box_coordinates@), invalid_param_msg("box"@)) + field_err(
        !tag_field_ok(q.tag),
        invalid_param_msg("tag (タグID)"@),
    ) + field_err(!sort_field_ok(q.sort), invalid_param_msg("sort"@))
}

/// The built rectangle carries the coordinates the box parameter
/// denotes.
pub open spec fn built_box(s: Seq<char>, bc: MountainBoxCoordinates) -> bool {
    crate::boxgrammar::box_outcome(s) == (BoxOutcome::Box {
        bl_lon: bc.bottom_left.0 as int,
        bl_lat: bc.bottom_left.1 as int,
        ur_lon: bc.upper_right.0 as int,
        ur_lat: bc.upper_right.1 as int,
    })
}

impl MountainBoxSearchCondition {
    /// Builds a box search condition, validating every field
    /// independently: either all fields are valid and the condition
    /// carries their parsed values, or the complete ordered list of
    /// per-field messages is returned.
    pub fn try_from(query: MountainBoxSearchQuery) -> (r: Result<Self, Vec<String>>)
        ensures
            match r {
                Ok(c) => {
                    &&& box_search_errors(query).len() == 0
                    &&& built_box(query.box_coordinates@, c.box_coordinates)
                    &&& c.name == query.name
                    &&& built_tag(query.tag, c.tag)
                    &&& built_sort(query.sort, c.sort)
                },
                Err(msgs) => {
                    &&& box_search_errors(query).len() > 0
                    &&& msgs.deep_view() == box_search_errors(query)
                },
            },
    {
        let ghost q = query;
        let MountainBoxSearchQuery { box_coordinates, name, tag, sort } = query;

        let mut built_bc: Option<MountainBoxCoordinates> = None;
        let mut box_bad: bool = false;
        match MountainBoxCoordinates::try_from(box_coordinates) {
            Ok(bc) => {
                built_bc = Some(bc);
            },
            Err(_) => {
                box_bad = true;
            },
        }

        let mut built_tag_v: Option<MountainTag> = None;
        let mut tag_bad: bool = false;
        match tag {
            Some(t) => match MountainTag::try_from(t) {
                Ok(v) => {
                    built_tag_v = Some(v);
                },
                Err(_) => {
                    tag_bad = true;
                },
            },
            None => {},
        }

        let mut built_sort_v: MountainSortCondition = Default::default();
        let mut sort_bad: bool = false;
        match sort {
            Some(s) => match MountainSortCondition::try_from(s) {
                Ok(v) => {
                    built_sort_v = v;
                },
                Err(_) => {
                    sort_bad = true;
                },
            },
            None => {},
        }

        proof {
            assert(box_bad == !box_field_ok(q.box_coordinates@));
            assert(tag_bad == !tag_field_ok(q.tag));
            assert(sort_bad == !sort_field_ok(q.sort));
        }

        let mut errors: Vec<String> = Vec::new();
        if box_bad {
            errors.push(invalid_param_error("box"));
        }
        proof {
            assert(errors.deep_view() =~= field_err(
                !box_field_ok(q.box_coordinates@),
                invalid_param_msg("box"@),
            ));
        }
        if tag_bad {
            errors.push(invalid_param_error("tag (タグID)"));
        }
        proof {
            assert(errors.deep_view() =~= field_err(
                !box_field_ok(q.box_coordinates@),
                invalid_param_msg("box"@),
            ) + field_err(!tag_field_ok(q.tag), invalid_param_msg("tag (タグID)"@)));
        }
        if sort_bad {
            errors.push(invalid_param_error("sort"));
        }
        proof {
            assert(errors.deep_view() =~= box_search_errors(q));
        }

        if errors.len() > 0 {
            return Err(errors);
        }
        match built_bc {
            Some(bc) => Ok(
                MountainBoxSearchCondition {
                    box_coordinates: bc,
                    name,
                    tag: built_tag_v,
                    sort: built_sort_v,
                },
            ),
            None => {
                proof {
                    assert(false);
                }
                Err(Vec::new())
            },
        }
    }
}

/// A surrounding mountain as a search hands it out.
#[derive(Debug)]
pub struct SearchedSurroundingMountain {
    pub id: i32,
    pub name: String,
    pub name_kana: String,
    pub area: String,
    pub prefectures: Vec<String>,
    pub elevation: u32,
    pub location: SearchedSurroundingMountainLocation,
    pub tags: Vec<String>,
}

/// Location of a searched surrounding mountain, latitude and longitude
/// in micro-degrees.
#[derive(Debug)]
pub struct SearchedSurroundingMountainLocation {
    pub latitude: i64,
    pub longitude: i64,
    pub gsi_url: String,
}

impl core::convert::From<SurroundingMountain> for SearchedSurroundingMountain {
    fn from(mountain: SurroundingMountain) -> (r: Self) {
        Self {
            id: mountain.id.value,
            name: mountain.name,
            name_kana: mountain.name_kana,
            area: mountain.area,
            prefectures: mountain.prefectures,
            elevation: mountain.elevation,
            location: SearchedSurroundingMountainLocation {
                latitude: mountain.location.latitude,
                longitude: mountain.location.longitude,
                gsi_url: mountain.location.gsi_url,
            },
            tags: mountain.tags,
        }
    }
}

/// The searched form of a surrounding mountain: the same fields, the
/// identifier unwrapped.
pub open spec fn searched_surrounding_of(mountain: SurroundingMountain)
    -> SearchedSurroundingMountain {
    SearchedSurroundingMountain {
        id: mountain.id.value,
        name: mountain.name,
        name_kana: mountain.name_kana,
        area: mountain.area,
        prefectures: mountain.prefectures,
        elevation: mountain.elevation,
        location: SearchedSurroundingMountainLocation {
            latitude: mountain.location.latitude,
            longitude: mountain.location.longitude,
            gsi_url: mountain.location.gsi_url,
        },
        tags: mountain.tags,
    }
}

impl vstd::std_specs::convert::FromSpecImpl<SurroundingMountain> for SearchedSurroundingMountain {
    open spec fn obeys_from_spec() -> bool {
        true
    }

    open spec fn from_spec(mountain: SurroundingMountain) -> Self {
        searched_surrounding_of(mountain)
    }
}

impl core::convert::From<SurroundingMountainLocation> for SearchedSurroundingMountainLocation {
    fn from(location: SurroundingMountainLocation) -> (r: Self) {
        Self {
            latitude: location.latitude,
            longitude: location.longitude,
            gsi_url: location.gsi_url,
        }
    }
}

impl vstd::std_specs::convert::FromSpecImpl<SurroundingMountainLocation> for SearchedSurroundingMountainLocation {
    open spec fn obeys_from_spec() -> bool {
        true
    }

    open spec fn from_spec(location: SurroundingMountainLocation) -> Self {
        SearchedSurroundingMountainLocation {
            latitude: location.latitude,
            longitude: location.longitude,
            gsi_url: location.gsi_url,
        }
    }
}

/// What a surrounding search returns: the mountains within the radius
/// and the radius used, in meters.
#[derive(Debug)]
pub struct SearchedSurroundingMountainResult {
    pub mountains: Vec<SearchedSurroundingMountain>,
    pub distance: u32,
}

/// Raw optional parameter of a surrounding search.
#[derive(Debug)]
pub struct SurroundingMountainSearchQuery {
    pub distance: Option<String>,
}

/// The distance parameter denotes a non-negative decimal no greater
/// than the configured maximum.
pub open spec fn distance_param_ok(s: Seq<char>, max: int) -> bool {
    text::parses_as_unsigned(s) && text::unsigned_val(s) <= max
}

impl SurroundingMountainSearchDistance {
    /// Builds the search radius from the raw parameter: the configured
    /// default when absent; rejected with one message when it does not
    /// parse or exceeds the configured maximum.
    pub fn try_from(query: SurroundingMountainSearchQuery, config: &DistanceConfig) -> (r: Result<
        Self,
        Vec<String>,
    >)
        ensures
            match query.distance {
                None => r == Ok::<Self, Vec<String>>(
                    SurroundingMountainSearchDistance(config.default_distance),
                ),
                Some(s) => match r {
                    Ok(d) => {
                        &&& distance_param_ok(s@, config.max_distance as int)
                        &&& d.0 as int == text::unsigned_val(s@)
                    },
                    Err(msgs) => {
                        &&& !distance_param_ok(s@, config.max_distance as int)
                        &&& msgs.deep_view() == seq![invalid_param_msg("distance"@)]
                    },
                },
            },
    {
        match query.distance {
            Some(query_distance) => {
                let parsed = text::parse_u32(query_distance.as_str());
                let mut bad: bool = false;
                let mut value: u32 = 0;
                match parsed {
                    Some(d) => {
                        if d <= config.max_distance {
                            value = d;
                        } else {
                            bad = true;
                        }
                    },
                    None => {
                        bad = true;
                    },
                }
                if bad {
                    let mut msgs: Vec<String> = Vec::new();
                    msgs.push(invalid_param_error("distance"));
                    proof {
                        assert(msgs.deep_view() =~= seq![invalid_param_msg("distance"@)]);
                    }
                    Err(msgs)
                } else {
                    Ok(SurroundingMountainSearchDistance::new(value))
                }
            },
            None => Ok(SurroundingMountainSearchDistance::new(config.default_distance)),
        }
    }
}

} // verus!
