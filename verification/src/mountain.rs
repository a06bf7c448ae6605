//! Domain model of a mountain and of the validated value objects that
//! a mountain search is built from: prefecture and tag codes, sort
//! conditions, box coordinates, and the exceptions search operations
//! report.
//!
//! Coordinates are carried as integers in micro-degrees: one unit is
//! one millionth of a degree.

use crate::boxgrammar::{box_outcome, BoxField, BoxOutcome, BoxScan};
use crate::model::{ErrorCode, Id};
use crate::text;
use vstd::prelude::*;

verus! {

/// A catalogued mountain.
#[derive(Debug)]
pub struct Mountain {
    pub id: Id,
    pub name: String,
    pub name_kana: String,
    pub area: String,
    pub prefectures: Vec<String>,
    pub elevation: u32,
    pub location: MountainLocation,
    pub tags: Vec<String>,
}

/// Geographic point of a mountain, latitude and longitude in
/// micro-degrees, with its reference-document URL.
#[derive(Debug)]
pub struct MountainLocation {
    pub latitude: i64,
    pub longitude: i64,
    pub gsi_url: String,
}

/// Everything of a mountain but its identifier.
pub struct MountainData {
    pub name: String,
    pub name_kana: String,
    pub area: String,
    pub prefectures: Vec<String>,
    pub elevation: u32,
    pub location: MountainLocation,
    pub tags: Vec<String>,
}

impl Mountain {
    pub fn new(id: Id, data: MountainData) -> (r: Self)
        ensures
            r.id == id,
            r.name == data.name,
            r.name_kana == data.name_kana,
            r.area == data.area,
            r.prefectures == data.prefectures,
            r.elevation == data.elevation,
            r.location == data.location,
            r.tags == data.tags,
    {
        Self {
            id,
            name: data.name,
            name_kana: data.name_kana,
            area: data.area,
            prefectures: data.prefectures,
            elevation: data.elevation,
            location: data.location,
            tags: data.tags,
        }
    }
}

impl MountainLocation {
    pub fn new(latitude: i64, longitude: i64, gsi_url: String) -> (r: Self)
        ensures
            r.latitude == latitude,
            r.longitude == longitude,
            r.gsi_url == gsi_url,
    {
        Self { latitude, longitude, gsi_url }
    }
}

/// A validated list search: pass-through name substring, resolved
/// prefecture and tag, pagination, and a sort condition.
#[derive(Debug, Clone)]
pub struct MountainSearchCondition {
    pub name: Option<String>,
    pub prefecture: Option<MountainPrefecture>,
    pub tag: Option<MountainTag>,
    pub skip: u64,
    pub limit: Option<i64>,
    pub sort: MountainSortCondition,
}

/// A prefecture resolved from its numeric code.
#[derive(Debug, Clone)]
pub struct MountainPrefecture {
    pub id: u64,
    pub name: String,
}

/// The fixed table of the 47 prefecture names, by code.  Codes outside
/// 1 through 47 name no prefecture.
pub open spec fn prefecture_name(id: int) -> Seq<char> {
    if id == 1 {
        "北海道"@
    } else if id == 2 {
        "青森県"@
    } else if id == 3 {
        "岩手県"@
    } else if id == 4 {
        "宮城県"@
    } else if id == 5 {
        "秋田県"@
    } else if id == 6 {
        "山形県"@
    } else if id == 7 {
        "福島県"@
    } else if id == 8 {
        "茨城県"@
    } else if id == 9 {
        "栃木県"@
    } else if id == 10 {
        "群馬県"@
    } else if id == 11 {
        "埼玉県"@
    } else if id == 12 {
        "千葉県"@
    } else if id == 13 {
        "東京都"@
    } else if id == 14 {
        "神奈川県"@
    } else if id == 15 {
        "新潟県"@
    } else if id == 16 {
        "富山県"@
    } else if id == 17 {
        "石川県"@
    } else if id == 18 {
        "福井県"@
    } else if id == 19 {
        "山梨県"@
    } else if id == 20 {
        "長野県"@
    } else if id == 21 {
        "岐阜県"@
    } else if id == 22 {
        "静岡県"@
    } else if id == 23 {
        "愛知県"@
    } else if id == 24 {
        "三重県"@
    } else if id == 25 {
        "滋賀県"@
    } else if id == 26 {
        "京都府"@
    } else if id == 27 {
        "大阪府"@
    } else if id == 28 {
        "兵庫県"@
    } else if id == 29 {
        "奈良県"@
    } else if id == 30 {
        "和歌山県"@
    } else if id == 31 {
        "鳥取県"@
    } else if id == 32 {
        "島根県"@
    } else if id == 33 {
        "岡山県"@
    } else if id == 34 {
        "広島県"@
    } else if id == 35 {
        "山口県"@
    } else if id == 36 {
        "徳島県"@
    } else if id == 37 {
        "香川県"@
    } else if id == 38 {
        "愛媛県"@
    } else if id == 39 {
        "高知県"@
    } else if id == 40 {
        "福岡県"@
    } else if id == 41 {
        "佐賀県"@
    } else if id == 42 {
        "長崎県"@
    } else if id == 43 {
        "熊本県"@
    } else if id == 44 {
        "大分県"@
    } else if id == 45 {
        "宮崎県"@
    } else if id == 46 {
        "鹿児島県"@
    } else {
        "沖縄県"@
    }
}

/// The string names a prefecture code: a decimal between 1 and 47.
pub open spec fn prefecture_param_ok(s: Seq<char>) -> bool {
    text::parses_as_unsigned(s) && 1 <= text::unsigned_val(s) <= 47
}

fn prefecture_name_of(id: u64) -> (r: String)
    requires
        1 <= id <= 47,
    ensures
        r@ == prefecture_name(id as int),
{
    if id == 1 {
        "北海道".to_owned()
    } else if id == 2 {
        "青森県".to_owned()
    } else if id == 3 {
        "岩手県".to_owned()
    } else if id == 4 {
        "宮城県".to_owned()
    } else if id == 5 {
        "秋田県".to_owned()
    } else if id == 6 {
        "山形県".to_owned()
    } else if id == 7 {
        "福島県".to_owned()
    } else if id == 8 {
        "茨城県".to_owned()
    } else if id == 9 {
        "栃木県".to_owned()
    } else if id == 10 {
        "群馬県".to_owned()
    } else if id == 11 {
        "埼玉県".to_owned()
    } else if id == 12 {
        "千葉県".to_owned()
    } else if id == 13 {
        "東京都".to_owned()
    } else if id == 14 {
        "神奈川県".to_owned()
    } else if id == 15 {
        "新潟県".to_owned()
    } else if id == 16 {
        "富山県".to_owned()
    } else if id == 17 {
        "石川県".to_owned()
    } else if id == 18 {
        "福井県".to_owned()
    } else if id == 19 {
        "山梨県".to_owned()
    } else if id == 20 {
        "長野県".to_owned()
    } else if id == 21 {
        "岐阜県".to_owned()
    } else if id == 22 {
        "静岡県".to_owned()
    } else if id == 23 {
        "愛知県".to_owned()
    } else if id == 24 {
        "三重県".to_owned()
    } else if id == 25 {
        "滋賀県".to_owned()
    } else if id == 26 {
        "京都府".to_owned()
    } else if id == 27 {
        "大阪府".to_owned()
    } else if id == 28 {
        "兵庫県".to_owned()
    } else if id == 29 {
        "奈良県".to_owned()
    } else if id == 30 {
        "和歌山県".to_owned()
    } else if id == 31 {
        "鳥取県".to_owned()
    } else if id == 32 {
        "島根県".to_owned()
    } else if id == 33 {
        "岡山県".to_owned()
    } else if id == 34 {
        "広島県".to_owned()
    } else if id == 35 {
        "山口県".to_owned()
    } else if id == 36 {
        "徳島県".to_owned()
    } else if id == 37 {
        "香川県".to_owned()
    } else if id == 38 {
        "愛媛県".to_owned()
    } else if id == 39 {
        "高知県".to_owned()
    } else if id == 40 {
        "福岡県".to_owned()
    } else if id == 41 {
        "佐賀県".to_owned()
    } else if id == 42 {
        "長崎県".to_owned()
    } else if id == 43 {
        "熊本県".to_owned()
    } else if id == 44 {
        "大分県".to_owned()
    } else if id == 45 {
        "宮崎県".to_owned()
    } else if id == 46 {
        "鹿児島県".to_owned()
    } else {
        "沖縄県".to_owned()
    }
}

impl MountainPrefecture {
    pub fn new(id: u64, name: String) -> (r: Self)
        ensures
            r.id == id,
            r.name == name,
    {
        Self { id, name }
    }

    /// Parses a prefecture code and resolves it against the fixed
    /// table.  Exactly the decimal strings denoting 1 through 47 are
    /// accepted.
    pub fn try_from(prefecture_param: String) -> (r: Result<Self, String>)
        ensures
            match r {
                Ok(p) => {
                    &&& prefecture_param_ok(prefecture_param@)
                    &&& p.id == text::unsigned_val(prefecture_param@)
                    &&& p.name@ == prefecture_name(p.id as int)
                },
                Err(m) => {
                    &&& !prefecture_param_ok(prefecture_param@)
                    &&& m@ == "Invalid prefecture value."@
                },
            },
    {
        match text::parse_u64(prefecture_param.as_str()) {
            Some(n) => {
                if 1 <= n && n <= 47 {
                    let name = prefecture_name_of(n);
                    Ok(MountainPrefecture::new(n, name))
                } else {
                    Err("Invalid prefecture value.".to_owned())
                }
            },
            None => Err("Invalid prefecture value.".to_owned()),
        }
    }
}

/// A category tag resolved from its numeric code.
#[derive(Debug, Clone)]
pub struct MountainTag {
    pub id: u64,
    pub name: String,
}

/// The fixed table of tag names, by code.  Codes other than 1 and 2
/// name no tag.
pub open spec fn tag_name(id: int) -> Seq<char> {
    if id == 1 {
        "百名山"@
    } else {
        "二百名山"@
    }
}

/// The string names a tag code: a decimal equal to 1 or 2.
pub open spec fn tag_param_ok(s: Seq<char>) -> bool {
    text::parses_as_unsigned(s) && 1 <= text::unsigned_val(s) <= 2
}

impl MountainTag {
    pub fn new(id: u64, name: String) -> (r: Self)
        ensures
            r.id == id,
            r.name == name,
    {
        Self { id, name }
    }

    /// Parses a tag code and resolves it against the fixed table.
    /// Exactly the decimal strings denoting 1 and 2 are accepted.
    pub fn try_from(tag_param: String) -> (r: Result<Self, String>)
        ensures
            match r {
                Ok(t) => {
                    &&& tag_param_ok(tag_param@)
                    &&& t.id == text::unsigned_val(tag_param@)
                    &&& t.name@ == tag_name(t.id as int)
                },
                Err(m) => {
                    &&& !tag_param_ok(tag_param@)
                    &&& m@ == "Invalid tag value."@
                },
            },
    {
        match text::parse_u64(tag_param.as_str()) {
            Some(n) => {
                if n == 1 {
                    Ok(MountainTag::new(1, "百名山".to_owned()))
                } else if n == 2 {
                    Ok(MountainTag::new(2, "二百名山".to_owned()))
                } else {
                    Err("Invalid tag value.".to_owned())
                }
            },
            None => Err("Invalid tag value.".to_owned()),
        }
    }
}

/// The field a list of mountains can be sorted by.
#[derive(Debug, Copy, Clone, PartialEq, Eq, Structural)]
pub enum MountainSortKey {
    Id,
    Elevation,
    Name,
}

/// The stored-document field name a sort key stands for.
pub open spec fn sort_key_field(k: MountainSortKey) -> Seq<char> {
    match k {
        MountainSortKey::Id => "_id"@,
        MountainSortKey::Elevation => "elevation"@,
        MountainSortKey::Name => "name_kana"@,
    }
}

impl MountainSortKey {
    /// The stored-document field name this key sorts by.
    pub fn to_key(&self) -> (r: String)
        ensures
            r@ == sort_key_field(*self),
    {
        match self {
            MountainSortKey::Id => "_id".to_owned(),
            MountainSortKey::Elevation => "elevation".to_owned(),
            MountainSortKey::Name => "name_kana".to_owned(),
        }
    }
}

/// Direction of a sort.
#[derive(Debug, Copy, Clone, PartialEq, Eq, Structural)]
pub enum MountainOrderType {
    Asc,
    Desc,
}

/// The numeric direction a sort order stands for: 1 ascending, -1
/// descending.
pub open spec fn order_value(o: MountainOrderType) -> int {
    match o {
        MountainOrderType::Asc => 1,
        MountainOrderType::Desc => -1,
    }
}

impl MountainOrderType {
    /// The numeric direction of this order.
    pub fn to_value(&self) -> (r: i64)
        ensures
            r as int == order_value(*self),
    {
        match self {
            MountainOrderType::Asc => 1i64,
            MountainOrderType::Desc => -1i64,
        }
    }
}

/// A sort key together with a direction.
#[derive(Debug, Copy, Clone, PartialEq, Eq, Structural)]
pub struct MountainSortCondition {
    pub key: MountainSortKey,
    pub order: MountainOrderType,
}

/// The sort condition a wire token denotes, if any: exactly the six
/// tokens pairing `id`, `elevation` and `name` with `asc` and `desc`.
pub open spec fn sort_of_token(t: Seq<char>) -> Option<MountainSortCondition> {
    if t == "id.asc"@ {
        Some(MountainSortCondition { key: MountainSortKey::Id, order: MountainOrderType::Asc })
    } else if t == "id.desc"@ {
        Some(MountainSortCondition { key: MountainSortKey::Id, order: MountainOrderType::Desc })
    } else if t == "elevation.asc"@ {
        Some(
            MountainSortCondition {
                key: MountainSortKey::Elevation,
                order: MountainOrderType::Asc,
            },
        )
    } else if t == "elevation.desc"@ {
        Some(
            MountainSortCondition {
                key: MountainSortKey::Elevation,
                order: MountainOrderType::Desc,
            },
        )
    } else if t == "name.asc"@ {
        Some(MountainSortCondition { key: MountainSortKey::Name, order: MountainOrderType::Asc })
    } else if t == "name.desc"@ {
        Some(MountainSortCondition { key: MountainSortKey::Name, order: MountainOrderType::Desc })
    } else {
        None
    }
}

/// The wire token of a sort condition.
pub open spec fn token_of_sort(c: MountainSortCondition) -> Seq<char> {
    match (c.key, c.order) {
        (MountainSortKey::Id, MountainOrderType::Asc) => "id.asc"@,
        (MountainSortKey::Id, MountainOrderType::Desc) => "id.desc"@,
        (MountainSortKey::Elevation, MountainOrderType::Asc) => "elevation.asc"@,
        (MountainSortKey::Elevation, MountainOrderType::Desc) => "elevation.desc"@,
        (MountainSortKey::Name, MountainOrderType::Asc) => "name.asc"@,
        (MountainSortKey::Name, MountainOrderType::Desc) => "name.desc"@,
    }
}

/// Parsing a valid sort token and re-serializing the result
/// reproduces the token: the six wire tokens round-trip.
pub proof fn lemma_sort_token_round_trip(t: Seq<char>)
    requires
        sort_of_token(t).is_some(),
    ensures
        token_of_sort(sort_of_token(t)->Some_0) == t,
{
}

impl MountainSortCondition {
    /// Parses one of the six fixed sort tokens.
    pub fn try_from(sort_param: String) -> (r: Result<Self, ()>)
        ensures
            match r {
                Ok(c) => sort_of_token(sort_param@) == Some(c),
                Err(_) => sort_of_token(sort_param@) is None,
            },
    {
        let s = sort_param.as_str();
        if crate::text::str_eq(s, "id.asc") {
            Ok(MountainSortCondition { key: MountainSortKey::Id, order: MountainOrderType::Asc })
        } else if crate::text::str_eq(s, "id.desc") {
            Ok(MountainSortCondition { key: MountainSortKey::Id, order: MountainOrderType::Desc })
        } else if crate::text::str_eq(s, "elevation.asc") {
            Ok(
                MountainSortCondition {
                    key: MountainSortKey::Elevation,
                    order: MountainOrderType::Asc,
                },
            )
        } else if crate::text::str_eq(s, "elevation.desc") {
            Ok(
                MountainSortCondition {
                    key: MountainSortKey::Elevation,
                    order: MountainOrderType::Desc,
                },
            )
        } else if crate::text::str_eq(s, "name.asc") {
            Ok(
                MountainSortCondition {
                    key: MountainSortKey::Name,
                    order: MountainOrderType::Asc,
                },
            )
        } else if crate::text::str_eq(s, "name.desc") {
            Ok(
                MountainSortCondition {
                    key: MountainSortKey::Name,
                    order: MountainOrderType::Desc,
                },
            )
        } else {
            Err(())
        }
    }

    /// The wire token this condition serializes to.
    pub fn to_token(&self) -> (r: String)
        ensures
            r@ == token_of_sort(*self),
    {
        match (self.key, self.order) {
            (MountainSortKey::Id, MountainOrderType::Asc) => "id.asc".to_owned(),
            (MountainSortKey::Id, MountainOrderType::Desc) => "id.desc".to_owned(),
            (MountainSortKey::Elevation, MountainOrderType::Asc) => "elevation.asc".to_owned(),
            (MountainSortKey::Elevation, MountainOrderType::Desc) => "elevation.desc".to_owned(),
            (MountainSortKey::Name, MountainOrderType::Asc) => "name.asc".to_owned(),
            (MountainSortKey::Name, MountainOrderType::Desc) => "name.desc".to_owned(),
        }
    }
}

impl core::default::Default for MountainSortCondition {
    /// The default sort: by identifier, ascending.
    fn default() -> (r: Self)
        ensures
            r.key == MountainSortKey::Id,
            r.order == MountainOrderType::Asc,
    {
        Self { key: MountainSortKey::Id, order: MountainOrderType::Asc }
    }
}

/// A validated box search: the rectangle, pass-through name substring,
/// resolved tag, and a sort condition.  Box search has no pagination.
#[derive(Debug)]
pub struct MountainBoxSearchCondition {
    pub box_coordinates: MountainBoxCoordinates,
    pub name: Option<String>,
    pub tag: Option<MountainTag>,
    pub sort: MountainSortCondition,
}

/// Two corners of a rectangle, each `(longitude, latitude)` in
/// micro-degrees.  No order between the corners is enforced.
#[derive(Debug, Clone, Copy)]
pub struct MountainBoxCoordinates {
    pub bottom_left: (i64, i64),
    pub upper_right: (i64, i64),
}

/// The message naming the first out-of-range field of a box parameter.
pub open spec fn box_field_msg(f: BoxField) -> Seq<char> {
    match f {
        BoxField::BottomLeftLon => "Invalid bottom left longitude."@,
        BoxField::BottomLeftLat => "Invalid bottom left latitude."@,
        BoxField::UpperRightLon => "Invalid upper right longitude."@,
        BoxField::UpperRightLat => "Invalid upper right latitude."@,
    }
}

impl MountainBoxCoordinates {
    /// Parses the wire form `"(lon,lat),(lon,lat)"`.  A structural
    /// mismatch yields the generic box message; a structurally valid
    /// parameter whose field is out of range yields the message naming
    /// the first such field, in wire order.
    pub fn try_from(box_param: String) -> (r: Result<Self, String>)
        ensures
            ({
                let oc = box_outcome(box_param@);
                match r {
                    Ok(bc) => oc == (BoxOutcome::Box {
                        bl_lon: bc.bottom_left.0 as int,
                        bl_lat: bc.bottom_left.1 as int,
                        ur_lon: bc.upper_right.0 as int,
                        ur_lat: bc.upper_right.1 as int,
                    }),
                    Err(m) => match oc {
                        BoxOutcome::NoMatch => m@ == "Invalid box parameter."@,
                        BoxOutcome::OutOfRange(f) => m@ == box_field_msg(f),
                        BoxOutcome::Box { .. } => false,
                    },
                }
            }),
    {
        match crate::boxgrammar::parse_box(box_param.as_str()) {
            BoxScan::NoMatch => Err("Invalid box parameter.".to_owned()),
            BoxScan::OutOfRange(f) => match f {
                BoxField::BottomLeftLon => Err("Invalid bottom left longitude.".to_owned()),
                BoxField::BottomLeftLat => Err("Invalid bottom left latitude.".to_owned()),
                BoxField::UpperRightLon => Err("Invalid upper right longitude.".to_owned()),
                BoxField::UpperRightLat => Err("Invalid upper right latitude.".to_owned()),
            },
            BoxScan::Found { bl_lon, bl_lat, ur_lon, ur_lat } => Ok(
                MountainBoxCoordinates {
                    bottom_left: (bl_lon, bl_lat),
                    upper_right: (ur_lon, ur_lat),
                },
            ),
        }
    }
}

/// Failure of a point lookup.
#[derive(Debug)]
pub struct MountainGetException {
    pub error_code: ErrorCode,
}

impl MountainGetException {
    pub fn new(error_code: ErrorCode) -> (r: Self)
        ensures
            r.error_code == error_code,
    {
        Self { error_code }
    }
}

/// Failure of a list or box search, carrying every per-field message.
#[derive(Debug)]
pub struct MountainFindException {
    pub error_code: ErrorCode,
    pub messages: Vec<String>,
}

impl MountainFindException {
    pub fn new(error_code: ErrorCode, messages: Vec<String>) -> (r: Self)
        ensures
            r.error_code == error_code,
            r.messages == messages,
    {
        Self { error_code, messages }
    }

    /// Builds the exception that reports an unexpected failure while
    /// searching mountains, with its single generic message.
    pub fn new_with_error_code(error_code: ErrorCode) -> (r: Self)
        ensures
            r.error_code == error_code,
            r.messages@.len() == 1,
            r.messages@[0]@ == "山岳情報を検索中にエラーが発生しました。"@,
    {
        let mut messages: Vec<String> = Vec::new();
        messages.push("山岳情報を検索中にエラーが発生しました。".to_owned());
        Self { error_code, messages }
    }
}

} // verus!
