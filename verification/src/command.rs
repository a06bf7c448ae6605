//! The query compiler: pure mappings from validated search conditions
//! to a storage-engine-neutral filter and query options, and the
//! mirror-image reading of stored documents back into domain entities.
//!
//! The axis reconciliation lives here and nowhere else: the domain
//! orders a point (latitude, longitude), a stored document orders it
//! (longitude, latitude).  The compiler swaps once on the way out;
//! the document reader swaps once on the way in.

use crate::model::Id;
use crate::mountain::{
    order_value, sort_key_field, Mountain, MountainBoxSearchCondition, MountainData,
    MountainLocation, MountainSearchCondition,
};
use crate::surrounding::{
    SurroundingMountain, SurroundingMountainData, SurroundingMountainLocation,
    SurroundingMountainSearchCondition,
};
use crate::text::str_eq;
use vstd::prelude::*;

verus! {

/// One conjunct of a compiled filter.
#[derive(Debug)]
pub enum FilterClause {
    /// Case-insensitive match of a substring against the display name
    /// or the phonetic name.
    NameMatches(String),
    /// The administrative-region list contains the name.
    PrefectureContains(String),
    /// The tag list contains the name.
    TagContains(String),
    /// The stored point lies within the rectangle; corners in
    /// (longitude, latitude) order, micro-degrees.
    WithinBox { bottom_left: (i64, i64), upper_right: (i64, i64) },
    /// The stored point lies within `max_distance` meters of the
    /// center; center in (longitude, latitude) order, micro-degrees.
    NearSphere { lon: i64, lat: i64, min_distance: u32, max_distance: u32 },
    /// The identifier differs from the given one.
    IdNotEqual(i32),
}

/// A compiled, storage-engine-neutral filter.
#[derive(Debug)]
pub enum Filter {
    /// The universal filter: no conjunction wrapper at all.
    All,
    /// A non-empty conjunction of clauses.
    And(Vec<FilterClause>),
    /// Identifier equality, for a point lookup.
    IdEquals(i32),
}

impl Filter {
    /// The filter of a point lookup: identifier equality only.
    pub fn for_id(id: Id) -> (r: Filter)
        ensures
            r == Filter::IdEquals(id.value),
    {
        Filter::IdEquals(id.value)
    }

    /// Whether the filter document carries the given top-level key: a
    /// conjunction is keyed by its conjunction operator, a point
    /// lookup by the identifier field.
    pub fn contains_key(&self, key: &str) -> (r: bool)
        ensures
            r == match self {
                Filter::All => false,
                Filter::And(_) => key@ == "$and"@,
                Filter::IdEquals(_) => key@ == "_id"@,
            },
    {
        match self {
            Filter::All => false,
            Filter::And(_) => str_eq(key, "$and"),
            Filter::IdEquals(_) => str_eq(key, "_id"),
        }
    }
}

/// The sort directive of a query: a stored field name and a numeric
/// direction, 1 ascending, -1 descending.
#[derive(Debug, Clone)]
pub struct SortDoc {
    pub key: String,
    pub value: i64,
}

/// Options accompanying a filter: sort, skip and limit.
#[derive(Debug, Clone)]
pub struct FindOptions {
    pub sort: Option<SortDoc>,
    pub skip: Option<u64>,
    pub limit: Option<i64>,
}

/// The conjuncts a list search compiles to, in order: name clause,
/// prefecture clause, tag clause, each only when the field is present.
pub open spec fn list_clauses(sc: MountainSearchCondition) -> Seq<FilterClause> {
    (match sc.name {
        Some(n) => seq![FilterClause::NameMatches(n)],
        None => Seq::empty(),
    }) + (match sc.prefecture {
        Some(p) => seq![FilterClause::PrefectureContains(p.name)],
        None => Seq::empty(),
    }) + (match sc.tag {
        Some(t) => seq![FilterClause::TagContains(t.name)],
        None => Seq::empty(),
    })
}

/// The sort directive a sort condition compiles to.
pub open spec fn sort_doc_of(sd: Option<SortDoc>, sc: crate::mountain::MountainSortCondition)
    -> bool {
    match sd {
        Some(d) => d.key@ == sort_key_field(sc.key) && d.value as int == order_value(sc.order),
        None => false,
    }
}

/// The compiled form of a list search.
pub struct MountainFindCommand {
    pub filter: Filter,
    pub options: FindOptions,
}

impl MountainFindCommand {
    /// Compiles a list search: the conjunction of the present optional
    /// fields — or the universal filter when none is present — with
    /// sort, skip and limit options.
    pub fn try_from(sc: MountainSearchCondition) -> (r: Result<Self, String>)
        ensures
            match r {
                Ok(cmd) => {
                    &&& match cmd.filter {
                        Filter::All => list_clauses(sc).len() == 0,
                        Filter::And(v) => v@ == list_clauses(sc) && v@.len() > 0,
                        Filter::IdEquals(_) => false,
                    }
                    &&& sort_doc_of(cmd.options.sort, sc.sort)
                    &&& cmd.options.skip == Some(sc.skip)
                    &&& cmd.options.limit == sc.limit
                },
                Err(_) => false,
            },
    {
        let ghost g = sc;
        let MountainSearchCondition { name, prefecture, tag, skip, limit, sort } = sc;

        let mut and_doc: Vec<FilterClause> = Vec::new();
        match name {
            Some(n) => {
                and_doc.push(FilterClause::NameMatches(n));
            },
            None => {},
        }
        proof {
            assert(and_doc@ =~= (match g.name {
                Some(n) => seq![FilterClause::NameMatches(n)],
                None => Seq::empty(),
            }));
        }
        match prefecture {
            Some(p) => {
                and_doc.push(FilterClause::PrefectureContains(p.name));
            },
            None => {},
        }
        proof {
            assert(and_doc@ =~= (match g.name {
                Some(n) => seq![FilterClause::NameMatches(n)],
                None => Seq::empty(),
            }) + (match g.prefecture {
                Some(p) => seq![FilterClause::PrefectureContains(p.name)],
                None => Seq::empty(),
            }));
        }
        match tag {
            Some(t) => {
                and_doc.push(FilterClause::TagContains(t.name));
            },
            None => {},
        }
        proof {
            assert(and_doc@ =~= list_clauses(g));
        }

        let filter = if and_doc.len() == 0 {
            Filter::All
        } else {
            Filter::And(and_doc)
        };

        let key = sort.key.to_key();
        let value = sort.order.to_value();
        let options = FindOptions { sort: Some(SortDoc { key, value }), skip: Some(skip), limit };
        Ok(MountainFindCommand { filter, options })
    }
}

/// The conjuncts a box search compiles to, in order: the mandatory
/// rectangle clause, then name and tag clauses when present.
pub open spec fn box_clauses(sc: MountainBoxSearchCondition) -> Seq<FilterClause> {
    seq![
        FilterClause::WithinBox {
            bottom_left: sc.box_coordinates.bottom_left,
            upper_right: sc.box_coordinates.upper_right,
        },
    ] + (match sc.name {
        Some(n) => seq![FilterClause::NameMatches(n)],
        None => Seq::empty(),
    }) + (match sc.tag {
        Some(t) => seq![FilterClause::TagContains(t.name)],
        None => Seq::empty(),
    })
}

/// The compiled form of a box search.
pub struct MountainFindBoxCommand {
    pub filter: Filter,
    pub options: FindOptions,
}

impl MountainFindBoxCommand {
    /// Compiles a box search: the rectangle clause — corners kept in
    /// (longitude, latitude) order — conjoined with the present
    /// optional fields, and a sort option without pagination.
    pub fn try_from(sc: MountainBoxSearchCondition) -> (r: Result<Self, String>)
        ensures
            match r {
                Ok(cmd) => {
                    &&& match cmd.filter {
                        Filter::And(v) => v@ == box_clauses(sc),
                        _ => false,
                    }
                    &&& sort_doc_of(cmd.options.sort, sc.sort)
                    &&& cmd.options.skip is None
                    &&& cmd.options.limit is None
                },
                Err(_) => false,
            },
    {
        let ghost g = sc;
        let MountainBoxSearchCondition { box_coordinates, name, tag, sort } = sc;

        let mut and_doc: Vec<FilterClause> = Vec::new();
        and_doc.push(
            FilterClause::WithinBox {
                bottom_left: box_coordinates.bottom_left,
                upper_right: box_coordinates.upper_right,
            },
        );
        proof {
            assert(and_doc@ =~= seq![
                FilterClause::WithinBox {
                    bottom_left: g.box_coordinates.bottom_left,
                    upper_right: g.box_coordinates.upper_right,
                },
            ]);
        }
        match name {
            Some(n) => {
                and_doc.push(FilterClause::NameMatches(n));
            },
            None => {},
        }
        proof {
            assert(and_doc@ =~= seq![
                FilterClause::WithinBox {
                    bottom_left: g.box_coordinates.bottom_left,
                    upper_right: g.box_coordinates.upper_right,
                },
            ] + (match g.name {
                Some(n) => seq![FilterClause::NameMatches(n)],
                None => Seq::empty(),
            }));
        }
        match tag {
            Some(t) => {
                and_doc.push(FilterClause::TagContains(t.name));
            },
            None => {},
        }
        proof {
            assert(and_doc@ =~= box_clauses(g));
        }

        let key = sort.key.to_key();
        let value = sort.order.to_value();
        let options = FindOptions { sort: Some(SortDoc { key, value }), skip: None, limit: None };
        Ok(MountainFindBoxCommand { filter: Filter::And(and_doc), options })
    }
}

/// The conjuncts a surrounding search compiles to: the radius clause
/// centered at the source point — swapped into (longitude, latitude)
/// storage order — and the exclusion of the source's own identifier.
pub open spec fn surrounding_clauses(sc: SurroundingMountainSearchCondition) -> Seq<FilterClause> {
    seq![
        FilterClause::NearSphere {
            lon: sc.mountain.location.longitude,
            lat: sc.mountain.location.latitude,
            min_distance: 0u32,
            max_distance: sc.distance.0,
        },
        FilterClause::IdNotEqual(sc.mountain.id.value),
    ]
}

/// The command is the compiled form of the surrounding search.
pub open spec fn surrounding_command_describes(
    cmd: SurroundingMountainFindCommand,
    sc: SurroundingMountainSearchCondition,
) -> bool {
    match cmd.filter {
        Filter::And(v) => v@ == surrounding_clauses(sc),
        _ => false,
    }
}

/// The compiled form of a surrounding search.  No options: nearby
/// results keep the storage engine's native distance order.
pub struct SurroundingMountainFindCommand {
    pub filter: Filter,
}

impl SurroundingMountainFindCommand {
    /// Compiles a surrounding search: a sphere of the search radius
    /// around the source point, excluding the source itself.
    pub fn try_from(sc: SurroundingMountainSearchCondition) -> (r: Result<Self, String>)
        ensures
            match r {
                Ok(cmd) => surrounding_command_describes(cmd, sc),
                Err(_) => false,
            },
    {
        let ghost g = sc;
        let mut and_doc: Vec<FilterClause> = Vec::new();
        and_doc.push(
            FilterClause::NearSphere {
                lon: sc.mountain.location.longitude,
                lat: sc.mountain.location.latitude,
                min_distance: 0,
                max_distance: sc.distance.0,
            },
        );
        and_doc.push(FilterClause::IdNotEqual(sc.mountain.id.value));
        proof {
            assert(and_doc@ =~= surrounding_clauses(g));
        }
        Ok(SurroundingMountainFindCommand { filter: Filter::And(and_doc) })
    }
}

/// A mountain as the document store keeps it: the point in
/// (longitude, latitude) order.
pub struct MountainDocument {
    pub id: i32,
    pub name: String,
    pub name_kana: String,
    pub area: String,
    pub prefectures: Vec<String>,
    pub elevation: u32,
    pub tags: Vec<String>,
    pub location: MountainLocationDocument,
    pub gsi_url: String,
}

/// The stored point of a mountain document: a geometry kind tag and
/// coordinates in (longitude, latitude) order, micro-degrees.
pub struct MountainLocationDocument {
    pub geo_type: String,
    pub coordinates: [i64; 2],
}

/// The domain mountain reads the stored document faithfully, with the
/// stored (longitude, latitude) point swapped back into the domain's
/// (latitude, longitude) order.
pub open spec fn mountain_of_doc(m: Mountain, doc: MountainDocument) -> bool {
    &&& m.id.value == doc.id
    &&& m.name == doc.name
    &&& m.name_kana == doc.name_kana
    &&& m.area == doc.area
    &&& m.prefectures == doc.prefectures
    &&& m.elevation == doc.elevation
    &&& m.location.latitude == doc.location.coordinates@[1]
    &&& m.location.longitude == doc.location.coordinates@[0]
    &&& m.location.gsi_url == doc.gsi_url
    &&& m.tags == doc.tags
}

impl Mountain {
    /// Reconstructs a domain mountain from its stored document,
    /// performing the read-side axis swap.
    pub fn try_from(mountain_doc: MountainDocument) -> (r: Result<Mountain, String>)
        ensures
            match r {
                Ok(m) => mountain_of_doc(m, mountain_doc),
                Err(_) => false,
            },
    {
        let mountain_id = Id::new(mountain_doc.id);
        // stored order: [longitude, latitude]; domain order: (latitude, longitude)
        let mountain_location = MountainLocation::new(
            mountain_doc.location.coordinates[1],
            mountain_doc.location.coordinates[0],
            mountain_doc.gsi_url,
        );
        let data = MountainData {
            name: mountain_doc.name,
            name_kana: mountain_doc.name_kana,
            area: mountain_doc.area,
            prefectures: mountain_doc.prefectures,
            elevation: mountain_doc.elevation,
            location: mountain_location,
            tags: mountain_doc.tags,
        };
        Ok(Mountain::new(mountain_id, data))
    }
}

/// A surrounding mountain as the document store keeps it.
pub struct SurroundingMountainDocument {
    pub id: i32,
    pub name: String,
    pub name_kana: String,
    pub area: String,
    pub prefectures: Vec<String>,
    pub elevation: u32,
    pub tags: Vec<String>,
    pub location: SurroundingMountainLocationDocument,
    pub gsi_url: String,
}

/// The stored point of a surrounding mountain document, in
/// (longitude, latitude) order, micro-degrees.
pub struct SurroundingMountainLocationDocument {
    pub geo_type: String,
    pub coordinates: [i64; 2],
}

/// The domain surrounding mountain reads the stored document
/// faithfully, with the stored point swapped back into
/// (latitude, longitude) order.
pub open spec fn surrounding_of_doc(m: SurroundingMountain, doc: SurroundingMountainDocument)
    -> bool {
    &&& m.id.value == doc.id
    &&& m.name == doc.name
    &&& m.name_kana == doc.name_kana
    &&& m.area == doc.area
    &&& m.prefectures == doc.prefectures
    &&& m.elevation == doc.elevation
    &&& m.location.latitude == doc.location.coordinates@[1]
    &&& m.location.longitude == doc.location.coordinates@[0]
    &&& m.location.gsi_url == doc.gsi_url
    &&& m.tags == doc.tags
}

impl SurroundingMountain {
    /// Reconstructs a domain surrounding mountain from its stored
    /// document, performing the read-side axis swap.
    pub fn try_from(mountain_doc: SurroundingMountainDocument) -> (r: Result<
        SurroundingMountain,
        String,
    >)
        ensures
            match r {
                Ok(m) => surrounding_of_doc(m, mountain_doc),
                Err(_) => false,
            },
    {
        let mountain_id = Id::new(mountain_doc.id);
        // stored order: [longitude, latitude]; domain order: (latitude, longitude)
        let mountain_location = SurroundingMountainLocation::new(
            mountain_doc.location.coordinates[1],
            mountain_doc.location.coordinates[0],
            mountain_doc.gsi_url,
        );
        let data = SurroundingMountainData {
            name: mountain_doc.name,
            name_kana: mountain_doc.name_kana,
            area: mountain_doc.area,
            prefectures: mountain_doc.prefectures,
            elevation: mountain_doc.elevation,
            location: mountain_location,
            tags: mountain_doc.tags,
        };
        Ok(SurroundingMountain::new(mountain_id, data))
    }
}

/// The stored center of a compiled surrounding command, in
/// (longitude, latitude) order.
pub open spec fn surrounding_center(cmd: SurroundingMountainFindCommand) -> (i64, i64) {
    match cmd.filter {
        Filter::And(v) => match v@[0] {
            FilterClause::NearSphere { lon, lat, .. } => (lon, lat),
            _ => (0i64, 0i64),
        },
        _ => (0i64, 0i64),
    }
}

/// What filter clauses say of a stored document, as far as this
/// library states it: identifier clauses are interpreted here; what a
/// geospatial or text clause admits is the storage engine's business
/// and is abstracted by `engine`.
pub open spec fn clause_matches(
    c: FilterClause,
    doc_id: int,
    engine: spec_fn(FilterClause, int) -> bool,
) -> bool {
    match c {
        FilterClause::IdNotEqual(i) => doc_id != i,
        _ => engine(c, doc_id),
    }
}

/// A filter admits a stored document when every conjunct does.
pub open spec fn filter_matches(
    f: Filter,
    doc_id: int,
    engine: spec_fn(FilterClause, int) -> bool,
) -> bool {
    match f {
        Filter::All => true,
        Filter::And(v) => forall|k: int|
            0 <= k < v@.len() ==> clause_matches(v@[k], doc_id, engine),
        Filter::IdEquals(i) => doc_id == i,
    }
}

/// Surrounding exclusion: whatever a storage engine makes of the
/// geospatial clause, the compiled surrounding filter admits no
/// document bearing the source mountain's identifier — the source
/// never appears in its own surroundings.
pub proof fn lemma_surrounding_excludes_source(
    cmd: SurroundingMountainFindCommand,
    sc: SurroundingMountainSearchCondition,
    doc_id: int,
    engine: spec_fn(FilterClause, int) -> bool,
)
    requires
        surrounding_command_describes(cmd, sc),
        filter_matches(cmd.filter, doc_id, engine),
    ensures
        doc_id != sc.mountain.id.value,
{
    match cmd.filter {
        Filter::And(v) => {
            assert(clause_matches(v@[1], doc_id, engine));
        },
        _ => {},
    }
}

/// Axis invariance, surrounding search: the compiler emits the source
/// point once, swapped into (longitude, latitude) storage order, and
/// the document reader swaps a stored point back; a document whose
/// stored point is the compiled center reads back as the source's own
/// latitude and longitude, not swapped.
pub proof fn lemma_surrounding_axis_round_trip(
    cmd: SurroundingMountainFindCommand,
    sc: SurroundingMountainSearchCondition,
    doc: MountainDocument,
    m: Mountain,
)
    requires
        surrounding_command_describes(cmd, sc),
        doc.location.coordinates@ == seq![surrounding_center(cmd).0, surrounding_center(cmd).1],
        mountain_of_doc(m, doc),
    ensures
        m.location.latitude == sc.mountain.location.latitude,
        m.location.longitude == sc.mountain.location.longitude,
{
}

/// The stored bottom-left corner of a compiled box command, in
/// (longitude, latitude) order.
pub open spec fn box_bottom_left(cmd: MountainFindBoxCommand) -> (i64, i64) {
    match cmd.filter {
        Filter::And(v) => match v@[0] {
            FilterClause::WithinBox { bottom_left, .. } => bottom_left,
            _ => (0i64, 0i64),
        },
        _ => (0i64, 0i64),
    }
}

/// The command is the compiled form of the box search.
pub open spec fn box_command_describes(
    cmd: MountainFindBoxCommand,
    sc: MountainBoxSearchCondition,
) -> bool {
    match cmd.filter {
        Filter::And(v) => v@ == box_clauses(sc),
        _ => false,
    }
}

/// Axis invariance, box search: the rectangle clause keeps the wire's
/// (longitude, latitude) corner order, and the document reader swaps a
/// stored point back into domain order; a document whose stored point
/// is the compiled bottom-left corner reads back with that corner's
/// latitude and longitude, not swapped.
pub proof fn lemma_box_axis_round_trip(
    cmd: MountainFindBoxCommand,
    sc: MountainBoxSearchCondition,
    doc: MountainDocument,
    m: Mountain,
)
    requires
        box_command_describes(cmd, sc),
        doc.location.coordinates@ == seq![box_bottom_left(cmd).0, box_bottom_left(cmd).1],
        mountain_of_doc(m, doc),
    ensures
        m.location.longitude == sc.box_coordinates.bottom_left.0,
        m.location.latitude == sc.box_coordinates.bottom_left.1,
{
}

} // verus!
