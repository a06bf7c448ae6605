//! The decisions of the search use cases, separated from the I/O that
//! surrounds them: given what the storage port returned, each function
//! decides the outcome of one request, exactly.
//!
//! Callers perform the storage calls and hand the results in; every
//! path from storage result to response or exception is decided here.

use crate::model::{ErrorCode, Id};
use crate::mountain::{Mountain, MountainFindException, MountainGetException};
use crate::search::{
    searched_of, searched_surrounding_of, SearchedBoxMountainResult, SearchedMountain,
    SearchedMountainResult, SearchedSurroundingMountain, SearchedSurroundingMountainResult,
};
use crate::surrounding::{SurroundingMountain, SurroundingMountainFindException};
use crate::text;
use vstd::prelude::*;

verus! {

/// Opaque failure of the storage port.  The core does not interpret
/// why storage failed, only that it did.
#[derive(Debug, Clone, Copy, PartialEq, Eq, Structural)]
pub struct StorageError;

/// Decides a point lookup from what the port returned: a found entity
/// is handed out converted, absence is a successful empty result, and
/// a storage failure is a server error.
pub fn conclude_get(fetched: Result<Option<Mountain>, StorageError>) -> (r: Result<
    Option<SearchedMountain>,
    MountainGetException,
>)
    ensures
        match fetched {
            Ok(Some(m)) => match r {
                Ok(Some(sm)) => sm == searched_of(m),
                _ => false,
            },
            Ok(None) => r is Ok && (match r {
                Ok(o) => o is None,
                _ => false,
            }),
            Err(_) => match r {
                Err(e) => e.error_code == ErrorCode::ServerError,
                Ok(_) => false,
            },
        },
{
    match fetched {
        Ok(mountain) => match mountain {
            Some(mountain) => Ok(Some(SearchedMountain::from(mountain))),
            None => Ok(None),
        },
        Err(_) => Err(MountainGetException::new(ErrorCode::ServerError)),
    }
}

/// Converts a fetched page of mountains, in order.
fn convert_mountains(mountains: Vec<Mountain>) -> (r: Vec<SearchedMountain>)
    ensures
        r@.len() == mountains@.len(),
        forall|i: int| 0 <= i < mountains@.len() ==> r@[i] == searched_of(mountains@[i]),
{
    let ghost orig = mountains@;
    let mut rest = mountains;
    let mut searched: Vec<SearchedMountain> = Vec::new();
    while rest.len() > 0
        invariant
            searched@.len() + rest@.len() == orig.len(),
            rest@ =~= orig.skip(searched@.len() as int),
            forall|i: int| 0 <= i < searched@.len() ==> searched@[i] == searched_of(orig[i]),
        decreases rest@.len(),
    {
        let m = rest.remove(0);
        proof {
            assert(m == orig[searched@.len() as int]);
        }
        searched.push(SearchedMountain::from(m));
        proof {
            assert(rest@ =~= orig.skip(searched@.len() as int));
        }
    }
    searched
}

/// The page limit handed back to the caller: the condition's limit
/// when it is representable as an unsigned count, else absent.
pub open spec fn result_limit(limit: Option<i64>) -> Option<u64> {
    match limit {
        Some(l) => if l >= 0 {
            Some(l as u64)
        } else {
            None
        },
        None => None,
    }
}

/// Decides a list search from what the port returned.  A failed count
/// degrades to a total of zero — count is best effort; a failed find
/// is fatal and surfaces as a server error with the generic message.
pub fn conclude_find(
    skip: u64,
    limit: Option<i64>,
    count: Result<u64, StorageError>,
    found: Result<Vec<Mountain>, StorageError>,
) -> (r: Result<SearchedMountainResult, MountainFindException>)
    ensures
        match found {
            Ok(mountains) => match r {
                Ok(res) => {
                    &&& res.mountains@.len() == mountains@.len()
                    &&& forall|i: int|
                        0 <= i < mountains@.len() ==> res.mountains@[i] == searched_of(
                            mountains@[i],
                        )
                    &&& res.total == (match count {
                        Ok(c) => c,
                        Err(_) => 0u64,
                    })
                    &&& res.offset == skip
                    &&& res.limit == result_limit(limit)
                },
                Err(_) => false,
            },
            Err(_) => match r {
                Err(e) => {
                    &&& e.error_code == ErrorCode::ServerError
                    &&& e.messages@.len() == 1
                    &&& e.messages@[0]@ == "山岳情報を検索中にエラーが発生しました。"@
                },
                Ok(_) => false,
            },
        },
{
    let total: u64 = match count {
        Ok(c) => c,
        Err(_) => 0,
    };
    match found {
        Ok(mountains) => {
            let searched_mountains = convert_mountains(mountains);
            let result_limit_v: Option<u64> = match limit {
                Some(l) => if l >= 0 {
                    Some(l as u64)
                } else {
                    None
                },
                None => None,
            };
            Ok(
                SearchedMountainResult {
                    mountains: searched_mountains,
                    total,
                    offset: skip,
                    limit: result_limit_v,
                },
            )
        },
        Err(_) => Err(MountainFindException::new_with_error_code(ErrorCode::ServerError)),
    }
}

/// Decides a box search from what the port returned: the converted
/// page with its own length as total, or a server error with the
/// generic message.
pub fn conclude_find_box(found: Result<Vec<Mountain>, StorageError>) -> (r: Result<
    SearchedBoxMountainResult,
    MountainFindException,
>)
    ensures
        match found {
            Ok(mountains) => match r {
                Ok(res) => {
                    &&& res.mountains@.len() == mountains@.len()
                    &&& forall|i: int|
                        0 <= i < mountains@.len() ==> res.mountains@[i] == searched_of(
                            mountains@[i],
                        )
                    &&& res.total == mountains@.len()
                },
                Err(_) => false,
            },
            Err(_) => match r {
                Err(e) => {
                    &&& e.error_code == ErrorCode::ServerError
                    &&& e.messages@.len() == 1
                    &&& e.messages@[0]@ == "山岳情報を検索中にエラーが発生しました。"@
                },
                Ok(_) => false,
            },
        },
{
    match found {
        Ok(mountains) => {
            let searched_mountains = convert_mountains(mountains);
            let total: u64 = searched_mountains.len() as u64;
            Ok(SearchedBoxMountainResult { mountains: searched_mountains, total })
        },
        Err(_) => Err(MountainFindException::new_with_error_code(ErrorCode::ServerError)),
    }
}

/// Decides whether a surrounding search's identifier names a source
/// at all: a malformed identifier is reported as an invalid
/// identifier — a client error, distinct from a validation failure
/// and from a storage failure — shown to the caller as an absent
/// entity.
pub fn surrounding_id_outcome(id: String) -> (r: Result<Id, SurroundingMountainFindException>)
    ensures
        match r {
            Ok(v) => {
                &&& text::parses_as_signed(id@)
                &&& i32::MIN <= text::signed_val(id@) <= i32::MAX
                &&& v.value == text::signed_val(id@)
            },
            Err(e) => {
                &&& !(text::parses_as_signed(id@) && i32::MIN <= text::signed_val(id@)
                    <= i32::MAX)
                &&& e.error_code == ErrorCode::InvalidId
                &&& e.messages@.len() == 1
                &&& e.messages@[0]@ == "山岳情報が見つかりませんでした。"@
            },
        },
{
    match Id::try_from(id) {
        Ok(v) => Ok(v),
        Err(_) => {
            let mut messages: Vec<String> = Vec::new();
            messages.push("山岳情報が見つかりませんでした。".to_owned());
            Err(SurroundingMountainFindException::new(ErrorCode::InvalidId, messages))
        },
    }
}

/// Decides whether a surrounding search may proceed: only a source
/// mountain that was actually fetched.  A source that does not exist
/// is not found — an absent result, distinct from a failure; only a
/// storage failure is a server error with the generic message.
pub fn surrounding_source_outcome(fetched: Result<Option<Mountain>, StorageError>) -> (r: Result<
    Mountain,
    SurroundingMountainFindException,
>)
    ensures
        match fetched {
            Ok(Some(m)) => match r {
                Ok(src) => src == m,
                Err(_) => false,
            },
            Ok(None) => match r {
                Err(e) => {
                    &&& e.error_code == ErrorCode::NotFound
                    &&& e.messages@.len() == 1
                    &&& e.messages@[0]@ == "山岳情報が見つかりませんでした。"@
                },
                Ok(_) => false,
            },
            Err(_) => match r {
                Err(e) => {
                    &&& e.error_code == ErrorCode::ServerError
                    &&& e.messages@.len() == 1
                    &&& e.messages@[0]@ == "周辺の山岳情報を検索中にエラーが発生しました。"@
                },
                Ok(_) => false,
            },
        },
{
    match fetched {
        Ok(Some(m)) => Ok(m),
        Ok(None) => {
            let mut messages: Vec<String> = Vec::new();
            messages.push("山岳情報が見つかりませんでした。".to_owned());
            Err(SurroundingMountainFindException::new(ErrorCode::NotFound, messages))
        },
        Err(_) => Err(
            SurroundingMountainFindException::new_with_error_code(ErrorCode::ServerError),
        ),
    }
}

/// Converts a fetched list of surrounding mountains, in order.
fn convert_surrounding_mountains(mountains: Vec<SurroundingMountain>) -> (r: Vec<
    SearchedSurroundingMountain,
>)
    ensures
        r@.len() == mountains@.len(),
        forall|i: int|
            0 <= i < mountains@.len() ==> r@[i] == searched_surrounding_of(mountains@[i]),
{
    let ghost orig = mountains@;
    let mut rest = mountains;
    let mut searched: Vec<SearchedSurroundingMountain> = Vec::new();
    while rest.len() > 0
        invariant
            searched@.len() + rest@.len() == orig.len(),
            rest@ =~= orig.skip(searched@.len() as int),
            forall|i: int|
                0 <= i < searched@.len() ==> searched@[i] == searched_surrounding_of(orig[i]),
        decreases rest@.len(),
    {
        let m = rest.remove(0);
        proof {
            assert(m == orig[searched@.len() as int]);
        }
        searched.push(SearchedSurroundingMountain::from(m));
        proof {
            assert(rest@ =~= orig.skip(searched@.len() as int));
        }
    }
    searched
}

/// Decides a surrounding search from what the port returned: the
/// converted list with the radius used, or a server error with the
/// generic message.
pub fn conclude_surrounding_find(
    distance: u32,
    found: Result<Vec<SurroundingMountain>, StorageError>,
) -> (r: Result<SearchedSurroundingMountainResult, SurroundingMountainFindException>)
    ensures
        match found {
            Ok(mountains) => match r {
                Ok(res) => {
                    &&& res.mountains@.len() == mountains@.len()
                    &&& forall|i: int|
                        0 <= i < mountains@.len() ==> res.mountains@[i]
                            == searched_surrounding_of(mountains@[i])
                    &&& res.distance == distance
                },
                Err(_) => false,
            },
            Err(_) => match r {
                Err(e) => {
                    &&& e.error_code == ErrorCode::ServerError
                    &&& e.messages@.len() == 1
                    &&& e.messages@[0]@ == "周辺の山岳情報を検索中にエラーが発生しました。"@
                },
                Ok(_) => false,
            },
        },
{
    match found {
        Ok(mountains) => {
            let searched_mountains = convert_surrounding_mountains(mountains);
            Ok(SearchedSurroundingMountainResult { mountains: searched_mountains, distance })
        },
        Err(_) => Err(
            SurroundingMountainFindException::new_with_error_code(ErrorCode::ServerError),
        ),
    }
}

} // verus!
