//! Shared domain primitives: typed identifiers and the coarse error
//! kinds that search operations report.

use crate::text;
use vstd::prelude::*;

verus! {

/// Identifier of a catalogued entity.
#[derive(Debug, Clone, Copy, PartialEq, Eq, Structural)]
pub struct Id {
    pub value: i32,
}

impl Id {
    pub fn new(value: i32) -> (r: Self)
        ensures
            r.value == value,
    {
        Self { value }
    }

    /// Parses an identifier from its external decimal string form.
    /// Any string that does not denote a 32-bit signed integer is an
    /// invalid identifier.
    pub fn try_from(value: String) -> (r: Result<Self, ErrorCode>)
        ensures
            match r {
                Ok(id) => text::parses_as_signed(value@) && i32::MIN <= text::signed_val(value@)
                    <= i32::MAX && id.value == text::signed_val(value@),
                Err(e) => {
                    &&& e == ErrorCode::InvalidId
                    &&& !(text::parses_as_signed(value@) && i32::MIN <= text::signed_val(value@)
                        <= i32::MAX)
                },
            },
    {
        match text::parse_i32(value.as_str()) {
            Some(v) => Ok(Self::new(v)),
            None => Err(ErrorCode::InvalidId),
        }
    }
}

impl core::convert::From<i32> for Id {
    fn from(value: i32) -> (r: Self) {
        Id { value }
    }
}

impl vstd::std_specs::convert::FromSpecImpl<i32> for Id {
    open spec fn obeys_from_spec() -> bool {
        true
    }

    open spec fn from_spec(value: i32) -> Self {
        Id { value }
    }
}

/// Coarse kind of a failed search operation: a malformed identifier,
/// one or more invalid request fields, an entity that does not exist,
/// or a storage failure.
#[derive(Debug, PartialEq, Eq, Structural)]
pub enum ErrorCode {
    InvalidId,
    InvalidQueryParam,
    NotFound,
    ServerError,
}

/// The message reported for one request field whose value failed
/// validation.
pub open spec fn invalid_param_msg(query_name: Seq<char>) -> Seq<char> {
    "クエリパラメータ "@ + query_name + " の値が不正です。"@
}

/// Builds the error message naming one invalid request field.
pub fn invalid_param_error(query_name: &str) -> (r: String)
    ensures
        r@ == invalid_param_msg(query_name@),
{
    let head: String = "クエリパラメータ ".to_owned();
    head.concat(query_name).concat(" の値が不正です。")
}

} // verus!
