//! The closed set of payload data kinds and resolution of a declared kind
//! name to a member of that set.

use vstd::prelude::*;
use crate::text::str_eq;

verus! {

/// The semantic payload type a tag id can be declared with.
///
/// Calendar/date payloads are deliberately not a kind of their own: such tags
/// are declared `Binary` so consumers can decode the untouched bytes with
/// whatever facility they prefer.
#[derive(Copy, Clone, Eq, PartialEq, Ord, PartialOrd, Hash, Debug, Structural)]
pub enum TagDataType {
    Master,
    UnsignedInt,
    Integer,
    Utf8,
    Binary,
    Float,
}

/// The data kind a name denotes, if the name is one of the six recognized
/// kind names.
pub open spec fn kind_of_name(s: Seq<char>) -> Option<TagDataType> {
    if s == "Master"@ {
        Some(TagDataType::Master)
    } else if s == "UnsignedInt"@ {
        Some(TagDataType::UnsignedInt)
    } else if s == "Integer"@ {
        Some(TagDataType::Integer)
    } else if s == "Utf8"@ {
        Some(TagDataType::Utf8)
    } else if s == "Binary"@ {
        Some(TagDataType::Binary)
    } else if s == "Float"@ {
        Some(TagDataType::Float)
    } else {
        None
    }
}

/// Resolves a declared kind name to its data kind; `None` for any name
/// outside the closed set of six.
pub fn data_kind_of_name(name: &str) -> (r: Option<TagDataType>)
    ensures
        r == kind_of_name(name@),
{
    if str_eq(name, "Master") {
        Some(TagDataType::Master)
    } else if str_eq(name, "UnsignedInt") {
        Some(TagDataType::UnsignedInt)
    } else if str_eq(name, "Integer") {
        Some(TagDataType::Integer)
    } else if str_eq(name, "Utf8") {
        Some(TagDataType::Utf8)
    } else if str_eq(name, "Binary") {
        Some(TagDataType::Binary)
    } else if str_eq(name, "Float") {
        Some(TagDataType::Float)
    } else {
        None
    }
}

} // verus!
