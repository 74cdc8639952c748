//! Runtime tag values and the value-level dispatch interface: the id
//! accessor and one typed accessor per payload kind.

use vstd::prelude::*;

verus! {

/// The payload of a container (`Master`) tag.  A container may be reported
/// incrementally (`Start`, then children, then `End`) or wholly buffered
/// (`Full` with its ordered children); which state is produced is the
/// streaming collaborator's policy, never this library's.
#[derive(Eq, PartialEq, Ord, PartialOrd, Hash, Debug)]
pub enum Master {
    Start,
    End,
    Full(Vec<TagValue>),
}

/// One decoded tag: a declared-kind value carrying its id and mapped
/// payload, or the synthesized `RawTag` fallback carrying an id and its
/// undecoded bytes.  Each data kind maps to one payload representation:
/// `Master` to the container node, `UnsignedInt` to a 64-bit unsigned
/// integer, `Integer` to a 64-bit signed integer, `Utf8` to a text string,
/// `Binary` to a byte sequence, and `Float` to a 64-bit float carried as
/// its IEEE 754 bit pattern, so that the verified dispatch stays free of
/// floating-point arithmetic; converting to and from `f64` is one
/// `to_bits`/`from_bits` call at the caller.
#[derive(Eq, PartialEq, Ord, PartialOrd, Hash, Debug)]
pub enum TagValue {
    UnsignedInt(u64, u64),
    Integer(u64, i64),
    Utf8(u64, String),
    Binary(u64, Vec<u8>),
    Float(u64, u64),
    Master(u64, Master),
    RawTag(u64, Vec<u8>),
}

/// The id a value carries, whatever its kind.
pub open spec fn tag_id_spec(v: TagValue) -> u64 {
    match v {
        TagValue::UnsignedInt(id, _) => id,
        TagValue::Integer(id, _) => id,
        TagValue::Utf8(id, _) => id,
        TagValue::Binary(id, _) => id,
        TagValue::Float(id, _) => id,
        TagValue::Master(id, _) => id,
        TagValue::RawTag(id, _) => id,
    }
}

/// The unsigned-integer payload, when the value is of that kind.
pub open spec fn unsigned_int_data_spec(v: TagValue) -> Option<u64> {
    match v {
        TagValue::UnsignedInt(_, d) => Some(d),
        _ => None,
    }
}

/// The signed-integer payload, when the value is of that kind.
pub open spec fn signed_int_data_spec(v: TagValue) -> Option<i64> {
    match v {
        TagValue::Integer(_, d) => Some(d),
        _ => None,
    }
}

/// The text payload, when the value is of that kind.
pub open spec fn utf8_data_spec(v: TagValue) -> Option<Seq<char>> {
    match v {
        TagValue::Utf8(_, d) => Some(d@),
        _ => None,
    }
}

/// The byte payload.  `RawTag` bytes are exposed as binary too: fallback
/// data is always byte-oriented.
pub open spec fn binary_data_spec(v: TagValue) -> Option<Seq<u8>> {
    match v {
        TagValue::Binary(_, d) => Some(d@),
        TagValue::RawTag(_, d) => Some(d@),
        _ => None,
    }
}

/// The float payload as its IEEE 754 bit pattern, when the value is of that
/// kind.
pub open spec fn float_bits_data_spec(v: TagValue) -> Option<u64> {
    match v {
        TagValue::Float(_, d) => Some(d),
        _ => None,
    }
}

/// The container payload, when the value is of that kind.
pub open spec fn master_data_spec(v: TagValue) -> Option<Master> {
    match v {
        TagValue::Master(_, d) => Some(d),
        _ => None,
    }
}

impl TagValue {
    /// The numeric id of this value, defined for every instance including
    /// `RawTag`.
    pub fn get_id(&self) -> (r: u64)
        ensures
            r == tag_id_spec(*self),
    {
        match self {
            TagValue::UnsignedInt(id, _) => *id,
            TagValue::Integer(id, _) => *id,
            TagValue::Utf8(id, _) => *id,
            TagValue::Binary(id, _) => *id,
            TagValue::Float(id, _) => *id,
            TagValue::Master(id, _) => *id,
            TagValue::RawTag(id, _) => *id,
        }
    }

    /// The unsigned-integer payload, or `None` when this value is of another
    /// kind.
    pub fn as_unsigned_int(&self) -> (r: Option<&u64>)
        ensures
            r is Some <==> unsigned_int_data_spec(*self) is Some,
            r matches Some(d) ==> Some(*d) == unsigned_int_data_spec(*self),
    {
        match self {
            TagValue::UnsignedInt(_, d) => Some(d),
            _ => None,
        }
    }

    /// The signed-integer payload, or `None` when this value is of another
    /// kind.
    pub fn as_signed_int(&self) -> (r: Option<&i64>)
        ensures
            r is Some <==> signed_int_data_spec(*self) is Some,
            r matches Some(d) ==> Some(*d) == signed_int_data_spec(*self),
    {
        match self {
            TagValue::Integer(_, d) => Some(d),
            _ => None,
        }
    }

    /// The text payload, or `None` when this value is of another kind.
    pub fn as_utf8(&self) -> (r: Option<&str>)
        ensures
            r is Some <==> utf8_data_spec(*self) is Some,
            r matches Some(d) ==> Some(d@) == utf8_data_spec(*self),
    {
        match self {
            TagValue::Utf8(_, d) => Some(d.as_str()),
            _ => None,
        }
    }

    /// The byte payload of a `Binary` value, and also of a `RawTag`, whose
    /// stored bytes are byte-oriented fallback data; `None` for every other
    /// kind.
    pub fn as_binary(&self) -> (r: Option<&[u8]>)
        ensures
            r is Some <==> binary_data_spec(*self) is Some,
            r matches Some(d) ==> Some(d@) == binary_data_spec(*self),
    {
        match self {
            TagValue::Binary(_, d) => Some(d.as_slice()),
            TagValue::RawTag(_, d) => Some(d.as_slice()),
            _ => None,
        }
    }

    /// The float payload as its IEEE 754 bit pattern, or `None` when this
    /// value is of another kind.
    pub fn as_float(&self) -> (r: Option<&u64>)
        ensures
            r is Some <==> float_bits_data_spec(*self) is Some,
            r matches Some(d) ==> Some(*d) == float_bits_data_spec(*self),
    {
        match self {
            TagValue::Float(_, d) => Some(d),
            _ => None,
        }
    }

    /// The container payload, or `None` when this value is of another kind.
    pub fn as_master(&self) -> (r: Option<&Master>)
        ensures
            r is Some <==> master_data_spec(*self) is Some,
            r matches Some(d) ==> Some(*d) == master_data_spec(*self),
    {
        match self {
            TagValue::Master(_, d) => Some(d),
            _ => None,
        }
    }
}

} // verus!
