//! The validated schema and the schema-level dispatch interface: data-kind
//! lookup, one typed constructor per payload kind, and the infallible raw
//! constructor.

use vstd::prelude::*;
use vstd::slice::slice_to_vec;
use crate::kind::TagDataType;
use crate::value::{Master, TagValue};

verus! {

/// One validated tag declaration: a name (kept only for readability of
/// whatever is generated from the schema), the 64-bit wire id, and the
/// declared payload kind.
#[derive(Eq, PartialEq, Debug)]
pub struct TagDefinition {
    pub name: String,
    pub id: u64,
    pub data_kind: TagDataType,
}

/// No two definitions share an id.
pub open spec fn unique_ids(defs: Seq<TagDefinition>) -> bool {
    forall|i: int, j: int| 0 <= i < j < defs.len() ==> defs[i].id != defs[j].id
}

/// The declared kind of `id` found by scanning the definitions in order
/// from position `from`.
pub open spec fn declared_kind_from(defs: Seq<TagDefinition>, id: u64, from: int) -> Option<
    TagDataType,
>
    decreases defs.len() - from,
{
    if from < 0 || from >= defs.len() {
        None
    } else if defs[from].id == id {
        Some(defs[from].data_kind)
    } else {
        declared_kind_from(defs, id, from + 1)
    }
}

/// The declared kind of `id`, or `None` when no definition declares it.
pub open spec fn declared_kind(defs: Seq<TagDefinition>, id: u64) -> Option<TagDataType> {
    declared_kind_from(defs, id, 0)
}

/// Whether some definition declares `id`.
pub open spec fn declares(defs: Seq<TagDefinition>, id: u64) -> bool {
    exists|i: int| 0 <= i < defs.len() && defs[i].id == id
}

/// What the data-kind lookup returns: the declared kind when `id` is
/// declared, and `Binary` otherwise — unknown tags are opaque binary, never
/// an error.
pub open spec fn lookup_kind(defs: Seq<TagDefinition>, id: u64) -> TagDataType {
    match declared_kind(defs, id) {
        Some(k) => k,
        None => TagDataType::Binary,
    }
}

/// Whether the typed constructor for kind `k` accepts `id`: exactly when
/// the schema declares `id` with that kind.
pub open spec fn ctor_accepts(defs: Seq<TagDefinition>, id: u64, k: TagDataType) -> bool {
    declared_kind(defs, id) == Some(k)
}

/// A validated schema: the ordered user declarations, pairwise distinct in
/// id.  The synthesized `RawTag` fallback is not a row of this table; it is
/// the unconditional default of every dispatch path below.
#[derive(Eq, PartialEq, Debug)]
pub struct Schema {
    defs: Vec<TagDefinition>,
}

impl View for Schema {
    type V = Seq<TagDefinition>;

    closed spec fn view(&self) -> Seq<TagDefinition> {
        self.defs@
    }
}

impl Schema {
    /// The schema invariant: ids are pairwise distinct.
    pub open spec fn wf(&self) -> bool {
        unique_ids(self@)
    }

    /// Wraps an already-validated definition table.  Only the compiler in
    /// this crate can build a `Schema`, so the invariant always holds.
    pub(crate) fn from_defs(defs: Vec<TagDefinition>) -> (r: Schema)
        requires
            unique_ids(defs@),
        ensures
            r@ == defs@,
            r.wf(),
    {
        Schema { defs }
    }

    /// The validated definitions, in declaration order.
    pub fn definitions(&self) -> (r: &Vec<TagDefinition>)
        ensures
            r@ == self@,
    {
        &self.defs
    }

    /// Finds the first definition of `id`, as an index into the table.
    fn find(&self, id: u64) -> (r: Option<usize>)
        ensures
            match r {
                Some(i) => i < self@.len() && self@[i as int].id == id && declared_kind(self@, id)
                    == Some(self@[i as int].data_kind),
                None => declared_kind(self@, id) is None,
            },
    {
        let n = self.defs.len();
        let mut i: usize = 0;
        while i < n
            invariant
                n == self@.len(),
                0 <= i <= n,
                declared_kind(self@, id) == declared_kind_from(self@, id, i as int),
            decreases n - i,
        {
            if self.defs[i].id == id {
                return Some(i);
            }
            i = i + 1;
        }
        None
    }

    /// Data-kind lookup: the declared kind of `id`, or `Binary` for any id
    /// absent from the schema.  Total: every id has exactly one answer.
    pub fn get_tag_data_type(&self, id: u64) -> (r: TagDataType)
        ensures
            r == lookup_kind(self@, id),
    {
        match self.find(id) {
            Some(i) => self.defs[i].data_kind,
            None => TagDataType::Binary,
        }
    }

    /// Typed constructor for `UnsignedInt`: the value, only when `id` is
    /// declared with that kind.
    pub fn get_unsigned_int_tag(&self, id: u64, data: u64) -> (r: Option<TagValue>)
        ensures
            r is Some <==> ctor_accepts(self@, id, TagDataType::UnsignedInt),
            r matches Some(v) ==> v == TagValue::UnsignedInt(id, data),
    {
        match self.find(id) {
            Some(i) => {
                if self.defs[i].data_kind == TagDataType::UnsignedInt {
                    Some(TagValue::UnsignedInt(id, data))
                } else {
                    None
                }
            },
            None => None,
        }
    }

    /// Typed constructor for `Integer`: the value, only when `id` is
    /// declared with that kind.
    pub fn get_signed_int_tag(&self, id: u64, data: i64) -> (r: Option<TagValue>)
        ensures
            r is Some <==> ctor_accepts(self@, id, TagDataType::Integer),
            r matches Some(v) ==> v == TagValue::Integer(id, data),
    {
        match self.find(id) {
            Some(i) => {
                if self.defs[i].data_kind == TagDataType::Integer {
                    Some(TagValue::Integer(id, data))
                } else {
                    None
                }
            },
            None => None,
        }
    }

    /// Typed constructor for `Utf8`: the value, only when `id` is declared
    /// with that kind.
    pub fn get_utf8_tag(&self, id: u64, data: String) -> (r: Option<TagValue>)
        ensures
            r is Some <==> ctor_accepts(self@, id, TagDataType::Utf8),
            r matches Some(v) ==> v == TagValue::Utf8(id, data),
    {
        match self.find(id) {
            Some(i) => {
                if self.defs[i].data_kind == TagDataType::Utf8 {
                    Some(TagValue::Utf8(id, data))
                } else {
                    None
                }
            },
            None => None,
        }
    }

    /// Typed constructor for `Binary`: the value, only when `id` is declared
    /// with that kind.
    pub fn get_binary_tag(&self, id: u64, data: &[u8]) -> (r: Option<TagValue>)
        ensures
            r is Some <==> ctor_accepts(self@, id, TagDataType::Binary),
            r matches Some(v) ==> v matches TagValue::Binary(i, d) && i == id && d@ == data@,
    {
        match self.find(id) {
            Some(i) => {
                if self.defs[i].data_kind == TagDataType::Binary {
                    Some(TagValue::Binary(id, slice_to_vec(data)))
                } else {
                    None
                }
            },
            None => None,
        }
    }

    /// Typed constructor for `Float`: the value, only when `id` is declared
    /// with that kind.  The payload is the IEEE 754 bit pattern of the
    /// 64-bit float.
    pub fn get_float_tag(&self, id: u64, bits: u64) -> (r: Option<TagValue>)
        ensures
            r is Some <==> ctor_accepts(self@, id, TagDataType::Float),
            r matches Some(v) ==> v == TagValue::Float(id, bits),
    {
        match self.find(id) {
            Some(i) => {
                if self.defs[i].data_kind == TagDataType::Float {
                    Some(TagValue::Float(id, bits))
                } else {
                    None
                }
            },
            None => None,
        }
    }

    /// Typed constructor for `Master`: the value, only when `id` is declared
    /// with that kind.  The container payload carries any of the three
    /// states (`Start`, `End`, `Full`).
    pub fn get_master_tag(&self, id: u64, data: Master) -> (r: Option<TagValue>)
        ensures
            r is Some <==> ctor_accepts(self@, id, TagDataType::Master),
            r matches Some(v) ==> v == TagValue::Master(id, data),
    {
        match self.find(id) {
            Some(i) => {
                if self.defs[i].data_kind == TagDataType::Master {
                    Some(TagValue::Master(id, data))
                } else {
                    None
                }
            },
            None => None,
        }
    }

    /// The id of an already-constructed value; a schema-side convenience
    /// for the value-level id accessor.
    pub fn get_tag_id(item: &TagValue) -> (r: u64)
        ensures
            r == crate::value::tag_id_spec(*item),
    {
        item.get_id()
    }

    /// The raw constructor: always succeeds, whatever the id, yielding the
    /// synthesized `RawTag` fallback.  This is the guaranteed default after
    /// every typed constructor has declined.
    pub fn get_raw_tag(&self, id: u64, data: &[u8]) -> (r: TagValue)
        ensures
            r matches TagValue::RawTag(i, d) && i == id && d@ == data@,
    {
        TagValue::RawTag(id, slice_to_vec(data))
    }
}

} // verus!
