//! The schema-wide guarantees of the dispatch interfaces, stated and proved
//! once over the specification model: totality and unambiguity of lookup,
//! lossless constructor/accessor round trips, rejection of kind mismatches
//! and unknown ids, the raw fallback's behaviour, and the dual-site
//! duplicate-id diagnostic.

use vstd::prelude::*;
use crate::compile::{
    compile_error_spec, decl_error, dup_before, first_decl_error_from, first_dup_from, ids_of,
    ErrorModel, TagDeclaration,
};
use crate::kind::TagDataType;
use crate::schema::{
    ctor_accepts, declared_kind, declared_kind_from, declares, lookup_kind, unique_ids,
    TagDefinition,
};
use crate::value::{
    binary_data_spec, float_bits_data_spec, master_data_spec, signed_int_data_spec, tag_id_spec,
    unsigned_int_data_spec, utf8_data_spec, Master, TagValue,
};

verus! {

proof fn lemma_declared_kind_from_none(defs: Seq<TagDefinition>, id: u64, k: int)
    requires
        0 <= k,
        forall|j: int| k <= j < defs.len() ==> defs[j].id != id,
    ensures
        declared_kind_from(defs, id, k) is None,
    decreases defs.len() - k,
{
    if k < defs.len() {
        lemma_declared_kind_from_none(defs, id, k + 1);
    }
}

proof fn lemma_declared_kind_from_at(defs: Seq<TagDefinition>, id: u64, at: int, k: int)
    requires
        unique_ids(defs),
        0 <= k <= at < defs.len(),
        defs[at].id == id,
    ensures
        declared_kind_from(defs, id, k) == Some(defs[at].data_kind),
    decreases at - k,
{
    if k < at {
        assert(defs[k].id != defs[at].id);
        lemma_declared_kind_from_at(defs, id, at, k + 1);
    }
}

/// Data-kind lookup is total and unambiguous: on a schema with pairwise
/// distinct ids, an id declared at any position resolves to exactly the
/// kind declared there, and an undeclared id resolves to `Binary`.
pub proof fn lemma_lookup_total(defs: Seq<TagDefinition>, id: u64)
    requires
        unique_ids(defs),
    ensures
        !declares(defs, id) ==> lookup_kind(defs, id) == TagDataType::Binary,
        forall|i: int|
            0 <= i < defs.len() && defs[i].id == id ==> lookup_kind(defs, id)
                == defs[i].data_kind,
{
    if !declares(defs, id) {
        assert forall|j: int| 0 <= j < defs.len() implies defs[j].id != id by {
            if defs[j].id == id {
                assert(declares(defs, id));
            }
        }
        lemma_declared_kind_from_none(defs, id, 0);
    }
    assert forall|i: int|
        0 <= i < defs.len() && defs[i].id == id implies lookup_kind(defs, id)
        == defs[i].data_kind by {
        lemma_declared_kind_from_at(defs, id, i, 0);
    }
}

/// Round trip for `UnsignedInt`: when the schema declares `id` with that
/// kind, the value its typed constructor returns — `UnsignedInt(id, data)`
/// by the constructor's contract — yields `id` from the id accessor and
/// `data`, unchanged, from the matching typed accessor.
pub proof fn lemma_round_trip_unsigned_int(defs: Seq<TagDefinition>, id: u64, data: u64)
    requires
        ctor_accepts(defs, id, TagDataType::UnsignedInt),
    ensures
        tag_id_spec(TagValue::UnsignedInt(id, data)) == id,
        unsigned_int_data_spec(TagValue::UnsignedInt(id, data)) == Some(data),
{
}

/// Round trip for `Integer`, as for `UnsignedInt`.
pub proof fn lemma_round_trip_integer(defs: Seq<TagDefinition>, id: u64, data: i64)
    requires
        ctor_accepts(defs, id, TagDataType::Integer),
    ensures
        tag_id_spec(TagValue::Integer(id, data)) == id,
        signed_int_data_spec(TagValue::Integer(id, data)) == Some(data),
{
}

/// Round trip for `Utf8`: the text payload comes back character for
/// character.
pub proof fn lemma_round_trip_utf8(defs: Seq<TagDefinition>, id: u64, data: String)
    requires
        ctor_accepts(defs, id, TagDataType::Utf8),
    ensures
        tag_id_spec(TagValue::Utf8(id, data)) == id,
        utf8_data_spec(TagValue::Utf8(id, data)) == Some(data@),
{
}

/// Round trip for `Binary`: the byte payload comes back byte for byte.
pub proof fn lemma_round_trip_binary(defs: Seq<TagDefinition>, id: u64, data: Vec<u8>)
    requires
        ctor_accepts(defs, id, TagDataType::Binary),
    ensures
        tag_id_spec(TagValue::Binary(id, data)) == id,
        binary_data_spec(TagValue::Binary(id, data)) == Some(data@),
{
}

/// Round trip for `Float`: the payload bit pattern comes back unchanged.
pub proof fn lemma_round_trip_float(defs: Seq<TagDefinition>, id: u64, bits: u64)
    requires
        ctor_accepts(defs, id, TagDataType::Float),
    ensures
        tag_id_spec(TagValue::Float(id, bits)) == id,
        float_bits_data_spec(TagValue::Float(id, bits)) == Some(bits),
{
}

/// Round trip for `Master`: the container payload, in any of its three
/// states, comes back unchanged with its children in order.
pub proof fn lemma_round_trip_master(defs: Seq<TagDefinition>, id: u64, data: Master)
    requires
        ctor_accepts(defs, id, TagDataType::Master),
    ensures
        tag_id_spec(TagValue::Master(id, data)) == id,
        master_data_spec(TagValue::Master(id, data)) == Some(data),
{
}

/// A typed constructor of any kind other than the declared one rejects a
/// declared id: at most one of the six constructors accepts any id.
pub proof fn lemma_constructor_kind_mismatch(defs: Seq<TagDefinition>, id: u64, k: TagDataType)
    requires
        declared_kind(defs, id) != Some(k),
    ensures
        !ctor_accepts(defs, id, k),
{
}

/// For an id absent from the schema, lookup degrades to `Binary` and every
/// typed constructor declines; only the raw constructor — which by its
/// contract always succeeds — produces a value for it.
pub proof fn lemma_unknown_id(defs: Seq<TagDefinition>, id: u64, k: TagDataType)
    requires
        !declares(defs, id),
    ensures
        lookup_kind(defs, id) == TagDataType::Binary,
        !ctor_accepts(defs, id, k),
{
    assert forall|j: int| 0 <= j < defs.len() implies defs[j].id != id by {
        if defs[j].id == id {
            assert(declares(defs, id));
        }
    }
    lemma_declared_kind_from_none(defs, id, 0);
}

/// The raw fallback exposes exactly what it stores: its id accessor returns
/// the stored id, its binary accessor the stored bytes, and every other
/// typed accessor returns nothing.
pub proof fn lemma_raw_tag_accessors(id: u64, bytes: Vec<u8>)
    ensures
        tag_id_spec(TagValue::RawTag(id, bytes)) == id,
        binary_data_spec(TagValue::RawTag(id, bytes)) == Some(bytes@),
        unsigned_int_data_spec(TagValue::RawTag(id, bytes)) is None,
        signed_int_data_spec(TagValue::RawTag(id, bytes)) is None,
        utf8_data_spec(TagValue::RawTag(id, bytes)) is None,
        float_bits_data_spec(TagValue::RawTag(id, bytes)) is None,
        master_data_spec(TagValue::RawTag(id, bytes)) is None,
{
}

proof fn lemma_first_decl_error_none(decls: Seq<TagDeclaration>, k: int)
    requires
        0 <= k,
        forall|j: int| 0 <= j < decls.len() ==> decl_error(decls[j], j) is None,
    ensures
        first_decl_error_from(decls, k) is None,
    decreases decls.len() - k,
{
    if k < decls.len() {
        lemma_first_decl_error_none(decls, k + 1);
    }
}

proof fn lemma_first_dup_sites(ids: Seq<u64>, k: int)
    requires
        0 <= k,
    ensures
        first_dup_from(ids, k) matches Some(p) ==> 0 <= p.0 < p.1 < ids.len() && ids[p.0]
            == ids[p.1],
    decreases ids.len() - k,
{
    if k < ids.len() && !dup_before(ids, k) {
        lemma_first_dup_sites(ids, k + 1);
    }
}

proof fn lemma_first_dup_some(ids: Seq<u64>, a: int, b: int, k: int)
    requires
        0 <= a < b < ids.len(),
        ids[a] == ids[b],
        0 <= k <= b,
    ensures
        first_dup_from(ids, k) is Some,
    decreases b - k,
{
    if !dup_before(ids, k) {
        assert(k != b) by {
            if k == b {
                assert(0 <= a && a < b && ids[a] == ids[b]);
                assert(dup_before(ids, b));
            }
        }
        lemma_first_dup_some(ids, a, b, k + 1);
    }
}

/// A declaration list whose declarations all resolve but in which two
/// declarations share an id never compiles: the outcome is deterministically
/// a `DuplicateId` diagnostic, and it names both declaration sites of a
/// genuinely duplicated id.
pub proof fn lemma_duplicate_id_rejected(decls: Seq<TagDeclaration>, a: int, b: int)
    requires
        forall|j: int| 0 <= j < decls.len() ==> decl_error(decls[j], j) is None,
        0 <= a < b < decls.len(),
        ids_of(decls)[a] == ids_of(decls)[b],
    ensures
        compile_error_spec(decls) matches Some(e)
            && e matches ErrorModel::DuplicateId { first, second, id }
            && 0 <= first < second < decls.len()
            && ids_of(decls)[first] == ids_of(decls)[second]
            && id == ids_of(decls)[second],
{
    let ids = ids_of(decls);
    lemma_first_decl_error_none(decls, 0);
    lemma_first_dup_some(ids, a, b, 0);
    lemma_first_dup_sites(ids, 0);
}

} // verus!
