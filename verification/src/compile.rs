//! Schema compilation: resolving raw tag declarations into validated
//! definitions, and rejecting duplicate ids with a dual-site diagnostic.

use vstd::prelude::*;
use vstd::string::StringExecFns;
use crate::kind::{kind_of_name, data_kind_of_name, TagDataType};
use crate::literal::{parse_u64, parse_u64_spec};
use crate::schema::{unique_ids, Schema, TagDefinition};
use crate::text::{last_segment, last_segment_spec, path_ok};

verus! {

/// One raw tag declaration, before validation: a name, the id attribute's
/// integer-literal text, and the data-kind attribute's reference text (a
/// plain kind name or a `::`-separated path ending in one), absent when the
/// declaration lacks the attribute.
#[derive(Eq, PartialEq, Debug)]
pub struct TagDeclaration {
    pub name: String,
    pub id: String,
    pub data_type: Option<String>,
}

/// Which attribute of a declaration a diagnostic points at.
#[derive(Copy, Clone, Eq, PartialEq, Debug, Structural)]
pub enum AttributeKind {
    Id,
    DataType,
}

/// A compile-time failure.  Declarations are identified by their position
/// in the input list; `DuplicateId` names both sites.
#[derive(Eq, PartialEq, Debug)]
pub enum CompileError {
    DuplicateId { first: usize, second: usize, id: u64 },
    MissingDataType { decl: usize },
    UnknownDataType { decl: usize, name: String },
    MalformedAttribute { decl: usize, attribute: AttributeKind },
}

/// The mathematical shape of a `CompileError`: positions as `int`, the
/// offending name as its character sequence.
pub enum ErrorModel {
    DuplicateId { first: int, second: int, id: u64 },
    MissingDataType { decl: int },
    UnknownDataType { decl: int, name: Seq<char> },
    MalformedAttribute { decl: int, attribute: AttributeKind },
}

impl View for CompileError {
    type V = ErrorModel;

    open spec fn view(&self) -> ErrorModel {
        match self {
            CompileError::DuplicateId { first, second, id } => ErrorModel::DuplicateId {
                first: *first as int,
                second: *second as int,
                id: *id,
            },
            CompileError::MissingDataType { decl } => ErrorModel::MissingDataType {
                decl: *decl as int,
            },
            CompileError::UnknownDataType { decl, name } => ErrorModel::UnknownDataType {
                decl: *decl as int,
                name: name@,
            },
            CompileError::MalformedAttribute { decl, attribute } => ErrorModel::MalformedAttribute {
                decl: *decl as int,
                attribute: *attribute,
            },
        }
    }
}

/// The diagnostic a single declaration earns on its own, if any: a
/// malformed id literal, a missing or malformed data-kind attribute, or a
/// kind name outside the closed set.  The id attribute is examined first.
pub open spec fn decl_error(d: TagDeclaration, at: int) -> Option<ErrorModel> {
    if parse_u64_spec(d.id@) is None {
        Some(ErrorModel::MalformedAttribute { decl: at, attribute: AttributeKind::Id })
    } else if d.data_type is None {
        Some(ErrorModel::MissingDataType { decl: at })
    } else if !path_ok(d.data_type.unwrap()@) {
        Some(ErrorModel::MalformedAttribute { decl: at, attribute: AttributeKind::DataType })
    } else if kind_of_name(last_segment_spec(d.data_type.unwrap()@)) is None {
        Some(
            ErrorModel::UnknownDataType {
                decl: at,
                name: last_segment_spec(d.data_type.unwrap()@),
            },
        )
    } else {
        None
    }
}

/// The definition a clean declaration resolves to: the parsed id and the
/// kind named by the last segment of its data-kind reference.
pub open spec fn resolved_def(d: TagDeclaration) -> TagDefinition {
    TagDefinition {
        name: d.name,
        id: parse_u64_spec(d.id@).unwrap(),
        data_kind: kind_of_name(last_segment_spec(d.data_type.unwrap()@)).unwrap(),
    }
}

/// The first per-declaration diagnostic at or after position `from`, in
/// declaration order.
pub open spec fn first_decl_error_from(decls: Seq<TagDeclaration>, from: int) -> Option<ErrorModel>
    decreases decls.len() - from,
{
    if from < 0 || from >= decls.len() {
        None
    } else if decl_error(decls[from], from) is Some {
        decl_error(decls[from], from)
    } else {
        first_decl_error_from(decls, from + 1)
    }
}

/// The resolved ids of a declaration list, in order.
pub open spec fn ids_of(decls: Seq<TagDeclaration>) -> Seq<u64> {
    decls.map_values(|d: TagDeclaration| parse_u64_spec(d.id@).unwrap())
}

/// Whether some position before `at` holds the same id as `at`.
pub open spec fn dup_before(ids: Seq<u64>, at: int) -> bool {
    exists|j: int| 0 <= j < at && ids[j] == ids[at]
}

/// The first duplicated-id pair at or after position `from`: the second
/// site is the earliest position that repeats an earlier id, the first site
/// is that earlier position.
pub open spec fn first_dup_from(ids: Seq<u64>, from: int) -> Option<(int, int)>
    decreases ids.len() - from,
{
    if from < 0 || from >= ids.len() {
        None
    } else if dup_before(ids, from) {
        Some((choose|j: int| 0 <= j < from && ids[j] == ids[from], from))
    } else {
        first_dup_from(ids, from + 1)
    }
}

/// The diagnostic compilation reports for a declaration list, if any:
/// the first per-declaration error in order, and otherwise the first
/// duplicated id, reported with both declaration sites.
pub open spec fn compile_error_spec(decls: Seq<TagDeclaration>) -> Option<ErrorModel> {
    match first_decl_error_from(decls, 0) {
        Some(e) => Some(e),
        None => match first_dup_from(ids_of(decls), 0) {
            Some(p) => Some(
                ErrorModel::DuplicateId { first: p.0, second: p.1, id: ids_of(decls)[p.1] },
            ),
            None => None,
        },
    }
}

/// Resolves one declaration: parses the id literal and the data-kind
/// reference, yielding the validated definition or the declaration's own
/// diagnostic.
fn resolve_declaration(d: &TagDeclaration, at: usize) -> (r: Result<TagDefinition, CompileError>)
    ensures
        match r {
            Ok(def) => decl_error(*d, at as int) is None && def == resolved_def(*d),
            Err(e) => Some(e@) == decl_error(*d, at as int),
        },
{
    let id: u64 = match parse_u64(d.id.as_str()) {
        Some(v) => v,
        None => {
            return Err(
                CompileError::MalformedAttribute { decl: at, attribute: AttributeKind::Id },
            );
        },
    };
    let text = match &d.data_type {
        Some(t) => t,
        None => {
            return Err(CompileError::MissingDataType { decl: at });
        },
    };
    let segment = match last_segment(text.as_str()) {
        Some(s) => s,
        None => {
            return Err(
                CompileError::MalformedAttribute { decl: at, attribute: AttributeKind::DataType },
            );
        },
    };
    match data_kind_of_name(segment) {
        Some(k) => Ok(TagDefinition { name: d.name.clone(), id, data_kind: k }),
        None => Err(
            CompileError::UnknownDataType { decl: at, name: String::from_str(segment) },
        ),
    }
}

/// Compiles a declaration list into a validated schema.
///
/// Declarations are resolved in order and the first diagnostic wins: a
/// malformed or missing attribute or an unknown kind name on the earliest
/// offending declaration, then — only when every declaration resolves — the
/// earliest duplicated id, reported with both sites.  On success the schema
/// preserves declaration order and its ids are pairwise distinct.
#[verifier::loop_isolation(false)]
pub fn compile_schema(decls: &Vec<TagDeclaration>) -> (r: Result<Schema, CompileError>)
    ensures
        match r {
            Ok(s) => {
                &&& compile_error_spec(decls@) is None
                &&& s.wf()
                &&& s@.len() == decls@.len()
                &&& forall|i: int| 0 <= i < decls@.len() ==> s@[i] == resolved_def(decls@[i])
            },
            Err(e) => compile_error_spec(decls@) == Some(e@),
        },
{
    let ghost ids = ids_of(decls@);
    let n = decls.len();
    let mut defs: Vec<TagDefinition> = Vec::new();
    let mut i: usize = 0;
    while i < n
        invariant
            n == decls@.len(),
            0 <= i <= n,
            ids == ids_of(decls@),
            first_decl_error_from(decls@, 0) == first_decl_error_from(decls@, i as int),
            defs@.len() == i,
            forall|j: int| 0 <= j < i ==> decl_error(decls@[j], j) is None,
            forall|j: int| 0 <= j < i ==> defs@[j] == resolved_def(decls@[j]),
            forall|j: int| 0 <= j < i ==> defs@[j].id == ids[j],
        decreases n - i,
    {
        match resolve_declaration(&decls[i], i) {
            Ok(def) => {
                defs.push(def);
            },
            Err(e) => {
                return Err(e);
            },
        }
        i = i + 1;
    }
    proof {
        assert(first_decl_error_from(decls@, n as int) is None);
    }
    let mut second: usize = 0;
    while second < n
        invariant
            n == decls@.len(),
            n == defs@.len(),
            0 <= second <= n,
            ids == ids_of(decls@),
            forall|j: int| 0 <= j < n ==> decl_error(decls@[j], j) is None,
            forall|j: int| 0 <= j < n ==> defs@[j] == resolved_def(decls@[j]),
            forall|j: int| 0 <= j < n ==> defs@[j].id == ids[j],
            first_dup_from(ids, 0) == first_dup_from(ids, second as int),
            forall|j: int| 0 <= j < second ==> !dup_before(ids, j),
        decreases n - second,
    {
        let mut first: usize = 0;
        while first < second
            invariant
                n == decls@.len(),
                n == defs@.len(),
                0 <= first <= second < n,
                ids == ids_of(decls@),
                forall|j: int| 0 <= j < n ==> defs@[j].id == ids[j],
                forall|j: int| 0 <= j < first ==> ids[j] != ids[second as int],
            decreases second - first,
        {
            if defs[first].id == defs[second].id {
                proof {
                    lemma_prefix_distinct(ids, second as int);
                    assert(ids[first as int] == ids[second as int]);
                    assert(dup_before(ids, second as int)) by {
                        let w = first as int;
                        assert(0 <= w && w < second as int && ids[w] == ids[second as int]);
                    }
                    let j = choose|j: int|
                        0 <= j < second as int && ids[j] == ids[second as int];
                    assert(j == first as int);
                }
                return Err(
                    CompileError::DuplicateId {
                        first,
                        second,
                        id: defs[second].id,
                    },
                );
            }
            first = first + 1;
        }
        proof {
            assert(!dup_before(ids, second as int));
        }
        second = second + 1;
    }
    proof {
        assert(first_dup_from(ids, n as int) is None);
        assert forall|a: int, b: int| 0 <= a < b < defs@.len() implies defs@[a].id
            != defs@[b].id by {
            assert(!dup_before(ids, b));
            assert(ids[a] != ids[b]);
        }
        assert(unique_ids(defs@));
    }
    Ok(Schema::from_defs(defs))
}

/// In a prefix where no position repeats an earlier id, any two positions
/// hold distinct ids.
proof fn lemma_prefix_distinct(ids: Seq<u64>, upto: int)
    requires
        upto <= ids.len(),
        forall|j: int| 0 <= j < upto ==> !dup_before(ids, j),
    ensures
        forall|a: int, b: int| 0 <= a < b < upto ==> ids[a] != ids[b],
{
    assert forall|a: int, b: int| 0 <= a < b < upto implies ids[a] != ids[b] by {
        assert(!dup_before(ids, b));
    }
}

} // verus!
