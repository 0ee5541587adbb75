//! The signature resolver: determining the WebAssembly-facing type of a
//! host callable from its optional type annotations, cross-checked against
//! the module's declared signature.
//!
//! A callable with no annotations at all trusts the declared signature
//! verbatim.  Once any annotation is present, annotation is all-or-nothing:
//! the annotations are paired in declaration order with the declared
//! parameter types followed by the declared result types, and every
//! position must carry a compatible annotation.

use vstd::prelude::*;

use crate::types::{FunctionSignature, WasmType};

verus! {

/// One type annotation token on a host callable, already classified.  The
/// host side reads the textual annotation (`"i32"`, `"I32"`, the host's
/// integer class, ...) and hands the bridge its classification.
#[derive(Clone, Copy, PartialEq, Eq, Structural, Debug)]
pub enum TypeToken {
    /// An exact symbolic type name, such as `"i32"` or `"I32"`.
    Symbol(WasmType),
    /// The host's generic integer class: compatible with `I32` and `I64`.
    IntClass,
    /// The host's generic float class: compatible with `F32` and `F64`.
    FloatClass,
    /// A token naming no supported type.
    Unknown,
}

/// One annotation in declaration order: parameters first, then the
/// designated return annotation, if any.
#[derive(Clone, Copy, PartialEq, Eq, Structural, Debug)]
pub struct Annotation {
    /// Whether this annotation names the return position.
    pub is_result: bool,
    pub token: TypeToken,
}

/// Why a callable's annotations could not be resolved against the
/// declared signature.
#[derive(Clone, Copy, PartialEq, Eq, Structural, Debug)]
pub enum SignatureErrorKind {
    /// The module declares this import, but the registry supplies no
    /// callable for it.
    UnresolvedImport,
    /// Annotations are present, but their number differs from the number
    /// of declared parameter and result positions (annotation is
    /// all-or-nothing once any annotation is present).
    PartialAnnotation { annotated: usize, required: usize },
    /// More than one annotation targets the result position.
    MultipleResultAnnotations,
    /// The annotation at this position names no supported type.
    UnknownToken { position: usize },
    /// The annotation at this position resolves to a type that conflicts
    /// with the declared type at that position.
    TypeConflict { position: usize, expected: WasmType },
    /// A return annotation sits at a parameter position, or a parameter
    /// annotation sits at the result position.
    MisplacedAnnotation { position: usize },
}

/// A resolution failure, tagged with the import it concerns.
#[derive(Debug)]
pub struct SignatureError {
    pub namespace: String,
    pub name: String,
    pub kind: SignatureErrorKind,
}

/// The declared type a position is paired with: the parameter types in
/// order, then the result types.
pub open spec fn expected_at(params: Seq<WasmType>, results: Seq<WasmType>, i: int) -> WasmType {
    if i < params.len() {
        params[i]
    } else {
        results[i - params.len()]
    }
}

/// Compatibility of one annotation token with a declared type: an exact
/// symbolic match, or a generic numeric-class hint against the types of
/// its class.
pub open spec fn token_matches(token: TypeToken, expected: WasmType) -> bool {
    match token {
        TypeToken::Symbol(t) => t == expected,
        TypeToken::IntClass => expected == WasmType::I32 || expected == WasmType::I64,
        TypeToken::FloatClass => expected == WasmType::F32 || expected == WasmType::F64,
        TypeToken::Unknown => false,
    }
}

/// How many annotations target the result position.
pub open spec fn result_annotation_count(anns: Seq<Annotation>) -> int
    decreases anns.len(),
{
    if anns.len() == 0 {
        0
    } else {
        result_annotation_count(anns.drop_last()) + if anns.last().is_result {
            1int
        } else {
            0int
        }
    }
}

/// The first fault of the annotation at position `i`, if any: an
/// unsupported token, a type conflict with the declared type at that
/// position, or a misalignment between the annotation's target and the
/// position's role.
pub open spec fn position_error(
    params: Seq<WasmType>,
    results: Seq<WasmType>,
    ann: Annotation,
    i: int,
) -> Option<SignatureErrorKind> {
    if ann.token == TypeToken::Unknown {
        Some(SignatureErrorKind::UnknownToken { position: i as usize })
    } else if !token_matches(ann.token, expected_at(params, results, i)) {
        Some(SignatureErrorKind::TypeConflict {
            position: i as usize,
            expected: expected_at(params, results, i),
        })
    } else if ann.is_result != (i >= params.len()) {
        Some(SignatureErrorKind::MisplacedAnnotation { position: i as usize })
    } else {
        None
    }
}

/// The first position fault at or after position `i`, if any.
pub open spec fn scan_positions(
    params: Seq<WasmType>,
    results: Seq<WasmType>,
    anns: Seq<Annotation>,
    i: int,
) -> Option<SignatureErrorKind>
    decreases anns.len() - i,
{
    if i < 0 || i >= anns.len() {
        None
    } else {
        match position_error(params, results, anns[i], i) {
            Some(e) => Some(e),
            None => scan_positions(params, results, anns, i + 1),
        }
    }
}

/// The outcome of resolving a callable's annotations against a declared
/// signature: `None` means resolution succeeds, and the effective
/// signature is the declared one verbatim; `Some` carries the exact
/// failure.
pub open spec fn resolve_check(
    params: Seq<WasmType>,
    results: Seq<WasmType>,
    anns: Seq<Annotation>,
) -> Option<SignatureErrorKind> {
    if anns.len() == 0 {
        None
    } else if anns.len() != params.len() + results.len() {
        Some(SignatureErrorKind::PartialAnnotation {
            annotated: anns.len() as usize,
            required: (params.len() + results.len()) as usize,
        })
    } else if result_annotation_count(anns) > 1 {
        Some(SignatureErrorKind::MultipleResultAnnotations)
    } else {
        scan_positions(params, results, anns, 0)
    }
}

/// Full annotation consistency: one annotation per declared position,
/// each compatible with the declared type there, parameter annotations at
/// parameter positions and the return annotation at the result position.
pub open spec fn annotations_consistent(
    params: Seq<WasmType>,
    results: Seq<WasmType>,
    anns: Seq<Annotation>,
) -> bool {
    &&& anns.len() == params.len() + results.len()
    &&& forall|i: int|
        0 <= i < anns.len() ==> position_error(params, results, anns[i], i) is None
}

/// Resolve the effective signature of one callable: with no annotations,
/// the declared signature is trusted verbatim; with annotations, they are
/// checked position by position and the declared signature is returned
/// exactly when they are fully consistent with it.  The result is pinned
/// down by [`resolve_check`].
pub fn resolve_signature(declared: &FunctionSignature, annotations: &Vec<Annotation>) -> (r: Result<
    FunctionSignature,
    SignatureErrorKind,
>)
    requires
        declared.params@.len() + declared.results@.len() <= usize::MAX,
    ensures
        match r {
            Ok(s) => resolve_check(declared.params@, declared.results@, annotations@) is None
                && s.params@ == declared.params@ && s.results@ == declared.results@,
            Err(e) => resolve_check(declared.params@, declared.results@, annotations@) == Some(e),
        },
{
    let ghost params = declared.params@;
    let ghost results = declared.results@;
    if annotations.len() == 0 {
        return Ok(declared.duplicate());
    }
    let required = declared.params.len() + declared.results.len();
    if annotations.len() != required {
        return Err(SignatureErrorKind::PartialAnnotation {
            annotated: annotations.len(),
            required,
        });
    }
    let mut count: usize = 0;
    let mut i: usize = 0;
    while i < annotations.len()
        invariant
            i <= annotations@.len(),
            count == result_annotation_count(annotations@.subrange(0, i as int)),
            count <= i,
        decreases annotations@.len() - i,
    {
        proof {
            assert(annotations@.subrange(0, i + 1).drop_last() =~= annotations@.subrange(
                0,
                i as int,
            ));
            assert(annotations@.subrange(0, i + 1).last() == annotations@[i as int]);
        }
        if annotations[i].is_result {
            count = count + 1;
        }
        i = i + 1;
    }
    proof {
        assert(annotations@.subrange(0, annotations@.len() as int) =~= annotations@);
    }
    if count > 1 {
        return Err(SignatureErrorKind::MultipleResultAnnotations);
    }
    let mut j: usize = 0;
    while j < annotations.len()
        invariant
            j <= annotations@.len(),
            annotations@.len() > 0,
            annotations@.len() == params.len() + results.len(),
            result_annotation_count(annotations@) <= 1,
            params == declared.params@,
            results == declared.results@,
            scan_positions(params, results, annotations@, 0) == scan_positions(
                params,
                results,
                annotations@,
                j as int,
            ),
        decreases annotations@.len() - j,
    {
        let ann = annotations[j];
        let expected = if j < declared.params.len() {
            declared.params[j]
        } else {
            declared.results[j - declared.params.len()]
        };
        proof {
            assert(expected == expected_at(params, results, j as int));
        }
        let token_ok = match ann.token {
            TypeToken::Symbol(t) => t == expected,
            TypeToken::IntClass => expected == WasmType::I32 || expected == WasmType::I64,
            TypeToken::FloatClass => expected == WasmType::F32 || expected == WasmType::F64,
            TypeToken::Unknown => false,
        };
        if matches!(ann.token, TypeToken::Unknown) {
            return Err(SignatureErrorKind::UnknownToken { position: j });
        }
        if !token_ok {
            return Err(SignatureErrorKind::TypeConflict { position: j, expected });
        }
        if ann.is_result != (j >= declared.params.len()) {
            return Err(SignatureErrorKind::MisplacedAnnotation { position: j });
        }
        j = j + 1;
    }
    Ok(declared.duplicate())
}

/// Untyped passthrough law: a callable with no annotations at all resolves
/// successfully, and the effective signature is the declared one exactly
/// (parameter order and result arity preserved).
pub proof fn lemma_untyped_passthrough(params: Seq<WasmType>, results: Seq<WasmType>)
    ensures
        resolve_check(params, results, Seq::<Annotation>::empty()) is None,
{
}

/// Every position at or after `i` is fault-free exactly when the scan
/// from `i` reports no fault.
proof fn lemma_scan_none_iff(
    params: Seq<WasmType>,
    results: Seq<WasmType>,
    anns: Seq<Annotation>,
    i: int,
)
    requires
        0 <= i <= anns.len(),
    ensures
        scan_positions(params, results, anns, i) is None <==> forall|j: int|
            i <= j < anns.len() ==> position_error(params, results, anns[j], j) is None,
    decreases anns.len() - i,
{
    if i < anns.len() {
        lemma_scan_none_iff(params, results, anns, i + 1);
    }
}

/// When every annotation is aligned with its position's role, the number
/// of return annotations equals the number of declared results.
proof fn lemma_aligned_result_count(
    params: Seq<WasmType>,
    results: Seq<WasmType>,
    anns: Seq<Annotation>,
)
    requires
        anns.len() == params.len() + results.len(),
        forall|j: int| 0 <= j < anns.len() ==> anns[j].is_result == (j >= params.len()),
    ensures
        result_annotation_count(anns) == results.len(),
    decreases anns.len(),
{
    if anns.len() > 0 {
        let shorter = anns.drop_last();
        if results.len() > 0 {
            lemma_aligned_result_count(params, results.drop_last(), shorter);
        } else {
            lemma_aligned_result_count(params.drop_last(), results, shorter);
        }
    }
}

/// Annotated resolution law: with annotations present, resolution
/// succeeds if and only if the annotations are fully consistent with the
/// declared signature; one inconsistent position suffices to fail.
pub proof fn lemma_annotated_resolution(
    params: Seq<WasmType>,
    results: Seq<WasmType>,
    anns: Seq<Annotation>,
)
    requires
        anns.len() > 0,
        results.len() <= 1,
    ensures
        resolve_check(params, results, anns) is None <==> annotations_consistent(
            params,
            results,
            anns,
        ),
{
    lemma_scan_none_iff(params, results, anns, 0);
    if annotations_consistent(params, results, anns) {
        assert(forall|j: int| 0 <= j < anns.len() ==> anns[j].is_result == (j >= params.len()))
            by {
            assert forall|j: int| 0 <= j < anns.len() implies anns[j].is_result == (j
                >= params.len()) by {
                assert(position_error(params, results, anns[j], j) is None);
            }
        }
        lemma_aligned_result_count(params, results, anns);
    }
}

} // verus!
