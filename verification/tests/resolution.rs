use wasm_bridge::signature::{resolve_signature, Annotation, SignatureErrorKind, TypeToken};
use wasm_bridge::types::{FunctionSignature, WasmType};

fn signature(params: Vec<WasmType>, results: Vec<WasmType>) -> FunctionSignature {
    FunctionSignature::new(params, results).expect("well-formed signature")
}

fn param(token: TypeToken) -> Annotation {
    Annotation { is_result: false, token }
}

fn result_ann(token: TypeToken) -> Annotation {
    Annotation { is_result: true, token }
}

#[test]
fn untyped_callable_trusts_declared_signature() {
    let declared = signature(vec![WasmType::I32, WasmType::I64], vec![WasmType::F64]);
    let effective = resolve_signature(&declared, &vec![]).expect("untyped passthrough");
    assert_eq!(effective.params, vec![WasmType::I32, WasmType::I64]);
    assert_eq!(effective.results, vec![WasmType::F64]);
}

#[test]
fn consistent_annotations_yield_declared_signature() {
    let declared = signature(vec![WasmType::I32, WasmType::F64], vec![WasmType::I64]);
    let annotations = vec![
        param(TypeToken::Symbol(WasmType::I32)),
        param(TypeToken::FloatClass),
        result_ann(TypeToken::IntClass),
    ];
    let effective = resolve_signature(&declared, &annotations).expect("consistent annotations");
    assert_eq!(effective.params, vec![WasmType::I32, WasmType::F64]);
    assert_eq!(effective.results, vec![WasmType::I64]);
}

#[test]
fn generic_classes_match_both_widths() {
    let declared = signature(vec![WasmType::I64], vec![WasmType::F32]);
    let annotations = vec![param(TypeToken::IntClass), result_ann(TypeToken::FloatClass)];
    let effective = resolve_signature(&declared, &annotations).expect("generic hints");
    assert_eq!(effective.params, vec![WasmType::I64]);
    assert_eq!(effective.results, vec![WasmType::F32]);
}

#[test]
fn conflicting_annotation_fails() {
    let declared = signature(vec![WasmType::I32], vec![]);
    let annotations = vec![param(TypeToken::Symbol(WasmType::F32))];
    assert_eq!(
        resolve_signature(&declared, &annotations).unwrap_err(),
        SignatureErrorKind::TypeConflict { position: 0, expected: WasmType::I32 }
    );
}

#[test]
fn generic_class_against_wrong_class_fails() {
    let declared = signature(vec![WasmType::F64], vec![]);
    let annotations = vec![param(TypeToken::IntClass)];
    assert_eq!(
        resolve_signature(&declared, &annotations).unwrap_err(),
        SignatureErrorKind::TypeConflict { position: 0, expected: WasmType::F64 }
    );
}

#[test]
fn unknown_token_fails() {
    let declared = signature(vec![WasmType::I32, WasmType::I32], vec![]);
    let annotations = vec![param(TypeToken::Symbol(WasmType::I32)), param(TypeToken::Unknown)];
    assert_eq!(
        resolve_signature(&declared, &annotations).unwrap_err(),
        SignatureErrorKind::UnknownToken { position: 1 }
    );
}

#[test]
fn partial_annotation_fails() {
    let declared = signature(vec![WasmType::I32, WasmType::I32], vec![WasmType::I32]);
    let annotations = vec![param(TypeToken::Symbol(WasmType::I32))];
    assert_eq!(
        resolve_signature(&declared, &annotations).unwrap_err(),
        SignatureErrorKind::PartialAnnotation { annotated: 1, required: 3 }
    );
}

#[test]
fn excess_annotations_fail() {
    let declared = signature(vec![WasmType::I32], vec![]);
    let annotations = vec![
        param(TypeToken::Symbol(WasmType::I32)),
        param(TypeToken::Symbol(WasmType::I32)),
    ];
    assert_eq!(
        resolve_signature(&declared, &annotations).unwrap_err(),
        SignatureErrorKind::PartialAnnotation { annotated: 2, required: 1 }
    );
}

#[test]
fn multiple_result_annotations_fail() {
    let declared = signature(vec![WasmType::I32], vec![WasmType::I32]);
    let annotations = vec![
        result_ann(TypeToken::Symbol(WasmType::I32)),
        result_ann(TypeToken::Symbol(WasmType::I32)),
    ];
    assert_eq!(
        resolve_signature(&declared, &annotations).unwrap_err(),
        SignatureErrorKind::MultipleResultAnnotations
    );
}

#[test]
fn misplaced_return_annotation_fails() {
    let declared = signature(vec![WasmType::I32], vec![WasmType::I32]);
    let annotations = vec![
        result_ann(TypeToken::Symbol(WasmType::I32)),
        param(TypeToken::Symbol(WasmType::I32)),
    ];
    assert_eq!(
        resolve_signature(&declared, &annotations).unwrap_err(),
        SignatureErrorKind::MisplacedAnnotation { position: 0 }
    );
}

#[test]
fn parameter_annotation_at_result_position_fails() {
    let declared = signature(vec![WasmType::I32], vec![WasmType::I32]);
    let annotations = vec![
        param(TypeToken::Symbol(WasmType::I32)),
        param(TypeToken::Symbol(WasmType::I32)),
    ];
    assert_eq!(
        resolve_signature(&declared, &annotations).unwrap_err(),
        SignatureErrorKind::MisplacedAnnotation { position: 1 }
    );
}

#[test]
fn v128_symbol_annotation_resolves() {
    let declared = signature(vec![WasmType::V128], vec![WasmType::V128]);
    let annotations = vec![
        param(TypeToken::Symbol(WasmType::V128)),
        result_ann(TypeToken::Symbol(WasmType::V128)),
    ];
    let effective = resolve_signature(&declared, &annotations).expect("symbolic match");
    assert_eq!(effective.params, vec![WasmType::V128]);
    assert_eq!(effective.results, vec![WasmType::V128]);
}

#[test]
fn signature_rejects_multi_value_results() {
    assert!(FunctionSignature::new(vec![], vec![WasmType::I32, WasmType::I32]).is_none());
    assert!(FunctionSignature::new(vec![], vec![WasmType::I32]).is_some());
    assert!(FunctionSignature::new(vec![], vec![]).is_some());
}
