use wasm_bridge::marshal::{to_engine, to_host, TypeCoercionError};
use wasm_bridge::types::WasmType;
use wasm_bridge::value::{HostInt, HostValue, Value};

fn round_trip(v: Value, t: WasmType) -> Value {
    let host = to_host(&v);
    to_engine(&host, t).expect("round trip must succeed")
}

#[test]
fn round_trip_i32() {
    assert_eq!(round_trip(Value::I32(5), WasmType::I32), Value::I32(5));
    assert_eq!(round_trip(Value::I32(-7), WasmType::I32), Value::I32(-7));
    assert_eq!(round_trip(Value::I32(i32::MIN), WasmType::I32), Value::I32(i32::MIN));
    assert_eq!(round_trip(Value::I32(i32::MAX), WasmType::I32), Value::I32(i32::MAX));
    assert_eq!(round_trip(Value::I32(0), WasmType::I32), Value::I32(0));
}

#[test]
fn round_trip_i64() {
    assert_eq!(round_trip(Value::I64(i64::MIN), WasmType::I64), Value::I64(i64::MIN));
    assert_eq!(round_trip(Value::I64(i64::MAX), WasmType::I64), Value::I64(i64::MAX));
    assert_eq!(round_trip(Value::I64(-1), WasmType::I64), Value::I64(-1));
}

#[test]
fn round_trip_floats_by_bits() {
    let f32_bits = 1.5f32.to_bits();
    let f64_bits = 3.141592653589793f64.to_bits();
    assert_eq!(round_trip(Value::F32Bits(f32_bits), WasmType::F32), Value::F32Bits(f32_bits));
    assert_eq!(round_trip(Value::F64Bits(f64_bits), WasmType::F64), Value::F64Bits(f64_bits));
    let nan_bits = f64::NAN.to_bits();
    assert_eq!(round_trip(Value::F64Bits(nan_bits), WasmType::F64), Value::F64Bits(nan_bits));
}

#[test]
fn round_trip_v128() {
    assert_eq!(round_trip(Value::V128(0), WasmType::V128), Value::V128(0));
    assert_eq!(round_trip(Value::V128(u128::MAX), WasmType::V128), Value::V128(u128::MAX));
}

#[test]
fn engine_to_host_forms() {
    assert_eq!(
        to_host(&Value::I32(-7)),
        HostValue::Int(HostInt { negative: true, magnitude: 7 })
    );
    assert_eq!(
        to_host(&Value::I64(42)),
        HostValue::Int(HostInt { negative: false, magnitude: 42 })
    );
    let bits = 2.5f32.to_bits();
    assert_eq!(to_host(&Value::F32Bits(bits)), HostValue::Float32Bits(bits));
    assert_eq!(
        to_host(&Value::V128(u128::MAX)),
        HostValue::Int(HostInt { negative: false, magnitude: u128::MAX })
    );
}

#[test]
fn out_of_range_integer_fails() {
    let too_big = HostValue::Int(HostInt { negative: false, magnitude: 1 << 31 });
    assert_eq!(
        to_engine(&too_big, WasmType::I32),
        Err(TypeCoercionError::OutOfRange { expected: WasmType::I32 })
    );
    let fits_min = HostValue::Int(HostInt { negative: true, magnitude: 1 << 31 });
    assert_eq!(to_engine(&fits_min, WasmType::I32), Ok(Value::I32(i32::MIN)));
    let below_min = HostValue::Int(HostInt { negative: true, magnitude: (1 << 31) + 1 });
    assert_eq!(
        to_engine(&below_min, WasmType::I32),
        Err(TypeCoercionError::OutOfRange { expected: WasmType::I32 })
    );
    let negative = HostValue::Int(HostInt { negative: true, magnitude: 1 });
    assert_eq!(
        to_engine(&negative, WasmType::V128),
        Err(TypeCoercionError::OutOfRange { expected: WasmType::V128 })
    );
}

#[test]
fn kind_mismatch_fails() {
    assert_eq!(
        to_engine(&HostValue::Opaque, WasmType::F64),
        Err(TypeCoercionError::KindMismatch { expected: WasmType::F64 })
    );
    assert_eq!(
        to_engine(&HostValue::Float64Bits(1.0f64.to_bits()), WasmType::F32),
        Err(TypeCoercionError::KindMismatch { expected: WasmType::F32 })
    );
    assert_eq!(
        to_engine(&HostValue::Float32Bits(1.0f32.to_bits()), WasmType::F64),
        Err(TypeCoercionError::KindMismatch { expected: WasmType::F64 })
    );
    assert_eq!(
        to_engine(&HostValue::Int(HostInt { negative: false, magnitude: 3 }), WasmType::F32),
        Err(TypeCoercionError::KindMismatch { expected: WasmType::F32 })
    );
    assert_eq!(
        to_engine(&HostValue::Opaque, WasmType::I64),
        Err(TypeCoercionError::KindMismatch { expected: WasmType::I64 })
    );
}
