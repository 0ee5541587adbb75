//! The value marshaller: a bidirectional converter between the engine's
//! tagged value union and the host's dynamic value representation.
//!
//! Engine to host never fails.  Host to engine is partial, because the
//! host representation is more permissive than the engine's; the coercion
//! policy is explicit and deterministic:
//!
//! * an integer coerces to `I32` or `I64` exactly when it lies in the
//!   signed range of that type, and to `V128` exactly when it is
//!   non-negative — an out-of-range integer fails rather than wrapping;
//! * a floating-point value coerces only at its own width — there is no
//!   implicit narrowing or widening, and no integer/float conversion.

use vstd::prelude::*;

use crate::types::WasmType;
use crate::value::{HostInt, HostValue, Value};

verus! {

/// Why a host value could not be narrowed to an expected engine type.
#[derive(Clone, Copy, PartialEq, Eq, Structural, Debug)]
pub enum TypeCoercionError {
    /// The host value's dynamic kind cannot serve for the expected type
    /// (for example, a non-integer where an `I32` is expected).
    KindMismatch { expected: WasmType },
    /// An integer host value outside the representable range of the
    /// expected type.
    OutOfRange { expected: WasmType },
    /// The host callable returned the wrong number of results.
    ResultArityMismatch { expected_count: usize, actual_count: usize },
}

/// The host value an engine value becomes when crossing to the host.
pub open spec fn host_of(v: Value) -> HostValue {
    match v {
        Value::I32(x) => HostValue::Int(HostInt::spec_from_int(x as int)),
        Value::I64(x) => HostValue::Int(HostInt::spec_from_int(x as int)),
        Value::F32Bits(b) => HostValue::Float32Bits(b),
        Value::F64Bits(b) => HostValue::Float64Bits(b),
        Value::V128(x) => HostValue::Int(HostInt::spec_from_int(x as int)),
    }
}

pub open spec fn in_i32_range(n: int) -> bool {
    i32::MIN as int <= n <= i32::MAX as int
}

pub open spec fn in_i64_range(n: int) -> bool {
    i64::MIN as int <= n <= i64::MAX as int
}

pub open spec fn in_u128_range(n: int) -> bool {
    0 <= n <= u128::MAX as int
}

/// The engine value a host value becomes under an expected type, or the
/// exact coercion error.
pub open spec fn coerce(h: HostValue, expected: WasmType) -> Result<Value, TypeCoercionError> {
    match expected {
        WasmType::I32 => match h {
            HostValue::Int(i) => if in_i32_range(i.as_int()) {
                Ok(Value::I32(i.as_int() as i32))
            } else {
                Err(TypeCoercionError::OutOfRange { expected })
            },
            _ => Err(TypeCoercionError::KindMismatch { expected }),
        },
        WasmType::I64 => match h {
            HostValue::Int(i) => if in_i64_range(i.as_int()) {
                Ok(Value::I64(i.as_int() as i64))
            } else {
                Err(TypeCoercionError::OutOfRange { expected })
            },
            _ => Err(TypeCoercionError::KindMismatch { expected }),
        },
        WasmType::V128 => match h {
            HostValue::Int(i) => if in_u128_range(i.as_int()) {
                Ok(Value::V128(i.as_int() as u128))
            } else {
                Err(TypeCoercionError::OutOfRange { expected })
            },
            _ => Err(TypeCoercionError::KindMismatch { expected }),
        },
        WasmType::F32 => match h {
            HostValue::Float32Bits(b) => Ok(Value::F32Bits(b)),
            _ => Err(TypeCoercionError::KindMismatch { expected }),
        },
        WasmType::F64 => match h {
            HostValue::Float64Bits(b) => Ok(Value::F64Bits(b)),
            _ => Err(TypeCoercionError::KindMismatch { expected }),
        },
    }
}

/// Convert one engine value to its host representation.  This direction
/// is total: every well-formed tagged value has a host form.
pub fn to_host(v: &Value) -> (h: HostValue)
    ensures
        h == host_of(*v),
        h.wf(),
{
    match v {
        Value::I32(x) => HostValue::Int(HostInt::from_i64(*x as i64)),
        Value::I64(x) => HostValue::Int(HostInt::from_i64(*x)),
        Value::F32Bits(b) => HostValue::Float32Bits(*b),
        Value::F64Bits(b) => HostValue::Float64Bits(*b),
        Value::V128(x) => HostValue::Int(HostInt::from_u128(*x)),
    }
}

/// Convert one host value to the engine value of the expected type, or
/// report exactly why it cannot be done.  Success and the result are
/// pinned down by [`coerce`]; on success the result carries the expected
/// type tag.
pub fn to_engine(h: &HostValue, expected: WasmType) -> (r: Result<Value, TypeCoercionError>)
    ensures
        r == coerce(*h, expected),
        r matches Ok(v) ==> v.type_of() == expected,
{
    match expected {
        WasmType::I32 => match h {
            HostValue::Int(i) => {
                if !i.negative && i.magnitude <= i32::MAX as u128 {
                    Ok(Value::I32(i.magnitude as i32))
                } else if i.negative && i.magnitude <= 0x8000_0000u128 {
                    Ok(Value::I32((-(i.magnitude as i128)) as i32))
                } else {
                    Err(TypeCoercionError::OutOfRange { expected })
                }
            },
            _ => Err(TypeCoercionError::KindMismatch { expected }),
        },
        WasmType::I64 => match h {
            HostValue::Int(i) => {
                if !i.negative && i.magnitude <= i64::MAX as u128 {
                    Ok(Value::I64(i.magnitude as i64))
                } else if i.negative && i.magnitude <= 0x8000_0000_0000_0000u128 {
                    Ok(Value::I64((-(i.magnitude as i128)) as i64))
                } else {
                    Err(TypeCoercionError::OutOfRange { expected })
                }
            },
            _ => Err(TypeCoercionError::KindMismatch { expected }),
        },
        WasmType::V128 => match h {
            HostValue::Int(i) => {
                if !i.negative || i.magnitude == 0 {
                    Ok(Value::V128(i.magnitude))
                } else {
                    Err(TypeCoercionError::OutOfRange { expected })
                }
            },
            _ => Err(TypeCoercionError::KindMismatch { expected }),
        },
        WasmType::F32 => match h {
            HostValue::Float32Bits(b) => Ok(Value::F32Bits(*b)),
            _ => Err(TypeCoercionError::KindMismatch { expected }),
        },
        WasmType::F64 => match h {
            HostValue::Float64Bits(b) => Ok(Value::F64Bits(*b)),
            _ => Err(TypeCoercionError::KindMismatch { expected }),
        },
    }
}

/// Round-trip law: for every engine value `v`, marshalling engine to host
/// and back to the engine, with `v`'s own type as the expected type on
/// the return leg, yields `v` again.
pub proof fn lemma_marshal_round_trip(v: Value)
    ensures
        coerce(host_of(v), v.type_of()) == Ok::<Value, TypeCoercionError>(v),
{
    match v {
        Value::I32(x) => {
            assert(HostInt::spec_from_int(x as int).as_int() == x as int);
        },
        Value::I64(x) => {
            assert(HostInt::spec_from_int(x as int).as_int() == x as int);
        },
        Value::V128(x) => {
            assert(HostInt::spec_from_int(x as int).as_int() == x as int);
        },
        _ => {},
    }
}

} // verus!
