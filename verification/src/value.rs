//! The engine's tagged value union and the host's dynamic value model.

use vstd::prelude::*;

use crate::types::WasmType;

verus! {

/// The engine's tagged value union: a type tag together with the
/// corresponding bit pattern.  Floating-point values are carried as their
/// IEEE-754 bit patterns so that the bridge's reasoning stays on integers;
/// the embedder reinterprets the bits as native floats at the boundary.
#[derive(Clone, Copy, PartialEq, Eq, Structural, Debug)]
pub enum Value {
    I32(i32),
    I64(i64),
    F32Bits(u32),
    F64Bits(u64),
    V128(u128),
}

impl Value {
    /// The type tag of this value.
    pub open spec fn type_of(self) -> WasmType {
        match self {
            Value::I32(_) => WasmType::I32,
            Value::I64(_) => WasmType::I64,
            Value::F32Bits(_) => WasmType::F32,
            Value::F64Bits(_) => WasmType::F64,
            Value::V128(_) => WasmType::V128,
        }
    }

    /// Read the type tag of this value.
    pub fn wasm_type(&self) -> (t: WasmType)
        ensures
            t == self.type_of(),
    {
        match self {
            Value::I32(_) => WasmType::I32,
            Value::I64(_) => WasmType::I64,
            Value::F32Bits(_) => WasmType::F32,
            Value::F64Bits(_) => WasmType::F64,
            Value::V128(_) => WasmType::V128,
        }
    }
}

/// A host integer in sign-and-magnitude form.  The host language's
/// integers are unbounded; this form covers every integer the engine can
/// hand across the boundary, including the full unsigned 128-bit range.
/// Canonical form: a negative value has magnitude at least one.
#[derive(Clone, Copy, PartialEq, Eq, Structural, Debug)]
pub struct HostInt {
    pub negative: bool,
    pub magnitude: u128,
}

impl HostInt {
    /// Canonical form: zero is never marked negative.
    pub open spec fn wf(self) -> bool {
        self.negative ==> self.magnitude >= 1
    }

    /// The mathematical integer this host integer denotes.
    pub open spec fn as_int(self) -> int {
        if self.negative {
            -(self.magnitude as int)
        } else {
            self.magnitude as int
        }
    }

    /// The canonical host integer denoting `n`.
    pub open spec fn spec_from_int(n: int) -> HostInt {
        if n < 0 {
            HostInt { negative: true, magnitude: (-n) as u128 }
        } else {
            HostInt { negative: false, magnitude: n as u128 }
        }
    }

    /// Build the canonical host integer for a signed 64-bit value.
    pub fn from_i64(x: i64) -> (r: HostInt)
        ensures
            r == HostInt::spec_from_int(x as int),
            r.wf(),
            r.as_int() == x as int,
    {
        if x < 0 {
            HostInt { negative: true, magnitude: (-(x as i128)) as u128 }
        } else {
            HostInt { negative: false, magnitude: x as u128 }
        }
    }

    /// Build the canonical host integer for an unsigned 128-bit value.
    pub fn from_u128(x: u128) -> (r: HostInt)
        ensures
            r == HostInt::spec_from_int(x as int),
            r.wf(),
            r.as_int() == x as int,
    {
        HostInt { negative: false, magnitude: x }
    }
}

/// The host's dynamic value representation, as far as the bridge reads
/// it: an integer, a floating-point value of either width (as bits), or
/// some other, non-numeric host object the bridge treats as opaque.
#[derive(Clone, Copy, PartialEq, Eq, Structural, Debug)]
pub enum HostValue {
    Int(HostInt),
    Float32Bits(u32),
    Float64Bits(u64),
    /// A non-numeric host value (a string, an object, ...).
    Opaque,
}

impl HostValue {
    pub open spec fn wf(self) -> bool {
        match self {
            HostValue::Int(i) => i.wf(),
            _ => true,
        }
    }
}

/// What a host callable hands back: either one bare value, or an explicit
/// sequence of values (the host's tuple).
pub enum HostReturn {
    Single(HostValue),
    Sequence(Vec<HostValue>),
}

} // verus!
