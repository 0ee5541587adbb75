//! WebAssembly value types and function signatures.

use vstd::prelude::*;

verus! {

/// The closed set of WebAssembly value types handled by the bridge.
/// There is no implicit widening between them.
#[derive(Clone, Copy, PartialEq, Eq, Structural, Debug)]
pub enum WasmType {
    I32,
    I64,
    F32,
    F64,
    V128,
}

/// A WebAssembly function type: an ordered sequence of parameter types and
/// a result sequence of length zero or one (multi-value returns are
/// unsupported).
#[derive(Debug)]
pub struct FunctionSignature {
    pub params: Vec<WasmType>,
    pub results: Vec<WasmType>,
}

impl FunctionSignature {
    /// Well-formedness: the result sequence holds at most one type, and
    /// the number of positions fits the machine (so annotation counting
    /// cannot overflow).
    pub open spec fn wf(self) -> bool {
        &&& self.results@.len() <= 1
        &&& self.params@.len() + self.results@.len() <= usize::MAX
    }

    /// Build a signature, rejecting a result sequence of length above one
    /// or a parameter list too long for the machine.
    pub fn new(params: Vec<WasmType>, results: Vec<WasmType>) -> (r: Option<FunctionSignature>)
        ensures
            match r {
                Some(s) => s.params@ == params@ && s.results@ == results@ && s.wf(),
                None => results@.len() > 1 || params@.len() + results@.len() > usize::MAX,
            },
    {
        if results.len() <= 1 && params.len() <= usize::MAX - results.len() {
            Some(FunctionSignature { params, results })
        } else {
            None
        }
    }

    /// An element-for-element copy of the signature.
    pub fn duplicate(&self) -> (r: FunctionSignature)
        ensures
            r.params@ == self.params@,
            r.results@ == self.results@,
    {
        FunctionSignature { params: copy_types(&self.params), results: copy_types(&self.results) }
    }
}

/// Copy a vector of value types element by element.
pub fn copy_types(v: &Vec<WasmType>) -> (r: Vec<WasmType>)
    ensures
        r@ == v@,
{
    let mut out: Vec<WasmType> = Vec::new();
    let mut i: usize = 0;
    while i < v.len()
        invariant
            i <= v@.len(),
            out@ == v@.subrange(0, i as int),
        decreases v@.len() - i,
    {
        out.push(v[i]);
        i += 1;
    }
    proof {
        assert(v@.subrange(0, v@.len() as int) =~= v@);
    }
    out
}

} // verus!
