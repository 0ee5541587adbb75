//! Trampolines: engine-invocable wrappers around host callables.
//!
//! One invocation crosses the boundary in four strictly sequential steps:
//! convert each engine argument to its host form (total), invoke the
//! retained callable once, normalize what it returned into a sequence of
//! zero or one host values, and convert each result to the engine form
//! declared by the effective signature (partial).  A failing callable or a
//! failing result conversion becomes a trap; the bridge never retries.
//!
//! If the host runtime guards its objects with an execution lock, the
//! embedder's [`HostCallable`] implementation must acquire it for the full
//! call and release it on every exit path; the bridge itself holds no
//! lock and assumes no thread affinity.

use vstd::prelude::*;

use crate::marshal::{coerce, host_of, to_engine, to_host, TypeCoercionError};
use crate::registry::CallableId;
use crate::types::{FunctionSignature, WasmType};
use crate::value::{HostReturn, HostValue, Value};

verus! {

/// The host callable itself signalled an error while it ran.  The host
/// error object stays on the host side; the bridge only propagates the
/// fact as a trap.
#[derive(Clone, Copy, PartialEq, Eq, Structural, Debug)]
pub struct HostCallableFailure {}

/// The capability the bridge needs of a host callable: invocable with a
/// sequence of host values, answering with a host return or a failure.
/// The embedder implements this over its own callable objects; nothing is
/// assumed of an implementation beyond its signature.
pub trait HostCallable {
    /// Invoke the callable once, synchronously, with the given arguments.
    fn invoke(&self, arguments: Vec<HostValue>) -> Result<HostReturn, HostCallableFailure>;
}

/// An abnormal termination of one call across the boundary, surfaced to
/// the engine.
#[derive(Clone, Copy, PartialEq, Eq, Structural, Debug)]
pub enum Trap {
    /// A returned value could not be narrowed to the declared result
    /// type, or the callable returned the wrong number of results.
    Coercion(TypeCoercionError),
    /// The callable itself failed; never swallowed, always fatal to the
    /// call.
    Host(HostCallableFailure),
}

/// A trampoline: the import key it satisfies, its effective signature —
/// by construction exactly the module's declared signature — and the
/// arena index of the retained host callable it forwards to.
pub struct Trampoline {
    pub namespace: String,
    pub name: String,
    pub signature: FunctionSignature,
    pub callable: CallableId,
}

/// A host return, normalized to an ordered sequence of host values: an
/// explicit sequence stands as it is, a single bare value becomes the
/// one-element sequence.
pub open spec fn normalize_spec(returned: HostReturn) -> Seq<HostValue> {
    match returned {
        HostReturn::Single(v) => seq![v],
        HostReturn::Sequence(vs) => vs@,
    }
}

/// The engine values one host return yields under a declared result
/// sequence, or the exact trap cause.  A signature declaring zero results
/// ignores whatever the callable returned; a signature declaring one
/// result requires exactly one normalized value, coerced to the declared
/// type.
pub open spec fn accept_spec(results: Seq<WasmType>, returned: HostReturn) -> Result<
    Seq<Value>,
    TypeCoercionError,
> {
    let normalized = normalize_spec(returned);
    if results.len() == 0 {
        Ok(Seq::<Value>::empty())
    } else if normalized.len() != 1 {
        Err(TypeCoercionError::ResultArityMismatch {
            expected_count: 1,
            actual_count: normalized.len() as usize,
        })
    } else {
        match coerce(normalized[0], results[0]) {
            Ok(v) => Ok(seq![v]),
            Err(e) => Err(e),
        }
    }
}

impl Trampoline {
    /// The trampoline's declared arity and types equal its effective
    /// signature, which is well formed.
    pub open spec fn wf(self) -> bool {
        self.signature.wf()
    }

    /// Step one of the invocation protocol: convert each incoming engine
    /// argument to its host form, in parameter order.  This step cannot
    /// fail.
    pub fn prepare_arguments(&self, arguments: &Vec<Value>) -> (r: Vec<HostValue>)
        ensures
            r@.len() == arguments@.len(),
            forall|i: int| 0 <= i < r@.len() ==> r@[i] == host_of(arguments@[i]),
            forall|i: int| 0 <= i < r@.len() ==> (#[trigger] r@[i]).wf(),
    {
        let mut out: Vec<HostValue> = Vec::new();
        let mut i: usize = 0;
        while i < arguments.len()
            invariant
                i <= arguments@.len(),
                out@.len() == i,
                forall|k: int| 0 <= k < i ==> out@[k] == host_of(arguments@[k]),
                forall|k: int| 0 <= k < i ==> (#[trigger] out@[k]).wf(),
            decreases arguments@.len() - i,
        {
            out.push(to_host(&arguments[i]));
            i = i + 1;
        }
        out
    }

    /// Steps three and four of the invocation protocol: normalize what
    /// the callable returned and convert it to the engine form declared
    /// by the signature's result sequence.  The outcome is pinned down by
    /// [`accept_spec`]; on success every returned value carries its
    /// declared type.
    pub fn accept_results(&self, returned: HostReturn) -> (r: Result<Vec<Value>, TypeCoercionError>)
        requires
            self.wf(),
        ensures
            match r {
                Ok(vs) => accept_spec(self.signature.results@, returned) == Ok::<
                    Seq<Value>,
                    TypeCoercionError,
                >(vs@) && vs@.len() == self.signature.results@.len() && forall|i: int|
                    0 <= i < vs@.len() ==> (#[trigger] vs@[i]).type_of()
                        == self.signature.results@[i],
                Err(e) => accept_spec(self.signature.results@, returned) == Err::<
                    Seq<Value>,
                    TypeCoercionError,
                >(e),
            },
    {
        if self.signature.results.len() == 0 {
            return Ok(Vec::new());
        }
        let expected = self.signature.results[0];
        match returned {
            HostReturn::Single(v) => {
                match to_engine(&v, expected) {
                    Ok(out) => {
                        let mut vs: Vec<Value> = Vec::new();
                        vs.push(out);
                        proof {
                            assert(vs@ =~= seq![out]);
                        }
                        Ok(vs)
                    },
                    Err(e) => Err(e),
                }
            },
            HostReturn::Sequence(values) => {
                if values.len() != 1 {
                    return Err(TypeCoercionError::ResultArityMismatch {
                        expected_count: 1,
                        actual_count: values.len(),
                    });
                }
                match to_engine(&values[0], expected) {
                    Ok(out) => {
                        let mut vs: Vec<Value> = Vec::new();
                        vs.push(out);
                        proof {
                            assert(vs@ =~= seq![out]);
                        }
                        Ok(vs)
                    },
                    Err(e) => Err(e),
                }
            },
        }
    }

    /// One full call from the engine into the host: marshal the arguments,
    /// invoke the retained callable once, and marshal its results back.
    /// Whatever the callable did, a success carries exactly the declared
    /// result arity and types; a callable failure or an unconvertible
    /// result becomes a trap, never a recovery.
    pub fn call<C: HostCallable>(&self, callable: &C, arguments: &Vec<Value>) -> (r: Result<
        Vec<Value>,
        Trap,
    >)
        requires
            self.wf(),
        ensures
            match r {
                Ok(vs) => vs@.len() == self.signature.results@.len() && (forall|i: int|
                    0 <= i < vs@.len() ==> (#[trigger] vs@[i]).type_of()
                        == self.signature.results@[i]) && exists|hr: HostReturn|
                    accept_spec(self.signature.results@, hr) == Ok::<Seq<Value>, TypeCoercionError>(
                        vs@,
                    ),
                Err(t) => t matches Trap::Coercion(e) ==> exists|hr: HostReturn|
                    accept_spec(self.signature.results@, hr) == Err::<
                        Seq<Value>,
                        TypeCoercionError,
                    >(e),
            },
    {
        let host_arguments = self.prepare_arguments(arguments);
        match callable.invoke(host_arguments) {
            Err(failure) => Err(Trap::Host(failure)),
            Ok(returned) => {
                let ghost witness = returned;
                match self.accept_results(returned) {
                    Ok(vs) => {
                        proof {
                            assert(accept_spec(self.signature.results@, witness) == Ok::<
                                Seq<Value>,
                                TypeCoercionError,
                            >(vs@));
                        }
                        Ok(vs)
                    },
                    Err(e) => {
                        proof {
                            assert(accept_spec(self.signature.results@, witness) == Err::<
                                Seq<Value>,
                                TypeCoercionError,
                            >(e));
                        }
                        Err(Trap::Coercion(e))
                    },
                }
            },
        }
    }
}

/// Arity law, first half: a trampoline whose signature declares zero
/// results accepts any host return and yields no values — whatever the
/// callable returned is ignored.
pub proof fn lemma_zero_results_ignore(results: Seq<WasmType>, returned: HostReturn)
    requires
        results.len() == 0,
    ensures
        accept_spec(results, returned) == Ok::<Seq<Value>, TypeCoercionError>(Seq::<Value>::empty()),
{
}

/// Arity law, second half: under one declared result, a normalized
/// sequence of length other than one fails with the arity mismatch.
pub proof fn lemma_wrong_arity_fails(t: WasmType, values: Vec<HostValue>)
    requires
        values@.len() != 1,
    ensures
        accept_spec(seq![t], HostReturn::Sequence(values)) == Err::<Seq<Value>, TypeCoercionError>(
            TypeCoercionError::ResultArityMismatch {
                expected_count: 1,
                actual_count: values@.len() as usize,
            },
        ),
{
}

/// Arity law, exception: a single bare return value is normalized to the
/// one-element sequence, and that normalization never itself triggers the
/// arity failure (a coercion failure remains possible).
pub proof fn lemma_single_value_never_arity_fails(t: WasmType, v: HostValue)
    ensures
        !(accept_spec(seq![t], HostReturn::Single(v)) matches Err(
            TypeCoercionError::ResultArityMismatch { .. },
        )),
{
    let results = seq![t];
    let returned = HostReturn::Single(v);
    assert(normalize_spec(returned).len() == 1);
    match coerce(v, t) {
        Ok(out) => {
            assert(accept_spec(results, returned) == Ok::<Seq<Value>, TypeCoercionError>(
                seq![out],
            ));
        },
        Err(e) => {
            assert(accept_spec(results, returned) == Err::<Seq<Value>, TypeCoercionError>(e));
            assert(!(e matches TypeCoercionError::ResultArityMismatch { .. }));
        },
    }
}

} // verus!
