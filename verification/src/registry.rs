//! The callable registry: the nested namespace-to-name-to-callable mapping
//! the embedder supplies, with each callable's optional type annotations.
//!
//! Host callables themselves are opaque to the bridge.  The embedder keeps
//! them in an arena and registers their indices; the assembler hands the
//! retained indices back, so the embedder can keep the callables alive for
//! the engine instance's lifetime.

use vstd::prelude::*;

use crate::signature::Annotation;

verus! {

/// An index into the embedder's arena of host callables.  The reference
/// it stands for is shared: the registry, the trampoline built over it,
/// and the retained list handed back by the assembler all point at the
/// same arena slot.
#[derive(Clone, Copy, PartialEq, Eq, Structural, Debug)]
pub struct CallableId {
    pub index: usize,
}

/// One registered callable: the import name it is meant to satisfy, the
/// arena index of the callable, and its annotations in declaration order
/// (empty means untyped: trust the declared signature).
pub struct RegisteredCallable {
    pub name: String,
    pub callable: CallableId,
    pub annotations: Vec<Annotation>,
}

/// One namespace of registered callables.
pub struct RegistryNamespace {
    pub namespace: String,
    pub entries: Vec<RegisteredCallable>,
}

/// The registry the embedder supplies: namespaces of callables, each
/// namespace name unique, each function name unique within its namespace
/// (the host's nested mapping cannot repeat a key).
pub struct CallableRegistry {
    pub namespaces: Vec<RegistryNamespace>,
}

/// The first namespace at or after `i` with the given name, if any.
pub open spec fn find_namespace(s: Seq<RegistryNamespace>, namespace: Seq<char>, i: int) -> Option<
    int,
>
    decreases s.len() - i,
{
    if i < 0 || i >= s.len() {
        None
    } else if s[i].namespace@ == namespace {
        Some(i)
    } else {
        find_namespace(s, namespace, i + 1)
    }
}

/// The first entry at or after `i` with the given name, if any.
pub open spec fn find_entry(s: Seq<RegisteredCallable>, name: Seq<char>, i: int) -> Option<int>
    decreases s.len() - i,
{
    if i < 0 || i >= s.len() {
        None
    } else if s[i].name@ == name {
        Some(i)
    } else {
        find_entry(s, name, i + 1)
    }
}

/// Whether the registry supplies a callable for the given import key.
pub open spec fn registry_provides(
    s: Seq<RegistryNamespace>,
    namespace: Seq<char>,
    name: Seq<char>,
) -> bool {
    match find_namespace(s, namespace, 0) {
        Some(i) => find_entry(s[i].entries@, name, 0) is Some,
        None => false,
    }
}

/// The index of the first entry with the given name, if any.
pub fn find_entry_index(entries: &Vec<RegisteredCallable>, name: &String) -> (r: Option<usize>)
    ensures
        match r {
            Some(i) => find_entry(entries@, name@, 0) == Some(i as int) && i < entries@.len(),
            None => find_entry(entries@, name@, 0) is None,
        },
{
    let mut i: usize = 0;
    while i < entries.len()
        invariant
            i <= entries@.len(),
            find_entry(entries@, name@, 0) == find_entry(entries@, name@, i as int),
        decreases entries@.len() - i,
    {
        if entries[i].name == *name {
            return Some(i);
        }
        i = i + 1;
    }
    None
}

impl CallableRegistry {
    /// The index of the first namespace with the given name, if any.
    pub fn find_namespace_index(&self, namespace: &String) -> (r: Option<usize>)
        ensures
            match r {
                Some(i) => find_namespace(self.namespaces@, namespace@, 0) == Some(i as int) && i
                    < self.namespaces@.len(),
                None => find_namespace(self.namespaces@, namespace@, 0) is None,
            },
    {
        let mut i: usize = 0;
        while i < self.namespaces.len()
            invariant
                i <= self.namespaces@.len(),
                find_namespace(self.namespaces@, namespace@, 0) == find_namespace(
                    self.namespaces@,
                    namespace@,
                    i as int,
                ),
            decreases self.namespaces@.len() - i,
        {
            if self.namespaces[i].namespace == *namespace {
                return Some(i);
            }
            i = i + 1;
        }
        None
    }

    /// Whether the registry supplies a callable for the given import key.
    pub fn provides(&self, namespace: &String, name: &String) -> (r: bool)
        ensures
            r == registry_provides(self.namespaces@, namespace@, name@),
    {
        match self.find_namespace_index(namespace) {
            Some(i) => find_entry_index(&self.namespaces[i].entries, name).is_some(),
            None => false,
        }
    }

    /// Validity: namespace names unique, entry names unique within each
    /// namespace.
    pub open spec fn wf(self) -> bool {
        &&& forall|i: int, j: int|
            0 <= i < j < self.namespaces@.len() ==> (#[trigger] self.namespaces@[i]).namespace@ != (
            #[trigger] self.namespaces@[j]).namespace@
        &&& forall|n: int, i: int, j: int|
            0 <= n < self.namespaces@.len() && 0 <= i < j
                < (#[trigger] self.namespaces@[n]).entries@.len() ==> (
            #[trigger] self.namespaces@[n].entries@[i]).name@ != (
            #[trigger] self.namespaces@[n].entries@[j]).name@
    }

    /// Check validity, so an embedder holding an arbitrary nested list can
    /// establish it before assembling an import table.
    pub fn well_formed(&self) -> (r: bool)
        ensures
            r == self.wf(),
    {
        let mut n: usize = 0;
        while n < self.namespaces.len()
            invariant
                n <= self.namespaces@.len(),
                forall|i: int, j: int|
                    0 <= i < j < n ==> (#[trigger] self.namespaces@[i]).namespace@ != (
                    #[trigger] self.namespaces@[j]).namespace@,
                forall|m: int, i: int, j: int|
                    0 <= m < n && 0 <= i < j < (#[trigger] self.namespaces@[m]).entries@.len()
                        ==> (#[trigger] self.namespaces@[m].entries@[i]).name@ != (
                    #[trigger] self.namespaces@[m].entries@[j]).name@,
            decreases self.namespaces@.len() - n,
        {
            let mut p: usize = 0;
            while p < n
                invariant
                    p <= n < self.namespaces@.len(),
                    forall|i: int|
                        0 <= i < p ==> (#[trigger] self.namespaces@[i]).namespace@
                            != self.namespaces@[n as int].namespace@,
                decreases n - p,
            {
                if self.namespaces[p].namespace == self.namespaces[n].namespace {
                    return false;
                }
                p = p + 1;
            }
            let entries = &self.namespaces[n].entries;
            let mut i: usize = 0;
            while i < entries.len()
                invariant
                    i <= entries@.len(),
                    entries@ == self.namespaces@[n as int].entries@,
                    n < self.namespaces@.len(),
                    forall|k: int, l: int|
                        0 <= k < l < i ==> (#[trigger] entries@[k]).name@ != (
                        #[trigger] entries@[l]).name@,
                decreases entries@.len() - i,
            {
                let mut k: usize = 0;
                while k < i
                    invariant
                        k <= i < entries@.len(),
                        n < self.namespaces@.len(),
                        entries@ == self.namespaces@[n as int].entries@,
                        forall|l: int|
                            0 <= l < k ==> (#[trigger] entries@[l]).name@ != entries@[i as int].name@,
                    decreases i - k,
                {
                    if entries[k].name == entries[i].name {
                        return false;
                    }
                    k = k + 1;
                }
                i = i + 1;
            }
            n = n + 1;
        }
        true
    }
}

} // verus!
