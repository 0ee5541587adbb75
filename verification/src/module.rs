//! The module-side signature table: the function imports a compiled
//! WebAssembly module declares, as the bridge reads them from the engine's
//! module metadata.

use vstd::prelude::*;

use crate::types::FunctionSignature;

verus! {

/// One function import a module declares: its import key (namespace and
/// name) and its declared function type.
pub struct ImportFunctionDecl {
    pub namespace: String,
    pub name: String,
    pub signature: FunctionSignature,
}

/// Whether a declaration carries the given import key.
pub open spec fn decl_has_key(d: ImportFunctionDecl, namespace: Seq<char>, name: Seq<char>) -> bool {
    d.namespace@ == namespace && d.name@ == name
}

/// The first declaration at or after `i` carrying the given key, if any.
pub open spec fn find_decl(
    decls: Seq<ImportFunctionDecl>,
    namespace: Seq<char>,
    name: Seq<char>,
    i: int,
) -> Option<int>
    decreases decls.len() - i,
{
    if i < 0 || i >= decls.len() {
        None
    } else if decl_has_key(decls[i], namespace, name) {
        Some(i)
    } else {
        find_decl(decls, namespace, name, i + 1)
    }
}

/// The signature table of one compiled module: its declared function
/// imports, with unique import keys and well-formed signatures.
pub struct Module {
    pub imports: Vec<ImportFunctionDecl>,
}

/// Validity of a declaration list: every signature is well formed and no
/// import key occurs twice.
pub open spec fn decls_wf(decls: Seq<ImportFunctionDecl>) -> bool {
    &&& forall|i: int| 0 <= i < decls.len() ==> (#[trigger] decls[i]).signature.wf()
    &&& forall|i: int, j: int|
        0 <= i < j < decls.len() ==> !decl_has_key(
            #[trigger] decls[j],
            (#[trigger] decls[i]).namespace@,
            decls[i].name@,
        )
}

impl Module {
    pub open spec fn wf(self) -> bool {
        decls_wf(self.imports@)
    }

    /// Build the signature table from the declarations read out of the
    /// engine's module metadata; reject a list with a malformed signature
    /// or a repeated import key.  The engine enforces key uniqueness in
    /// the metadata itself, so rejection means the list was not read from
    /// one module.
    pub fn new(imports: Vec<ImportFunctionDecl>) -> (r: Option<Module>)
        ensures
            match r {
                Some(m) => m.imports@ == imports@ && m.wf(),
                None => !decls_wf(imports@),
            },
    {
        let mut i: usize = 0;
        while i < imports.len()
            invariant
                i <= imports@.len(),
                forall|k: int| 0 <= k < i ==> (#[trigger] imports@[k]).signature.wf(),
                forall|k: int, l: int|
                    0 <= k < l < i ==> !decl_has_key(
                        #[trigger] imports@[l],
                        (#[trigger] imports@[k]).namespace@,
                        imports@[k].name@,
                    ),
            decreases imports@.len() - i,
        {
            if imports[i].signature.results.len() > 1 || imports[i].signature.params.len()
                > usize::MAX - imports[i].signature.results.len() {
                return None;
            }
            let mut j: usize = 0;
            while j < i
                invariant
                    j <= i < imports@.len(),
                    forall|k: int|
                        0 <= k < j ==> !decl_has_key(
                            imports@[i as int],
                            (#[trigger] imports@[k]).namespace@,
                            imports@[k].name@,
                        ),
                decreases i - j,
            {
                if imports[j].namespace == imports[i].namespace && imports[j].name
                    == imports[i].name {
                    return None;
                }
                j = j + 1;
            }
            i = i + 1;
        }
        Some(Module { imports })
    }

    /// The index of the declared function import with the given key, if
    /// the module declares one.
    pub fn find_import(&self, namespace: &String, name: &String) -> (r: Option<usize>)
        ensures
            match r {
                Some(i) => find_decl(self.imports@, namespace@, name@, 0) == Some(i as int) && i
                    < self.imports@.len(),
                None => find_decl(self.imports@, namespace@, name@, 0) is None,
            },
    {
        let mut i: usize = 0;
        while i < self.imports.len()
            invariant
                i <= self.imports@.len(),
                find_decl(self.imports@, namespace@, name@, 0) == find_decl(
                    self.imports@,
                    namespace@,
                    name@,
                    i as int,
                ),
            decreases self.imports@.len() - i,
        {
            if self.imports[i].namespace == *namespace && self.imports[i].name == *name {
                return Some(i);
            }
            i = i + 1;
        }
        None
    }

    /// The module's declared signature for the given import key, copied
    /// out, or nothing where the module declares no such function import.
    pub fn get_declared_signature(&self, namespace: &String, name: &String) -> (r: Option<
        FunctionSignature,
    >)
        ensures
            match r {
                Some(s) => {
                    &&& find_decl(self.imports@, namespace@, name@, 0) matches Some(i)
                    &&& s.params@ == self.imports@[find_decl(
                        self.imports@,
                        namespace@,
                        name@,
                        0,
                    ).unwrap()].signature.params@
                    &&& s.results@ == self.imports@[find_decl(
                        self.imports@,
                        namespace@,
                        name@,
                        0,
                    ).unwrap()].signature.results@
                },
                None => find_decl(self.imports@, namespace@, name@, 0) is None,
            },
    {
        match self.find_import(namespace, name) {
            Some(i) => Some(self.imports[i].signature.duplicate()),
            None => None,
        }
    }
}

} // verus!
