//! The import table assembler: from the module's signature table and the
//! embedder's callable registry to the import table the engine consumes at
//! instantiation, plus the retained callable references.
//!
//! The assembler iterates the registry; for each entry it resolves the
//! effective signature and builds a trampoline.  It fails fast on the
//! first resolution fault, surfacing the offending import key — a partial
//! import table is never returned.  A registry entry for an import the
//! module never declares is unused and ignored, not an error; a declared
//! function import with no registry entry fails construction before any
//! instantiation is attempted.

use vstd::prelude::*;

use crate::module::{find_decl, ImportFunctionDecl, Module};
use crate::registry::{
    registry_provides, CallableId, CallableRegistry, RegisteredCallable, RegistryNamespace,
};
use crate::signature::{resolve_check, resolve_signature, SignatureError, SignatureErrorKind};
use crate::trampoline::Trampoline;
use crate::types::WasmType;

verus! {

/// One namespace of the assembled import table.
pub struct ImportNamespace {
    pub namespace: String,
    pub trampolines: Vec<Trampoline>,
}

/// The object the engine consumes at instantiation: namespaces of
/// trampolines.  Opaque to the embedder beyond being handed over.
pub struct ImportTable {
    pub namespaces: Vec<ImportNamespace>,
}

/// The mathematical picture of one trampoline: its import key, its
/// effective signature, and the callable it retains.
pub struct TrampolineModel {
    pub namespace: Seq<char>,
    pub name: Seq<char>,
    pub params: Seq<WasmType>,
    pub results: Seq<WasmType>,
    pub callable: CallableId,
}

/// The mathematical picture of one assembled namespace.
pub struct NamespaceModel {
    pub namespace: Seq<char>,
    pub trampolines: Seq<TrampolineModel>,
}

/// The mathematical picture of a construction failure: the offending
/// import key and the validation fault.
pub struct ErrorModel {
    pub namespace: Seq<char>,
    pub name: Seq<char>,
    pub kind: SignatureErrorKind,
}

pub open spec fn trampoline_model(t: Trampoline) -> TrampolineModel {
    TrampolineModel {
        namespace: t.namespace@,
        name: t.name@,
        params: t.signature.params@,
        results: t.signature.results@,
        callable: t.callable,
    }
}

pub open spec fn trampoline_models(ts: Seq<Trampoline>) -> Seq<TrampolineModel> {
    ts.map_values(|t: Trampoline| trampoline_model(t))
}

pub open spec fn namespace_model(n: ImportNamespace) -> NamespaceModel {
    NamespaceModel { namespace: n.namespace@, trampolines: trampoline_models(n.trampolines@) }
}

/// The picture of a vector of assembled namespaces.
pub open spec fn table_model_of(namespaces: Seq<ImportNamespace>) -> Seq<NamespaceModel> {
    namespaces.map_values(|n: ImportNamespace| namespace_model(n))
}

pub open spec fn table_model(t: ImportTable) -> Seq<NamespaceModel> {
    table_model_of(t.namespaces@)
}

pub open spec fn error_model(e: SignatureError) -> ErrorModel {
    ErrorModel { namespace: e.namespace@, name: e.name@, kind: e.kind }
}

/// The callables a sequence of trampolines retains, in order.
pub open spec fn callables_of(ts: Seq<TrampolineModel>) -> Seq<CallableId> {
    ts.map_values(|t: TrampolineModel| t.callable)
}

/// The callables an assembled table retains, namespace by namespace, in
/// order: the references the embedder must keep alive at least as long as
/// the engine instance that may invoke them.
pub open spec fn retained_of(table: Seq<NamespaceModel>) -> Seq<CallableId>
    decreases table.len(),
{
    if table.len() == 0 {
        Seq::<CallableId>::empty()
    } else {
        retained_of(table.drop_last()) + callables_of(table.last().trampolines)
    }
}

/// The trampolines one registry namespace yields against the module's
/// declarations, from entry `i` on: entries for undeclared imports are
/// ignored; the first resolution fault aborts with the offending key.
pub open spec fn build_namespace_model(
    decls: Seq<ImportFunctionDecl>,
    namespace: Seq<char>,
    entries: Seq<RegisteredCallable>,
    i: int,
) -> Result<Seq<TrampolineModel>, ErrorModel>
    decreases entries.len() - i,
{
    if i < 0 || i >= entries.len() {
        Ok(Seq::<TrampolineModel>::empty())
    } else {
        let e = entries[i];
        match find_decl(decls, namespace, e.name@, 0) {
            None => build_namespace_model(decls, namespace, entries, i + 1),
            Some(d) => {
                let declared = decls[d].signature;
                match resolve_check(declared.params@, declared.results@, e.annotations@) {
                    Some(kind) => Err(ErrorModel { namespace, name: e.name@, kind }),
                    None => match build_namespace_model(decls, namespace, entries, i + 1) {
                        Ok(rest) => Ok(
                            seq![
                                TrampolineModel {
                                    namespace,
                                    name: e.name@,
                                    params: declared.params@,
                                    results: declared.results@,
                                    callable: e.callable,
                                },
                            ] + rest,
                        ),
                        Err(err) => Err(err),
                    },
                }
            },
        }
    }
}

/// The namespaces the whole registry yields, from namespace `i` on,
/// failing fast on the first fault.
pub open spec fn build_table_model(
    decls: Seq<ImportFunctionDecl>,
    namespaces: Seq<RegistryNamespace>,
    i: int,
) -> Result<Seq<NamespaceModel>, ErrorModel>
    decreases namespaces.len() - i,
{
    if i < 0 || i >= namespaces.len() {
        Ok(Seq::<NamespaceModel>::empty())
    } else {
        match build_namespace_model(decls, namespaces[i].namespace@, namespaces[i].entries@, 0) {
            Err(e) => Err(e),
            Ok(tramps) => match build_table_model(decls, namespaces, i + 1) {
                Ok(rest) => Ok(
                    seq![
                        NamespaceModel { namespace: namespaces[i].namespace@, trampolines: tramps },
                    ] + rest,
                ),
                Err(e) => Err(e),
            },
        }
    }
}

/// The first declared function import, from `i` on, for which the
/// registry supplies no callable, if any.
pub open spec fn first_unsatisfied(
    decls: Seq<ImportFunctionDecl>,
    namespaces: Seq<RegistryNamespace>,
    i: int,
) -> Option<int>
    decreases decls.len() - i,
{
    if i < 0 || i >= decls.len() {
        None
    } else if !registry_provides(namespaces, decls[i].namespace@, decls[i].name@) {
        Some(i)
    } else {
        first_unsatisfied(decls, namespaces, i + 1)
    }
}

/// What assembling an import table from a module's declarations and a
/// registry yields: the table's mathematical picture, or the exact fault.
pub open spec fn build_model(
    decls: Seq<ImportFunctionDecl>,
    namespaces: Seq<RegistryNamespace>,
) -> Result<Seq<NamespaceModel>, ErrorModel> {
    match first_unsatisfied(decls, namespaces, 0) {
        Some(i) => Err(
            ErrorModel {
                namespace: decls[i].namespace@,
                name: decls[i].name@,
                kind: SignatureErrorKind::UnresolvedImport,
            },
        ),
        None => build_table_model(decls, namespaces, 0),
    }
}

/// Assemble the import table: every declared function import must be
/// satisfied by the registry, every registered callable for a declared
/// import must resolve against its declared signature, and each resulting
/// trampoline's effective signature equals the declared one.  The result
/// — table, retained callables, or failure — is pinned down by
/// [`build_model`].
pub fn build_import_object(module: &Module, registry: &CallableRegistry) -> (r: Result<
    (ImportTable, Vec<CallableId>),
    SignatureError,
>)
    requires
        module.wf(),
        registry.wf(),
    ensures
        match r {
            Ok(out) => build_model(module.imports@, registry.namespaces@) == Ok::<
                Seq<NamespaceModel>,
                ErrorModel,
            >(table_model(out.0)) && out.1@ == retained_of(table_model(out.0)),
            Err(e) => build_model(module.imports@, registry.namespaces@) == Err::<
                Seq<NamespaceModel>,
                ErrorModel,
            >(error_model(e)),
        },
{
    let ghost decls = module.imports@;
    let ghost regns = registry.namespaces@;

    // Completeness: every declared function import has a registry entry.
    let mut i: usize = 0;
    while i < module.imports.len()
        invariant
            i <= decls.len(),
            decls == module.imports@,
            regns == registry.namespaces@,
            first_unsatisfied(decls, regns, 0) == first_unsatisfied(decls, regns, i as int),
        decreases decls.len() - i,
    {
        if !registry.provides(&module.imports[i].namespace, &module.imports[i].name) {
            return Err(SignatureError {
                namespace: module.imports[i].namespace.clone(),
                name: module.imports[i].name.clone(),
                kind: SignatureErrorKind::UnresolvedImport,
            });
        }
        i = i + 1;
    }
    assert(first_unsatisfied(decls, regns, 0) is None);

    // Assembly: one namespace of trampolines per registry namespace.
    let mut namespaces_out: Vec<ImportNamespace> = Vec::new();
    let mut retained: Vec<CallableId> = Vec::new();
    let mut n: usize = 0;
    while n < registry.namespaces.len()
        invariant
            n <= regns.len(),
            decls == module.imports@,
            regns == registry.namespaces@,
            module.wf(),
            first_unsatisfied(decls, regns, 0) is None,
            match build_table_model(decls, regns, n as int) {
                Ok(rest) => build_table_model(decls, regns, 0) == Ok::<
                    Seq<NamespaceModel>,
                    ErrorModel,
                >(table_model_of(namespaces_out@) + rest),
                Err(e) => build_table_model(decls, regns, 0) == Err::<
                    Seq<NamespaceModel>,
                    ErrorModel,
                >(e),
            },
            retained@ == retained_of(table_model_of(namespaces_out@)),
        decreases regns.len() - n,
    {
        let ghost nsname = regns[n as int].namespace@;
        let ghost entries = regns[n as int].entries@;
        let mut tramps: Vec<Trampoline> = Vec::new();
        let ghost retained_before = retained@;
        let mut j: usize = 0;
        while j < registry.namespaces[n].entries.len()
            invariant
                n < regns.len(),
                j <= entries.len(),
                decls == module.imports@,
                regns == registry.namespaces@,
                module.wf(),
                nsname == regns[n as int].namespace@,
                entries == regns[n as int].entries@,
                first_unsatisfied(decls, regns, 0) is None,
                match build_table_model(decls, regns, n as int) {
                    Ok(rest) => build_table_model(decls, regns, 0) == Ok::<
                        Seq<NamespaceModel>,
                        ErrorModel,
                    >(table_model_of(namespaces_out@) + rest),
                    Err(e) => build_table_model(decls, regns, 0) == Err::<
                        Seq<NamespaceModel>,
                        ErrorModel,
                    >(e),
                },
                match build_namespace_model(decls, nsname, entries, j as int) {
                    Ok(rest) => build_namespace_model(decls, nsname, entries, 0) == Ok::<
                        Seq<TrampolineModel>,
                        ErrorModel,
                    >(trampoline_models(tramps@) + rest),
                    Err(e) => build_namespace_model(decls, nsname, entries, 0) == Err::<
                        Seq<TrampolineModel>,
                        ErrorModel,
                    >(e),
                },
                retained@ == retained_before + callables_of(trampoline_models(tramps@)),
            decreases entries.len() - j,
        {
            let entry_name = &registry.namespaces[n].entries[j].name;
            match module.find_import(&registry.namespaces[n].namespace, entry_name) {
                None => {},
                Some(d) => {
                    match resolve_signature(
                        &module.imports[d].signature,
                        &registry.namespaces[n].entries[j].annotations,
                    ) {
                        Err(kind) => {
                            let fault = SignatureError {
                                namespace: registry.namespaces[n].namespace.clone(),
                                name: entry_name.clone(),
                                kind,
                            };
                            proof {
                                let e = entries[j as int];
                                let d_int = find_decl(decls, nsname, e.name@, 0)->0;
                                assert(resolve_check(
                                    decls[d_int].signature.params@,
                                    decls[d_int].signature.results@,
                                    e.annotations@,
                                ) == Some(kind));
                                assert(build_namespace_model(decls, nsname, entries, j as int)
                                    == Err::<Seq<TrampolineModel>, ErrorModel>(
                                    ErrorModel { namespace: nsname, name: e.name@, kind },
                                ));
                                assert(error_model(fault) == ErrorModel {
                                    namespace: nsname,
                                    name: e.name@,
                                    kind,
                                });
                                assert(build_table_model(decls, regns, n as int) == Err::<
                                    Seq<NamespaceModel>,
                                    ErrorModel,
                                >(error_model(fault)));
                            }
                            return Err(fault);
                        },
                        Ok(effective) => {
                            let tramp = Trampoline {
                                namespace: registry.namespaces[n].namespace.clone(),
                                name: entry_name.clone(),
                                signature: effective,
                                callable: registry.namespaces[n].entries[j].callable,
                            };
                            let ghost tramps_before = tramps@;
                            let ghost tm = trampoline_model(tramp);
                            tramps.push(tramp);
                            retained.push(registry.namespaces[n].entries[j].callable);
                            proof {
                                let e = entries[j as int];
                                let d_int = find_decl(decls, nsname, e.name@, 0).unwrap();
                                assert(tm.namespace == nsname);
                                assert(tm.name == e.name@);
                                assert(tm.params == decls[d_int].signature.params@);
                                assert(tm.results == decls[d_int].signature.results@);
                                assert(tm.callable == e.callable);
                                assert(tm == TrampolineModel {
                                    namespace: nsname,
                                    name: e.name@,
                                    params: decls[d_int].signature.params@,
                                    results: decls[d_int].signature.results@,
                                    callable: e.callable,
                                });
                                assert(trampoline_models(tramps@) =~= trampoline_models(
                                    tramps_before,
                                ) + seq![tm]);
                                assert(callables_of(trampoline_models(tramps@)) =~= callables_of(
                                    trampoline_models(tramps_before),
                                ) + seq![tm.callable]);
                                assert(retained@ =~= retained_before + callables_of(
                                    trampoline_models(tramps@),
                                ));
                                if build_namespace_model(decls, nsname, entries, j + 1) is Ok {
                                    let rest2 = build_namespace_model(
                                        decls,
                                        nsname,
                                        entries,
                                        j + 1,
                                    )->Ok_0;
                                    assert((trampoline_models(tramps_before) + seq![tm]) + rest2
                                        =~= trampoline_models(tramps_before) + (seq![tm] + rest2));
                                }
                            }
                        },
                    }
                },
            }
            j = j + 1;
        }
        let ghost namespaces_before = namespaces_out@;
        let out_ns = ImportNamespace {
            namespace: registry.namespaces[n].namespace.clone(),
            trampolines: tramps,
        };
        let ghost nm = namespace_model(out_ns);
        namespaces_out.push(out_ns);
        proof {
            assert(nm.namespace == nsname);
        }
        proof {
            assert(build_namespace_model(decls, nsname, entries, entries.len() as int) == Ok::<
                Seq<TrampolineModel>,
                ErrorModel,
            >(Seq::<TrampolineModel>::empty()));
            assert(nm.trampolines + Seq::<TrampolineModel>::empty() =~= nm.trampolines);
            assert(build_namespace_model(decls, nsname, entries, 0) == Ok::<
                Seq<TrampolineModel>,
                ErrorModel,
            >(nm.trampolines));
            assert(table_model_of(namespaces_out@) =~= table_model_of(namespaces_before)
                + seq![nm]);
            lemma_retained_of_push(table_model_of(namespaces_before), nm);
            assert(table_model_of(namespaces_before) + seq![nm] =~= table_model_of(
                namespaces_before,
            ).push(nm));
            assert(retained@ =~= retained_of(table_model_of(namespaces_out@)));
            if build_table_model(decls, regns, n + 1) is Ok {
                let rest2 = build_table_model(decls, regns, n + 1)->Ok_0;
                assert(build_table_model(decls, regns, n as int) == Ok::<
                    Seq<NamespaceModel>,
                    ErrorModel,
                >(seq![NamespaceModel { namespace: nsname, trampolines: nm.trampolines }] + rest2));
                assert(NamespaceModel { namespace: nsname, trampolines: nm.trampolines } == nm);
                assert((table_model_of(namespaces_before) + seq![nm]) + rest2 =~= table_model_of(
                    namespaces_before,
                ) + (seq![nm] + rest2));
            }
        }
        n = n + 1;
    }
    let table = ImportTable { namespaces: namespaces_out };
    proof {
        assert(build_table_model(decls, regns, regns.len() as int) == Ok::<
            Seq<NamespaceModel>,
            ErrorModel,
        >(Seq::<NamespaceModel>::empty()));
        assert(table_model_of(table.namespaces@) + Seq::<NamespaceModel>::empty() =~= table_model_of(
            table.namespaces@,
        ));
    }
    Ok((table, retained))
}

/// Retaining over a table extended by one namespace appends that
/// namespace's callables.
proof fn lemma_retained_of_push(table: Seq<NamespaceModel>, m: NamespaceModel)
    ensures
        retained_of(table.push(m)) == retained_of(table) + callables_of(m.trampolines),
{
    assert(table.push(m).drop_last() =~= table);
    assert(table.push(m).last() == m);
}

/// Idempotence law: two import tables built (independently) from the same
/// module and the same registry carry identical namespaces, import keys,
/// effective signatures and retained callables.
pub proof fn lemma_build_idempotent(
    decls: Seq<ImportFunctionDecl>,
    namespaces: Seq<RegistryNamespace>,
    t1: ImportTable,
    t2: ImportTable,
)
    requires
        build_model(decls, namespaces) == Ok::<Seq<NamespaceModel>, ErrorModel>(table_model(t1)),
        build_model(decls, namespaces) == Ok::<Seq<NamespaceModel>, ErrorModel>(table_model(t2)),
    ensures
        table_model(t1) == table_model(t2),
        retained_of(table_model(t1)) == retained_of(table_model(t2)),
{
}

} // verus!
