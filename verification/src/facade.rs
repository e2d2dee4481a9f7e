//! The facade-module computation: given an underlying module's analysis
//! snapshot and a requested part, derive the part's graph identity, its
//! dependency references, its export table, and its side-effect
//! classification.

use vstd::prelude::*;
use crate::chunking::{
    AssetContent, ChunkingContext, EcmascriptChunkingContext, EcmascriptModuleReexportsChunkItem,
};
use crate::error::FacadeError;
use crate::exports::{keys_unique, EcmascriptExports, EsmExport, EsmExports};
use crate::module::{AssetIdent, EcmascriptModule};
use crate::part::ModulePart;
use crate::reference::ModulePartReference;

verus! {

/// A module derived from an original ECMAScript module that stands in for
/// one part of it in the chunk graph. Identified by the pair of underlying
/// module and part; every query is a pure function of that pair and the
/// module's analysis snapshot.
#[derive(Debug, PartialEq, Eq)]
pub struct EcmascriptModuleFacadeModule {
    pub module: EcmascriptModule,
    pub ty: ModulePart,
}

/// The graph identity of the facade for `part` of the module identified by
/// `module_ident`.
pub open spec fn facade_ident(module_ident: u64, part: ModulePart) -> AssetIdent {
    AssetIdent { module: module_ident, part }
}

/// A reference to the whole, unpartitioned module.
pub open spec fn whole_reference(module_ident: u64) -> ModulePartReference {
    ModulePartReference::Entire { module: module_ident }
}

/// A reference to one part of the module.
pub open spec fn part_reference(module_ident: u64, part: ModulePart) -> ModulePartReference {
    ModulePartReference::Part { module: module_ident, part }
}

/// What `references` returns for each part.
///
/// The `Evaluation` and `Exports` parts start from the module's precomputed
/// reference lists and add an implicit dependency on the module's `Locals`
/// part; both require the module to be analyzable as an ECMAScript module.
/// The `Facade` part references exactly the `Evaluation` and `Exports` parts
/// of the same module, independent of the module's analysis content. The
/// renamed shims reference exactly the whole module. `Locals` is not
/// supported.
pub open spec fn references_of(
    module: EcmascriptModule,
    part: ModulePart,
) -> Result<Seq<ModulePartReference>, FacadeError> {
    match part {
        ModulePart::Evaluation => match module.analysis {
            Some(analysis) => Ok(
                analysis.evaluation_references@.push(
                    part_reference(module.ident, ModulePart::Locals),
                ),
            ),
            None => Err(FacadeError::AnalysisTypeMismatch),
        },
        ModulePart::Exports => match module.analysis {
            Some(analysis) => Ok(
                analysis.reexport_references@.push(
                    part_reference(module.ident, ModulePart::Locals),
                ),
            ),
            None => Err(FacadeError::AnalysisTypeMismatch),
        },
        ModulePart::Facade => Ok(
            seq![
                part_reference(module.ident, ModulePart::Evaluation),
                part_reference(module.ident, ModulePart::Exports),
            ],
        ),
        ModulePart::RenamedExport { .. } => Ok(seq![whole_reference(module.ident)]),
        ModulePart::RenamedNamespace { .. } => Ok(seq![whole_reference(module.ident)]),
        ModulePart::Locals => Err(FacadeError::InvalidPart),
    }
}

/// What `is_marked_as_side_effect_free` returns for each part.
///
/// The `Evaluation` and `Facade` parts may run the module's initialization
/// code, so they inherit the module's own annotation. The `Exports` part and
/// the renamed shims only rebind already-computed values and never execute
/// top-level code, so they are unconditionally side-effect free. `Locals` is
/// not supported.
pub open spec fn side_effect_free_classification(
    module: EcmascriptModule,
    part: ModulePart,
) -> Result<bool, FacadeError> {
    match part {
        ModulePart::Evaluation => Ok(module.side_effect_free),
        ModulePart::Facade => Ok(module.side_effect_free),
        ModulePart::Exports => Ok(true),
        ModulePart::RenamedExport { .. } => Ok(true),
        ModulePart::RenamedNamespace { .. } => Ok(true),
        ModulePart::Locals => Err(FacadeError::InvalidPart),
    }
}

/// How the `Exports` part rewrites one raw export descriptor: a binding
/// defined in the module itself becomes an import of that binding from the
/// module's `Locals` part; every other descriptor passes through unchanged.
pub open spec fn rewritten_export(module_ident: u64, export: EsmExport) -> EsmExport {
    match export {
        EsmExport::LocalBinding(name) => EsmExport::ImportedBinding(
            part_reference(module_ident, ModulePart::Locals),
            name,
        ),
        _ => export,
    }
}

/// The name of the default export.
pub open spec fn default_export_name() -> Seq<char> {
    "default"@
}

/// Whether the table maps the name `default`.
pub open spec fn has_default_export(exports: Seq<(String, EsmExport)>) -> bool {
    exists|i: int|
        0 <= i < exports.len() && (#[trigger] exports[i]).0@ == default_export_name()
}

/// What `get_exports` returns for each part.
///
/// The `Exports` part keeps the raw table's names and order, rewrites each
/// descriptor by [`rewritten_export`], and copies the star-reexport sources
/// verbatim. The `Facade` part is a pure pass-through shim: one star-reexport
/// source naming the module's `Exports` part, plus a `default` entry imported
/// from that part exactly when the raw table has one. The renamed shims
/// export exactly one name bound against the whole module. The `Evaluation`
/// part exports nothing. Both the `Exports` and the `Facade` part require
/// the module's raw export table to be ESM-shaped; `Locals` is not
/// supported.
pub open spec fn get_exports_post(
    module: EcmascriptModule,
    part: ModulePart,
    r: Result<EcmascriptExports, FacadeError>,
) -> bool {
    match part {
        ModulePart::Evaluation => {
            &&& r matches Ok(EcmascriptExports::EsmExports(t))
            &&& t.exports@.len() == 0
            &&& t.star_exports@.len() == 0
        },
        ModulePart::Exports => match module.exports {
            EcmascriptExports::EsmExports(raw) => {
                &&& r matches Ok(EcmascriptExports::EsmExports(t))
                &&& t.exports@.len() == raw.exports@.len()
                &&& forall|i: int|
                    0 <= i < raw.exports@.len() ==> (#[trigger] t.exports@[i]).0
                        == raw.exports@[i].0 && t.exports@[i].1 == rewritten_export(
                        module.ident,
                        raw.exports@[i].1,
                    )
                &&& t.star_exports@ == raw.star_exports@
            },
            EcmascriptExports::NonEsm => r == Err::<EcmascriptExports, FacadeError>(
                FacadeError::ExportShapeMismatch,
            ),
        },
        ModulePart::Facade => match module.exports {
            EcmascriptExports::EsmExports(raw) => {
                &&& r matches Ok(EcmascriptExports::EsmExports(t))
                &&& has_default_export(raw.exports@) ==> {
                    &&& t.exports@.len() == 1
                    &&& t.exports@[0].0@ == default_export_name()
                    &&& t.exports@[0].1 matches EsmExport::ImportedBinding(reference, name)
                        && reference == part_reference(module.ident, ModulePart::Exports)
                        && name@ == default_export_name()
                }
                &&& !has_default_export(raw.exports@) ==> t.exports@.len() == 0
                &&& t.star_exports@.len() == 1
                &&& t.star_exports@[0] == part_reference(module.ident, ModulePart::Exports)
            },
            EcmascriptExports::NonEsm => r == Err::<EcmascriptExports, FacadeError>(
                FacadeError::ExportShapeMismatch,
            ),
        },
        ModulePart::RenamedExport { original_export, export } => {
            &&& r matches Ok(EcmascriptExports::EsmExports(t))
            &&& t.exports@.len() == 1
            &&& t.exports@[0].0 == export
            &&& t.exports@[0].1 == EsmExport::ImportedBinding(
                whole_reference(module.ident),
                original_export,
            )
            &&& t.star_exports@.len() == 0
        },
        ModulePart::RenamedNamespace { export } => {
            &&& r matches Ok(EcmascriptExports::EsmExports(t))
            &&& t.exports@.len() == 1
            &&& t.exports@[0].0 == export
            &&& t.exports@[0].1 == EsmExport::ImportedNamespace(whole_reference(module.ident))
            &&& t.star_exports@.len() == 0
        },
        ModulePart::Locals => r == Err::<EcmascriptExports, FacadeError>(FacadeError::InvalidPart),
    }
}

/// Copies a reference list element for element.
fn clone_reference_list(references: &Vec<ModulePartReference>) -> (r: Vec<ModulePartReference>)
    ensures
        r@ == references@,
{
    let mut r: Vec<ModulePartReference> = Vec::new();
    let mut i: usize = 0;
    while i < references.len()
        invariant
            i <= references@.len(),
            r@ == references@.subrange(0, i as int),
        decreases references@.len() - i,
    {
        r.push(references[i].clone());
        i += 1;
        proof {
            assert(r@ =~= references@.subrange(0, i as int));
        }
    }
    proof {
        assert(r@ =~= references@);
    }
    r
}

impl EcmascriptModuleFacadeModule {
    /// A facade standing in for `ty` of `module`.
    pub fn new(module: EcmascriptModule, ty: ModulePart) -> (r: Self)
        ensures
            r.module == module,
            r.ty == ty,
    {
        EcmascriptModuleFacadeModule { module, ty }
    }

    /// The facade's graph identity: the underlying module's identity tagged
    /// with the part. Distinct parts of one module never collide.
    pub fn ident(&self) -> (r: AssetIdent)
        ensures
            r == facade_ident(self.module.ident, self.ty),
    {
        AssetIdent { module: self.module.ident, part: self.ty.clone() }
    }

    /// The set of other module parts this part depends on, as
    /// [`references_of`] states it. Fails on a part that is not supported or
    /// on a module that the `Evaluation` and `Exports` parts cannot be built
    /// from.
    pub fn references(&self) -> (r: Result<Vec<ModulePartReference>, FacadeError>)
        ensures
            match references_of(self.module, self.ty) {
                Ok(references) => r matches Ok(v) && v@ == references,
                Err(e) => r == Err::<Vec<ModulePartReference>, FacadeError>(e),
            },
    {
        match &self.ty {
            ModulePart::Evaluation => match &self.module.analysis {
                Some(analysis) => {
                    let mut references = clone_reference_list(&analysis.evaluation_references);
                    references.push(
                        ModulePartReference::new_part(self.module.ident, ModulePart::Locals),
                    );
                    Ok(references)
                },
                None => Err(FacadeError::AnalysisTypeMismatch),
            },
            ModulePart::Exports => match &self.module.analysis {
                Some(analysis) => {
                    let mut references = clone_reference_list(&analysis.reexport_references);
                    references.push(
                        ModulePartReference::new_part(self.module.ident, ModulePart::Locals),
                    );
                    Ok(references)
                },
                None => Err(FacadeError::AnalysisTypeMismatch),
            },
            ModulePart::Facade => {
                let mut references: Vec<ModulePartReference> = Vec::new();
                references.push(
                    ModulePartReference::new_part(self.module.ident, ModulePart::Evaluation),
                );
                references.push(
                    ModulePartReference::new_part(self.module.ident, ModulePart::Exports),
                );
                Ok(references)
            },
            ModulePart::RenamedNamespace { .. } => {
                let mut references: Vec<ModulePartReference> = Vec::new();
                references.push(ModulePartReference::new(self.module.ident));
                Ok(references)
            },
            ModulePart::RenamedExport { .. } => {
                let mut references: Vec<ModulePartReference> = Vec::new();
                references.push(ModulePartReference::new(self.module.ident));
                Ok(references)
            },
            ModulePart::Locals => Err(FacadeError::InvalidPart),
        }
    }

    /// This part's export table, as [`get_exports_post`] states it: the
    /// `Exports` part rewrites locally-bound exports into imports from the
    /// module's `Locals` part, the `Facade` part is a pure pass-through
    /// shim over the `Exports` part, and the renamed shims export exactly
    /// one name.
    pub fn get_exports(&self) -> (r: Result<EcmascriptExports, FacadeError>)
        ensures
            get_exports_post(self.module, self.ty, r),
    {
        match &self.ty {
            ModulePart::Evaluation => Ok(
                EcmascriptExports::EsmExports(
                    EsmExports { exports: Vec::new(), star_exports: Vec::new() },
                ),
            ),
            ModulePart::Exports => match &self.module.exports {
                EcmascriptExports::EsmExports(raw) => {
                    let mut exports: Vec<(String, EsmExport)> = Vec::new();
                    let n = raw.exports.len();
                    let mut i: usize = 0;
                    while i < n
                        invariant
                            n == raw.exports@.len(),
                            i <= n,
                            exports@.len() == i,
                            forall|k: int|
                                0 <= k < i ==> (#[trigger] exports@[k]).0 == raw.exports@[k].0
                                    && exports@[k].1 == rewritten_export(
                                    self.module.ident,
                                    raw.exports@[k].1,
                                ),
                        decreases n - i,
                    {
                        let name = raw.exports[i].0.clone();
                        let export = match &raw.exports[i].1 {
                            EsmExport::LocalBinding(local_name) => EsmExport::ImportedBinding(
                                ModulePartReference::new_part(
                                    self.module.ident,
                                    ModulePart::Locals,
                                ),
                                local_name.clone(),
                            ),
                            EsmExport::ImportedNamespace(reference) => EsmExport::ImportedNamespace(
                                reference.clone(),
                            ),
                            EsmExport::ImportedBinding(reference, imported_name) => EsmExport::ImportedBinding(
                                reference.clone(),
                                imported_name.clone(),
                            ),
                            EsmExport::Error => EsmExport::Error,
                        };
                        exports.push((name, export));
                        i += 1;
                    }
                    let star_exports = clone_reference_list(&raw.star_exports);
                    Ok(EcmascriptExports::EsmExports(EsmExports { exports, star_exports }))
                },
                EcmascriptExports::NonEsm => Err(FacadeError::ExportShapeMismatch),
            },
            ModulePart::Facade => match &self.module.exports {
                EcmascriptExports::EsmExports(raw) => {
                    let mut exports: Vec<(String, EsmExport)> = Vec::new();
                    let mut star_exports: Vec<ModulePartReference> = Vec::new();
                    let default_name: String = "default".to_owned();
                    let mut found_default = false;
                    let n = raw.exports.len();
                    let mut i: usize = 0;
                    while i < n
                        invariant
                            n == raw.exports@.len(),
                            i <= n,
                            default_name@ == default_export_name(),
                            found_default <==> exists|k: int|
                                0 <= k < i && (#[trigger] raw.exports@[k]).0@
                                    == default_export_name(),
                        decreases n - i,
                    {
                        if raw.exports[i].0 == default_name {
                            found_default = true;
                        }
                        i += 1;
                    }
                    if found_default {
                        exports.push(
                            (
                                "default".to_owned(),
                                EsmExport::ImportedBinding(
                                    ModulePartReference::new_part(
                                        self.module.ident,
                                        ModulePart::Exports,
                                    ),
                                    "default".to_owned(),
                                ),
                            ),
                        );
                    }
                    star_exports.push(
                        ModulePartReference::new_part(self.module.ident, ModulePart::Exports),
                    );
                    Ok(EcmascriptExports::EsmExports(EsmExports { exports, star_exports }))
                },
                EcmascriptExports::NonEsm => Err(FacadeError::ExportShapeMismatch),
            },
            ModulePart::RenamedExport { original_export, export } => {
                let mut exports: Vec<(String, EsmExport)> = Vec::new();
                exports.push(
                    (
                        export.clone(),
                        EsmExport::ImportedBinding(
                            ModulePartReference::new(self.module.ident),
                            original_export.clone(),
                        ),
                    ),
                );
                Ok(
                    EcmascriptExports::EsmExports(
                        EsmExports { exports, star_exports: Vec::new() },
                    ),
                )
            },
            ModulePart::RenamedNamespace { export } => {
                let mut exports: Vec<(String, EsmExport)> = Vec::new();
                exports.push(
                    (
                        export.clone(),
                        EsmExport::ImportedNamespace(ModulePartReference::new(self.module.ident)),
                    ),
                );
                Ok(
                    EcmascriptExports::EsmExports(
                        EsmExports { exports, star_exports: Vec::new() },
                    ),
                )
            },
            ModulePart::Locals => Err(FacadeError::InvalidPart),
        }
    }

    /// Whether this part may be dropped from the output when nothing imports
    /// its exports, as [`side_effect_free_classification`] states it.
    pub fn is_marked_as_side_effect_free(&self) -> (r: Result<bool, FacadeError>)
        ensures
            r == side_effect_free_classification(self.module, self.ty),
    {
        match &self.ty {
            ModulePart::Evaluation => Ok(self.module.side_effect_free),
            ModulePart::Facade => Ok(self.module.side_effect_free),
            ModulePart::Exports => Ok(true),
            ModulePart::RenamedExport { .. } => Ok(true),
            ModulePart::RenamedNamespace { .. } => Ok(true),
            ModulePart::Locals => Err(FacadeError::InvalidPart),
        }
    }

    /// The underlying module's async-module descriptor, unchanged, whatever
    /// the part.
    pub fn get_async_module(&self) -> (r: Option<u64>)
        ensures
            r == self.module.async_module,
    {
        self.module.async_module
    }

    /// A facade module has no content of its own: callers must go through
    /// the chunk-item path, so this always fails.
    pub fn content(&self) -> (r: Result<AssetContent, FacadeError>)
        ensures
            r == Err::<AssetContent, FacadeError>(FacadeError::UnreachableContentAccess),
    {
        Err(FacadeError::UnreachableContentAccess)
    }

    /// Materializes the chunk item that emits this part's re-export glue
    /// code. Requires the chunking context to support ECMAScript chunking;
    /// fails with a capability error otherwise.
    pub fn as_chunk_item(&self, chunking_context: &ChunkingContext) -> (r: Result<
        EcmascriptModuleReexportsChunkItem,
        FacadeError,
    >)
        ensures
            chunking_context.supports_ecmascript ==> (r matches Ok(item)
                && item.module == facade_ident(self.module.ident, self.ty)
                && item.chunking_context == (EcmascriptChunkingContext {
                ident: chunking_context.ident,
            })),
            !chunking_context.supports_ecmascript ==> r == Err::<
                EcmascriptModuleReexportsChunkItem,
                FacadeError,
            >(FacadeError::CapabilityMissing),
    {
        match chunking_context.as_ecmascript() {
            Some(ecmascript_chunking_context) => Ok(
                EcmascriptModuleReexportsChunkItem {
                    module: self.ident(),
                    chunking_context: ecmascript_chunking_context,
                },
            ),
            None => Err(FacadeError::CapabilityMissing),
        }
    }
}

/// Distinct parts of one module get distinct identities: `facade_ident` is
/// injective in the part for a fixed module.
pub proof fn lemma_facade_ident_injective(module_ident: u64, p1: ModulePart, p2: ModulePart)
    requires
        p1 != p2,
    ensures
        facade_ident(module_ident, p1) != facade_ident(module_ident, p2),
{
}

/// Rewriting never leaves a `LocalBinding` behind: a raw `LocalBinding`
/// becomes an import of the same local name from the module's `Locals` part,
/// and every other descriptor passes through unchanged.
pub proof fn lemma_rewritten_export_never_local(module_ident: u64, export: EsmExport)
    ensures
        !(rewritten_export(module_ident, export) is LocalBinding),
        export matches EsmExport::LocalBinding(name) ==> rewritten_export(module_ident, export)
            == EsmExport::ImportedBinding(part_reference(module_ident, ModulePart::Locals), name),
        !(export is LocalBinding) ==> rewritten_export(module_ident, export) == export,
{
}

/// An `Exports`-part export table never contains a `LocalBinding` entry:
/// every table that satisfies the `Exports` clause of [`get_exports_post`]
/// is free of them.
pub proof fn lemma_exports_part_never_local(
    module: EcmascriptModule,
    r: Result<EcmascriptExports, FacadeError>,
)
    requires
        module.exports is EsmExports,
        get_exports_post(module, ModulePart::Exports, r),
    ensures
        r matches Ok(EcmascriptExports::EsmExports(t)) && forall|i: int|
            0 <= i < t.exports@.len() ==> !((#[trigger] t.exports@[i]).1 is LocalBinding),
{
    let raw = module.exports->EsmExports_0;
    let t = r->Ok_0->EsmExports_0;
    assert forall|i: int| 0 <= i < t.exports@.len() implies !((#[trigger] t.exports@[i]).1
        is LocalBinding) by {
        lemma_rewritten_export_never_local(module.ident, raw.exports@[i].1);
    }
}

/// The `Exports` part keeps the raw table a mapping: rewriting preserves
/// every export name in place, so a table whose names are distinct stays
/// that way.
pub proof fn lemma_exports_part_keeps_keys_unique(
    module: EcmascriptModule,
    r: Result<EcmascriptExports, FacadeError>,
)
    requires
        module.exports matches EcmascriptExports::EsmExports(raw) && keys_unique(raw.exports@),
        get_exports_post(module, ModulePart::Exports, r),
    ensures
        r matches Ok(EcmascriptExports::EsmExports(t)) && keys_unique(t.exports@),
{
}

/// The facade part depends on exactly the `Evaluation` part and the
/// `Exports` part of the same underlying module: never on itself, and never
/// on the `Locals` part directly. This is the one part allowed to see both
/// other computed parts, which keeps the transitive fan-out of a split
/// bounded.
pub proof fn lemma_facade_references_evaluation_and_exports(module: EcmascriptModule)
    ensures
        references_of(module, ModulePart::Facade) matches Ok(refs) && refs.len() == 2 && refs[0]
            == part_reference(module.ident, ModulePart::Evaluation) && refs[1] == part_reference(
            module.ident,
            ModulePart::Exports,
        ),
        forall|i: int|
            0 <= i < references_of(module, ModulePart::Facade)->Ok_0.len() ==> references_of(
                module,
                ModulePart::Facade,
            )->Ok_0[i] != part_reference(module.ident, ModulePart::Facade) && references_of(
                module,
                ModulePart::Facade,
            )->Ok_0[i] != part_reference(module.ident, ModulePart::Locals),
{
}

/// What the facade part references depends only on the module's identity,
/// not on its analysis content.
pub proof fn lemma_facade_references_independent_of_analysis(
    m1: EcmascriptModule,
    m2: EcmascriptModule,
)
    requires
        m1.ident == m2.ident,
    ensures
        references_of(m1, ModulePart::Facade) == references_of(m2, ModulePart::Facade),
{
}

/// When a reference set is owed: `references` succeeds exactly when the part
/// supports the operation and, for the `Evaluation` and `Exports` parts, the
/// module is analyzable as an ECMAScript module.
pub proof fn lemma_references_success(module: EcmascriptModule, part: ModulePart)
    ensures
        references_of(module, part) is Ok <==> match part {
            ModulePart::Evaluation => module.analysis is Some,
            ModulePart::Exports => module.analysis is Some,
            ModulePart::Facade => true,
            ModulePart::RenamedExport { .. } => true,
            ModulePart::RenamedNamespace { .. } => true,
            ModulePart::Locals => false,
        },
{
}

/// When an export table is owed: `get_exports` succeeds exactly when the
/// part supports the operation and, for the `Exports` and `Facade` parts,
/// the module's raw export table is ESM-shaped.
pub proof fn lemma_get_exports_success(
    module: EcmascriptModule,
    part: ModulePart,
    r: Result<EcmascriptExports, FacadeError>,
)
    requires
        get_exports_post(module, part, r),
    ensures
        r is Ok <==> match part {
            ModulePart::Evaluation => true,
            ModulePart::Exports => module.exports is EsmExports,
            ModulePart::Facade => module.exports is EsmExports,
            ModulePart::RenamedExport { .. } => true,
            ModulePart::RenamedNamespace { .. } => true,
            ModulePart::Locals => false,
        },
{
}

/// The side-effect classification in one statement: the `Exports` part and
/// both renamed shims are unconditionally side-effect free, while the
/// `Evaluation` and `Facade` parts inherit the underlying module's own
/// annotation.
pub proof fn lemma_side_effect_classification(
    module: EcmascriptModule,
    original_export: String,
    export: String,
    namespace_export: String,
)
    ensures
        side_effect_free_classification(module, ModulePart::Exports) == Ok::<bool, FacadeError>(
            true,
        ),
        side_effect_free_classification(
            module,
            (ModulePart::RenamedExport { original_export, export }),
        ) == Ok::<bool, FacadeError>(true),
        side_effect_free_classification(
            module,
            (ModulePart::RenamedNamespace { export: namespace_export }),
        ) == Ok::<bool, FacadeError>(true),
        side_effect_free_classification(module, ModulePart::Evaluation) == Ok::<
            bool,
            FacadeError,
        >(module.side_effect_free),
        side_effect_free_classification(module, ModulePart::Facade) == Ok::<bool, FacadeError>(
            module.side_effect_free,
        ),
{
}

} // verus!
