//! The snapshot of an underlying module that the facade computation reads:
//! its graph identity, its analysis results, and its annotations.

use vstd::prelude::*;
use crate::exports::EcmascriptExports;
use crate::part::ModulePart;
use crate::reference::ModulePartReference;

verus! {

/// The result of analyzing a module as an ECMAScript asset: the precomputed
/// reference lists that the `Evaluation` and `Exports` parts start from.
#[derive(Debug, PartialEq, Eq)]
pub struct ModuleAnalysis {
    /// References made by the module's top-level evaluation code.
    pub evaluation_references: Vec<ModulePartReference>,
    /// References made by the module's re-export declarations.
    pub reexport_references: Vec<ModulePartReference>,
}

/// A read-only snapshot of the underlying module, as supplied by the
/// analysis collaborator.
#[derive(Debug, PartialEq, Eq)]
pub struct EcmascriptModule {
    /// The module's own graph identity.
    pub ident: u64,
    /// Analysis results; present exactly when the module is analyzable as an
    /// ECMAScript module.
    pub analysis: Option<ModuleAnalysis>,
    /// The module's raw export table.
    pub exports: EcmascriptExports,
    /// Whether the module is annotated as free of top-level side effects.
    pub side_effect_free: bool,
    /// The module's async-module descriptor, if it is an async module.
    pub async_module: Option<u64>,
}

/// The graph identity of a facade module: the underlying module's identity
/// tagged with the part the facade stands for.
#[derive(Debug, PartialEq, Eq, Hash)]
pub struct AssetIdent {
    pub module: u64,
    pub part: ModulePart,
}

} // verus!
