//! Export tables: the name-to-descriptor mapping and star-reexport list that
//! analysis produces for a module and that this crate recomputes per part.

use vstd::prelude::*;
use crate::reference::ModulePartReference;

verus! {

/// What a single exported name resolves to.
#[derive(Debug, PartialEq, Eq, Hash)]
pub enum EsmExport {
    /// A binding defined in the module itself, named by its local name.
    LocalBinding(String),
    /// The whole namespace object of another module.
    ImportedNamespace(ModulePartReference),
    /// A single binding imported from another module under the given name.
    ImportedBinding(ModulePartReference, String),
    /// A broken or ambiguous export placeholder.
    Error,
}

/// An ESM-shaped export table: an ordered mapping from export name to
/// descriptor, plus the list of star-reexport sources whose exports flow
/// through wholesale (lowest priority, resolved later by the graph walker).
#[derive(Debug, PartialEq, Eq)]
pub struct EsmExports {
    pub exports: Vec<(String, EsmExport)>,
    pub star_exports: Vec<ModulePartReference>,
}

/// The raw export shape of a module as reported by analysis. Only modules
/// with ESM-shaped exports can be split by this crate.
#[derive(Debug, PartialEq, Eq)]
pub enum EcmascriptExports {
    /// Static ECMAScript `export` declarations.
    EsmExports(EsmExports),
    /// Any non-ESM export shape (CommonJS, dynamic namespace, plain value).
    NonEsm,
}

impl Clone for EsmExport {
    fn clone(&self) -> (res: Self)
        ensures
            res == *self,
    {
        match self {
            EsmExport::LocalBinding(name) => EsmExport::LocalBinding(name.clone()),
            EsmExport::ImportedNamespace(reference) => EsmExport::ImportedNamespace(
                reference.clone(),
            ),
            EsmExport::ImportedBinding(reference, name) => EsmExport::ImportedBinding(
                reference.clone(),
                name.clone(),
            ),
            EsmExport::Error => EsmExport::Error,
        }
    }
}

/// Whether the table maps each export name at most once.
pub open spec fn keys_unique(exports: Seq<(String, EsmExport)>) -> bool {
    forall|i: int, j: int|
        0 <= i < exports.len() && 0 <= j < exports.len() && i != j ==> (#[trigger] exports[i]).0@
            != (#[trigger] exports[j]).0@
}

} // verus!
