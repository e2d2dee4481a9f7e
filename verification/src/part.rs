//! The closed set of logical slices a module can be split into.

use vstd::prelude::*;

verus! {

/// Which logical slice of an underlying module a facade module stands for.
///
/// `Evaluation`, `Exports`, `Locals` and `Facade` partition a single module;
/// `RenamedExport` and `RenamedNamespace` are re-export shims that rebind one
/// name of the whole, unpartitioned module.
#[derive(Debug, PartialEq, Eq, Hash)]
pub enum ModulePart {
    /// The module's top-level side-effecting code, excluding exports.
    Evaluation,
    /// The module's export bindings, excluding top-level side effects.
    Exports,
    /// The module's locally defined bindings, referenced by the `Evaluation`
    /// and `Exports` parts and never directly chunked by this crate.
    Locals,
    /// A transparent re-export of both `Evaluation` and `Exports`, standing in
    /// for the whole original module.
    Facade,
    /// A single re-exported binding under a new external name.
    RenamedExport { original_export: String, export: String },
    /// A re-exported namespace object under a new external name.
    RenamedNamespace { export: String },
}

impl Clone for ModulePart {
    fn clone(&self) -> (res: Self)
        ensures
            res == *self,
    {
        match self {
            ModulePart::Evaluation => ModulePart::Evaluation,
            ModulePart::Exports => ModulePart::Exports,
            ModulePart::Locals => ModulePart::Locals,
            ModulePart::Facade => ModulePart::Facade,
            ModulePart::RenamedExport { original_export, export } => (ModulePart::RenamedExport {
                original_export: original_export.clone(),
                export: export.clone(),
            }),
            ModulePart::RenamedNamespace { export } => (ModulePart::RenamedNamespace {
                export: export.clone(),
            }),
        }
    }
}

} // verus!
