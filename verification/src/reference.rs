//! Opaque dependency descriptors pointing at a whole module or at one of its
//! parts, resolved later by the graph walker.

use vstd::prelude::*;
use crate::part::ModulePart;

verus! {

/// A dependency reference discovered during chunk-graph construction.
///
/// A reference either names a whole, unpartitioned module or a specific
/// [`ModulePart`] of a module. The underlying module is named by its graph
/// identity.
#[derive(Debug, PartialEq, Eq, Hash)]
pub enum ModulePartReference {
    /// A reference to the whole, unpartitioned module.
    Entire { module: u64 },
    /// A reference to one part of the module.
    Part { module: u64, part: ModulePart },
}

impl ModulePartReference {
    /// A reference to the whole module.
    pub fn new(module: u64) -> (r: Self)
        ensures
            r == (ModulePartReference::Entire { module }),
    {
        ModulePartReference::Entire { module }
    }

    /// A reference to one part of the module.
    pub fn new_part(module: u64, part: ModulePart) -> (r: Self)
        ensures
            r == (ModulePartReference::Part { module, part }),
    {
        ModulePartReference::Part { module, part }
    }
}

impl Clone for ModulePartReference {
    fn clone(&self) -> (res: Self)
        ensures
            res == *self,
    {
        match self {
            ModulePartReference::Entire { module } => (ModulePartReference::Entire {
                module: *module,
            }),
            ModulePartReference::Part { module, part } => (ModulePartReference::Part {
                module: *module,
                part: part.clone(),
            }),
        }
    }
}

} // verus!
