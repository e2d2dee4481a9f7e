//! The fatal errors a facade computation can surface. None of them is
//! recoverable: each indicates a malformed module graph or a misconfigured
//! pipeline, and fails the build step that needed the part.

use vstd::prelude::*;

verus! {

/// Why a facade-module query failed.
#[derive(Debug, Clone, Copy, PartialEq, Eq, Structural)]
pub enum FacadeError {
    /// The `Evaluation` or `Exports` part was requested on a module that is
    /// not analyzable as an ECMAScript module.
    AnalysisTypeMismatch,
    /// The `Exports` or `Facade` part was requested on a module whose raw
    /// export table is not ESM-shaped.
    ExportShapeMismatch,
    /// An operation was invoked with a `ModulePart` variant it does not
    /// support.
    InvalidPart,
    /// The chunking context lacks the ECMAScript chunking capability.
    CapabilityMissing,
    /// `content` was invoked at all: callers must go through the chunk-item
    /// path instead.
    UnreachableContentAccess,
}

impl FacadeError {
    /// The descriptive message this error surfaces with.
    pub open spec fn message_spec(self) -> Seq<char> {
        match self {
            FacadeError::AnalysisTypeMismatch => "expected an ECMAScript module asset for this module part"@,
            FacadeError::ExportShapeMismatch => "facade modules must only be used on modules with ESM exports"@,
            FacadeError::InvalidPart => "unexpected module part for a facade module"@,
            FacadeError::CapabilityMissing => "chunking context must support ECMAScript chunking to use a facade module"@,
            FacadeError::UnreachableContentAccess => "content of a facade module is only available through its chunk item"@,
        }
    }

    /// The descriptive message this error surfaces with.
    pub fn message(&self) -> (r: String)
        ensures
            r@ == self.message_spec(),
    {
        match self {
            FacadeError::AnalysisTypeMismatch => "expected an ECMAScript module asset for this module part".to_owned(),
            FacadeError::ExportShapeMismatch => "facade modules must only be used on modules with ESM exports".to_owned(),
            FacadeError::InvalidPart => "unexpected module part for a facade module".to_owned(),
            FacadeError::CapabilityMissing => "chunking context must support ECMAScript chunking to use a facade module".to_owned(),
            FacadeError::UnreachableContentAccess => "content of a facade module is only available through its chunk item".to_owned(),
        }
    }
}

} // verus!
