//! The chunking-context collaborator and the chunk item a facade module
//! materializes into. Emission of the actual re-export glue code is out of
//! scope: the chunk item only records what is to be emitted for whom.

use vstd::prelude::*;
use crate::module::AssetIdent;

verus! {

/// A typed handle to a chunking context that is capable of ECMAScript
/// chunking. Obtained only by a successful capability query on a
/// [`ChunkingContext`].
#[derive(Debug, Clone, Copy, PartialEq, Eq, Structural)]
pub struct EcmascriptChunkingContext {
    pub ident: u64,
}

/// A generic chunking-context handle. Whether it supports ECMAScript
/// chunking is only known after a runtime capability query.
#[derive(Debug, Clone, Copy, PartialEq, Eq, Structural)]
pub struct ChunkingContext {
    pub ident: u64,
    pub supports_ecmascript: bool,
}

impl ChunkingContext {
    /// The capability query: the ECMAScript-typed handle to this context, if
    /// the context supports ECMAScript chunking.
    pub fn as_ecmascript(&self) -> (r: Option<EcmascriptChunkingContext>)
        ensures
            self.supports_ecmascript ==> r == Some(
                EcmascriptChunkingContext { ident: self.ident },
            ),
            !self.supports_ecmascript ==> r is None,
    {
        if self.supports_ecmascript {
            Some(EcmascriptChunkingContext { ident: self.ident })
        } else {
            None
        }
    }
}

/// The chunk item responsible for emitting a facade module's re-export glue
/// code: which facade module to emit, and under which chunking context.
#[derive(Debug, PartialEq, Eq)]
pub struct EcmascriptModuleReexportsChunkItem {
    pub module: AssetIdent,
    pub chunking_context: EcmascriptChunkingContext,
}

/// The serialized content of an asset. A facade module never produces one:
/// its output exists only through its chunk item.
#[derive(Debug, Clone, Copy, PartialEq, Eq, Structural)]
pub struct AssetContent {}

} // verus!
