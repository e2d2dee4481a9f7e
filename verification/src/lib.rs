//! Facade modules for side-effect optimization in a JavaScript/TypeScript
//! bundler's chunk-graph construction.
//!
//! When a bundler splits an ECMAScript module into independently chunkable
//! parts (top-level evaluation, export bindings, local bindings, a
//! transparent facade, or renamed re-export shims), each part needs its own
//! graph identity, its own dependency references, and its own export table.
//! This crate implements that computation: given a snapshot of a module's
//! analysis and a requested [`part::ModulePart`], the
//! [`facade::EcmascriptModuleFacadeModule`] derives the part's identity,
//! rewrites locally-bound exports into imports from the sibling locals part,
//! and classifies the part's side effects, so that a downstream tree-shaking
//! pass can include only the code a consumer actually needs.

pub mod chunking;
pub mod error;
pub mod exports;
pub mod facade;
pub mod module;
pub mod part;
pub mod reference;
