//! A typed reflection and configuration layer over a SPIR-V cross-compiler
//! engine.
//!
//! A parsed module is owned by an [`spirv::Ast`] handle, which exposes typed
//! reflection queries (types, names, decorations, entry points, resources,
//! specialization constants), accepts target-specific compilation options
//! (the Metal Shading Language backend in [`msl`]), and drives compilation to
//! textual source.  Every query follows one discipline at the engine
//! boundary: check the status code, copy each variable-length result into an
//! owned value, and release every buffer that the engine allocated, even when
//! an error interrupts the query half-way.

use vstd::prelude::*;

pub mod compiler;
pub mod engine;
pub mod msl;
pub mod native;
pub mod spirv;
pub mod table;

verus! {

/// An error that an operation on a parsed module can surface.
#[derive(Clone, Debug, PartialEq, Eq, Hash)]
pub enum ErrorCode {
    /// A failure that carries no diagnostic: a name could not be encoded as
    /// native text, a native result could not be decoded, or the engine
    /// reported an unclassified failure.
    Unhandled,
    /// The engine rejected the input or the configuration; carries the
    /// engine's diagnostic message.
    CompilationError(String),
}

} // verus!
