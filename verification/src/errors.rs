//! The error taxonomy of the compilation pipeline.

use vstd::prelude::*;

verus! {

/// Every failing stage of the pipeline reports one of these; no stage panics
/// or aborts the process for caller-supplied input.
#[derive(Clone, Debug, PartialEq, Eq)]
pub enum CompilerError {
    /// Malformed source text; surfaced verbatim to the caller.
    ParseError,
    /// Emission failed: the named symbol could not be resolved against the
    /// dependency set and the unit's own modules.
    CompileError { symbol: Vec<u8> },
    /// A module compile was requested on a source unit that does not contain
    /// exactly one module definition; `found` is how many it contains.
    ArityError { found: usize },
    /// A byte sequence violates the canonical encoding of an artifact.
    SerializationError,
}

} // verus!
