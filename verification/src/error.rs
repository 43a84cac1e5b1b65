//! The error taxonomy of the library.
//!
//! Contract violations (caller bugs: reusing a consumed single-use command
//! buffer, building a buffer with empty usage, touching the context outside
//! its lifecycle) are kept distinct from recoverable failures such as a
//! fence-wait timeout.  Bounds failures in span resolution are not errors at
//! all: they collapse to the invalid sentinel span and degrade to no-ops.

use vstd::prelude::*;

verus! {

/// A caller-side contract violation: a programming error, reported as its
/// own kind so lifecycle misuse can be probed without crashing the process.
#[derive(Clone, Copy, Debug, PartialEq, Eq, Structural)]
pub enum Violation {
    /// A single-use command buffer was submitted and can no longer record.
    CommandBufferConsumed,
    /// A buffer was built with an empty usage-flag set.
    EmptyBufferUsage,
    /// A buffer was built with initial data and no host mapping, but without
    /// transfer-destination usage, so the implicit staging copy is
    /// impossible.
    MissingTransferDst,
    /// The device context was initialized while already initialized.
    ContextAlreadyInitialized,
    /// The device context was accessed or destroyed while uninitialized.
    ContextUninitialized,
}

/// The failure kinds surfaced by the library.
#[derive(Clone, Copy, Debug, PartialEq, Eq, Structural)]
pub enum Error {
    /// A precondition violation by the caller; see [`Violation`].
    Contract(Violation),
    /// A bounded fence wait elapsed before the fence was signaled.  Distinct
    /// from an error: the underlying work is not cancelled, only the
    /// caller's block is bounded.
    Timeout,
}

impl Error {
    /// A short description of the failure, for diagnostics.
    pub fn describe(&self) -> (s: &'static str)
        ensures
            s@.len() > 0,
    {
        let s = match self {
            Error::Contract(Violation::CommandBufferConsumed) => {
                "command buffer is no longer usable"
            },
            Error::Contract(Violation::EmptyBufferUsage) => "buffer usage cannot be empty",
            Error::Contract(Violation::MissingTransferDst) => {
                "building a buffer with data and unmapped memory needs transfer-destination usage"
            },
            Error::Contract(Violation::ContextAlreadyInitialized) => {
                "context is already initialized"
            },
            Error::Contract(Violation::ContextUninitialized) => "context is not initialized",
            Error::Timeout => "timed out waiting for a fence",
        };
        proof {
            reveal_strlit("command buffer is no longer usable");
            reveal_strlit("buffer usage cannot be empty");
            reveal_strlit(
                "building a buffer with data and unmapped memory needs transfer-destination usage",
            );
            reveal_strlit("context is already initialized");
            reveal_strlit("context is not initialized");
            reveal_strlit("timed out waiting for a fence");
        }
        s
    }
}

} // verus!
