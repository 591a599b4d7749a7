//! Errors of sandbox construction.
//!
//! Setup errors are unrecoverable for the invocation: they surface to the
//! caller, which reports them and exits. Numeric payloads are raw OS error
//! numbers from the failing call.

use vstd::prelude::*;

verus! {

/// Why a sandbox construction step failed.
#[derive(Clone, Copy, Debug, PartialEq, Eq, Structural)]
pub enum SandboxError {
    /// Creating a namespace was refused.
    Namespace(i32),
    /// Writing an identity-map record was rejected, or cut short.
    IdMap(i32),
    /// A mount, remount, bind, pivot or directory-creation call failed.
    Mount(i32),
    /// The mount layering was already performed in this session.
    AlreadyBuilt,
    /// The writable escape path does not lie strictly below the new root.
    WriteRootEscapes,
    /// A session phase was entered out of order.
    OutOfOrder,
}

} // verus!
