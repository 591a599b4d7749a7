//! Construction of an isolated, mostly-readonly execution environment:
//! user-namespace identity mapping, a tmpfs-backed readonly root with a
//! writable escape hatch, and encrypted home-directory backends.
//!
//! Everything that decides — path construction, identity-map records, the
//! mount-layer ordering, and the lifecycle state machines of the two
//! encrypted-storage backends — lives here and is verified. The kernel calls
//! stand behind small trusted wrappers whose effects are recorded in a ghost
//! log; the encryption-library and subprocess calls are handed to the
//! embedding program as explicit actions whose outcomes come back here to be
//! interpreted.

pub mod crypt;
pub mod effects;
pub mod errors;
pub mod fmt;
pub mod gocryptfs;
pub mod mounts;
pub mod namespaces;
pub mod paths;
pub mod sandbox;
mod sys;

pub use paths::AbsPath;
