//! A ghost log of the system effects a sandbox session performs.
//!
//! Namespace, mount and identity-map mutations are process-wide and
//! order-dependent. Each function that performs one records it here, so that
//! contracts can state exactly which effects a call makes and in what order —
//! in particular that a readonly remount comes only after the writable escape
//! directory exists, and that a second teardown performs nothing.
//!
//! The log records completed logical effects only: an operation that failed
//! partway — a record write cut short, a backing file created but not sized,
//! a directory chain created only in part — is not recorded, and the
//! surrounding contract reports the failure instead. Reads are not effects;
//! the one exception is the identity capture, recorded so that contracts can
//! state it happened before the namespace change whose mapping uses it.

use vstd::prelude::*;

verus! {

/// One system interaction performed by this library.
pub enum Effect {
    /// The process's effective user and group IDs were read, to serve as the
    /// parent side of an identity mapping.
    CaptureIds { uid: u32, gid: u32 },
    /// A new user namespace was requested, with a new mount namespace as well
    /// when `mount_ns` is set.
    Unshare { mount_ns: bool },
    /// A fresh backing file of `size` bytes was created at `path`.
    CreateBacking { path: Seq<char>, size: u64 },
    /// The working directory moved to `path`; `queried` is what the kernel
    /// reported as the working directory just before the root was moved, so
    /// either the move restored it (`queried == Some(path)`) or it fell back
    /// to the root.
    Chdir { path: Seq<char>, queried: Option<Seq<char>> },
    /// `data` was written, in one write, to the file at `path`.
    WriteFile { path: Seq<char>, data: Seq<char> },
    /// The directory `path` and its missing parents were created.
    EnsureDir { path: Seq<char> },
    /// The single directory `path` was created.
    Mkdir { path: Seq<char> },
    /// An anonymous memory-backed filesystem was mounted at `target`.
    MountTmpfs { target: Seq<char> },
    /// `source` was recursively bind-mounted at `target`.
    RecursiveBind { source: Seq<char>, target: Seq<char> },
    /// `source` was bind-mounted at `target`.
    BindMount { source: Seq<char>, target: Seq<char> },
    /// The mount at `target` was remounted bind+readonly.
    RemountReadonly { target: Seq<char> },
    /// The process root moved to `new_root`, the old root now at `put_old`.
    Pivot { new_root: Seq<char>, put_old: Seq<char> },
    /// A force-unmount with lazy detach was requested for the mount at
    /// `target`; `ok` records its outcome, which during teardown is reported
    /// here and never allowed to stop the release.
    Unmount { target: Seq<char>, ok: bool },
}

/// The ordered log of effects performed so far.
pub struct EffectLog {
    trace: Ghost<Seq<Effect>>,
}

impl View for EffectLog {
    type V = Seq<Effect>;

    closed spec fn view(&self) -> Seq<Effect> {
        self.trace@
    }
}

impl EffectLog {
    /// An empty log.
    pub fn new() -> (r: EffectLog)
        ensures
            r@ =~= Seq::<Effect>::empty(),
    {
        EffectLog { trace: Ghost(Seq::empty()) }
    }

    /// Records one effect. Called, in verified code, directly beside the
    /// wrapper call that performs it.
    pub(crate) fn note(&mut self, e: Ghost<Effect>)
        ensures
            final(self)@ == old(self)@.push(e@),
    {
        let ghost t = self.trace@.push(e@);
        self.trace = Ghost(t);
    }
}

} // verus!
