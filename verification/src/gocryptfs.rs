//! Encrypted FUSE filesystem: the gocryptfs backend.
//!
//! The filesystem is driven as a subprocess, which this crate cannot spawn;
//! `Crypt` is the decision core of that dialogue. It prepares the storage
//! directory itself, hands the embedding program the exact command to run for
//! initialization, mounting and unmounting — the passphrase is never held
//! here, only the instruction to feed one on the child's standard input — and
//! interprets each exit status. Teardown clears the recorded mount state
//! first, so a failed unmount is never attempted twice.

use vstd::prelude::*;
use vstd::string::StringExecFns;

use crate::effects::{Effect, EffectLog};
use crate::mounts::ensure_dir;
use crate::paths::AbsPath;

verus! {

/// Gocryptfs error.
#[derive(Clone, Copy, Debug, PartialEq, Eq, Structural)]
pub enum Error {
    /// Creating the storage directory failed (OS error number).
    Dir(i32),
    /// The initialization subprocess failed.
    Init,
    /// The mount subprocess failed.
    Mount,
    /// The unmount subprocess failed.
    Unmount,
    /// A mount was requested before initialization succeeded.
    NotInitialized,
    /// A mount outcome was reported with no mount in flight.
    NoMountPending,
}

/// One subprocess the embedding program must run on this handle's behalf.
/// When `feed_passphrase` is set, the passphrase is written once to the
/// child's standard input and nowhere else.
pub struct SubprocessCmd {
    pub program: String,
    pub args: Vec<String>,
    pub feed_passphrase: bool,
}

/// The command that initializes an encrypted storage directory.
pub open spec fn is_init_cmd(c: SubprocessCmd, dir: Seq<char>) -> bool {
    &&& c.program@ == "gocryptfs"@
    &&& c.args@.len() == 3
    &&& c.args@[0]@ == "-q"@
    &&& c.args@[1]@ == "-init"@
    &&& c.args@[2]@ == dir
    &&& c.feed_passphrase
}

/// The command that mounts an encrypted storage directory at a target.
pub open spec fn is_mount_cmd(c: SubprocessCmd, dir: Seq<char>, target: Seq<char>) -> bool {
    &&& c.program@ == "gocryptfs"@
    &&& c.args@.len() == 4
    &&& c.args@[0]@ == "-q"@
    &&& c.args@[1]@ == "-nonempty"@
    &&& c.args@[2]@ == dir
    &&& c.args@[3]@ == target
    &&& c.feed_passphrase
}

/// The privileged unmount command for a FUSE mount.
pub open spec fn is_umount_cmd(c: SubprocessCmd, target: Seq<char>) -> bool {
    &&& c.program@ == "umount"@
    &&& c.args@.len() == 1
    &&& c.args@[0]@ == target
    &&& !c.feed_passphrase
}

/// Gocryptfs encrypted filesystem.
pub struct Crypt {
    storage_directory: AbsPath,
    initialized: bool,
    pending_mount: Option<AbsPath>,
    mount_path: Option<AbsPath>,
    log: EffectLog,
}

impl Crypt {
    /// The encrypted storage directory.
    pub closed spec fn spec_dir(&self) -> Seq<char> {
        self.storage_directory@
    }

    /// Whether the storage directory is known to hold an initialized
    /// filesystem.
    pub closed spec fn spec_initialized(&self) -> bool {
        self.initialized
    }

    /// The target of a mount whose outcome has not been reported yet.
    pub closed spec fn spec_pending(&self) -> Option<Seq<char>> {
        match self.pending_mount {
            Some(p) => Some(p@),
            None => None,
        }
    }

    /// The path the filesystem is currently mounted at, if any.
    pub closed spec fn spec_mounted(&self) -> Option<Seq<char>> {
        match self.mount_path {
            Some(p) => Some(p@),
            None => None,
        }
    }

    /// The system effects this handle has performed.
    pub closed spec fn trace(&self) -> Seq<Effect> {
        self.log@
    }

    /// Mount activity presupposes an initialized filesystem.
    pub open spec fn wf(&self) -> bool {
        &&& self.spec_pending() is Some ==> self.spec_initialized()
        &&& self.spec_mounted() is Some ==> self.spec_initialized()
    }

    /// Whether the filesystem is currently recorded as mounted at `p`.
    pub fn is_mounted_at(&self, p: &AbsPath) -> (r: bool)
        ensures
            r == (self.spec_mounted() == Some(p@)),
    {
        match &self.mount_path {
            Some(m) => m.equals(p),
            None => false,
        }
    }

    /// Whether the storage directory holds an initialized filesystem.
    pub fn is_initialized(&self) -> (r: bool)
        ensures
            r == self.spec_initialized(),
    {
        self.initialized
    }

    /// Opens or creates the encrypted storage directory.
    ///
    /// The directory (and missing parents) is created here. If it already
    /// carries the filesystem's configuration marker the handle is ready;
    /// otherwise the returned command must be run, with the passphrase on its
    /// standard input, and its outcome reported to [`Crypt::report_init`].
    pub fn new(storage_directory: AbsPath) -> (r: Result<(Crypt, Option<SubprocessCmd>), Error>)
        requires
            storage_directory.wf(),
        ensures
            r matches Ok(p) ==> {
                &&& p.0.wf()
                &&& p.0.spec_dir() == storage_directory@
                &&& p.0.spec_mounted() is None
                &&& p.0.spec_pending() is None
                &&& p.0.trace() =~= seq![Effect::EnsureDir { path: storage_directory@ }]
                &&& match p.1 {
                    Some(cmd) => is_init_cmd(cmd, storage_directory@)
                        && !p.0.spec_initialized(),
                    None => p.0.spec_initialized(),
                }
            },
            r matches Err(e) ==> e is Dir,
    {
        let mut log = EffectLog::new();
        if let Err(e) = ensure_dir(&mut log, &storage_directory) {
            return Err(Error::Dir(e));
        }
        // The filesystem leaves its configuration marker at the directory's
        // top level; its presence means the directory is initialized.
        let mut conf = storage_directory.duplicate().into_string();
        conf.append("/gocryptfs.conf");
        let cmd = if crate::sys::path_exists(conf.as_str()) {
            None
        } else {
            Some(init_command(&storage_directory))
        };
        let initialized = match &cmd {
            None => true,
            Some(_) => false,
        };
        Ok(
            (
                Crypt {
                    storage_directory,
                    initialized,
                    pending_mount: None,
                    mount_path: None,
                    log,
                },
                cmd,
            ),
        )
    }

    /// Records the exit status of the initialization command: zero marks the
    /// directory initialized, anything else is fatal.
    pub fn report_init(&mut self, status: i32) -> (r: Result<(), Error>)
        requires
            old(self).wf(),
        ensures
            final(self).wf(),
            final(self).spec_dir() == old(self).spec_dir(),
            final(self).spec_pending() == old(self).spec_pending(),
            final(self).spec_mounted() == old(self).spec_mounted(),
            final(self).trace() == old(self).trace(),
            status == 0 ==> r is Ok && final(self).spec_initialized(),
            status != 0 ==> r == Err::<(), Error>(Error::Init) && final(self).spec_initialized()
                == old(self).spec_initialized(),
    {
        if status == 0 {
            self.initialized = true;
            Ok(())
        } else {
            Err(Error::Init)
        }
    }

    /// Requests a mount at `path`: hands back the command to run, with the
    /// passphrase on its standard input; the outcome must be reported to
    /// [`Crypt::report_mount`]. Fails unless the filesystem is initialized.
    pub fn mount(&mut self, path: AbsPath) -> (r: Result<SubprocessCmd, Error>)
        requires
            old(self).wf(),
            path.wf(),
        ensures
            final(self).wf(),
            final(self).spec_dir() == old(self).spec_dir(),
            final(self).spec_initialized() == old(self).spec_initialized(),
            final(self).spec_mounted() == old(self).spec_mounted(),
            final(self).trace() == old(self).trace(),
            !old(self).spec_initialized() ==> r == Err::<SubprocessCmd, Error>(
                Error::NotInitialized,
            ) && final(self).spec_pending() == old(self).spec_pending(),
            old(self).spec_initialized() ==> (r matches Ok(cmd) && is_mount_cmd(
                cmd,
                old(self).spec_dir(),
                path@,
            ) && final(self).spec_pending() == Some(path@)),
    {
        if !self.initialized {
            return Err(Error::NotInitialized);
        }
        let cmd = mount_command(&self.storage_directory, &path);
        self.pending_mount = Some(path);
        Ok(cmd)
    }

    /// Records the exit status of the mount command: zero records the pending
    /// target as the active mount, anything else is fatal and leaves the
    /// handle unmounted.
    pub fn report_mount(&mut self, status: i32) -> (r: Result<(), Error>)
        requires
            old(self).wf(),
        ensures
            final(self).wf(),
            final(self).spec_dir() == old(self).spec_dir(),
            final(self).spec_initialized() == old(self).spec_initialized(),
            final(self).spec_pending() is None,
            final(self).trace() == old(self).trace(),
            old(self).spec_pending() is None ==> r == Err::<(), Error>(Error::NoMountPending)
                && final(self).spec_mounted() == old(self).spec_mounted(),
            old(self).spec_pending() matches Some(p) ==> if status == 0 {
                r is Ok && final(self).spec_mounted() == Some(p)
            } else {
                r == Err::<(), Error>(Error::Mount) && final(self).spec_mounted() == old(self).spec_mounted()
            },
    {
        let pending = match &self.pending_mount {
            Some(p) => Some(p.duplicate()),
            None => None,
        };
        self.pending_mount = None;
        match pending {
            None => Err(Error::NoMountPending),
            Some(p) => {
                if status == 0 {
                    self.mount_path = Some(p);
                    Ok(())
                } else {
                    Err(Error::Mount)
                }
            },
        }
    }

    /// Begins teardown: if a mount is recorded, clears it and hands back the
    /// privileged unmount command (plain unmounting lacks the capability a
    /// FUSE mount requires); otherwise there is nothing to do. The recorded
    /// state is cleared before the command runs, so a second teardown returns
    /// nothing and a failed unmount is never retried.
    pub fn teardown(&mut self) -> (r: Option<SubprocessCmd>)
        requires
            old(self).wf(),
        ensures
            final(self).wf(),
            final(self).spec_dir() == old(self).spec_dir(),
            final(self).spec_initialized() == old(self).spec_initialized(),
            final(self).spec_pending() is None,
            final(self).spec_mounted() is None,
            final(self).trace() == old(self).trace(),
            old(self).spec_mounted() matches Some(p) ==> (r matches Some(cmd) && is_umount_cmd(
                cmd,
                p,
            )),
            old(self).spec_mounted() is None ==> r is None,
    {
        self.pending_mount = None;
        let mounted = match &self.mount_path {
            Some(p) => Some(p.duplicate()),
            None => None,
        };
        self.mount_path = None;
        match mounted {
            Some(p) => Some(umount_command(&p)),
            None => None,
        }
    }

    /// Interprets the exit status of the unmount command: anything but zero
    /// is an unmount failure. The mount state was already cleared when the
    /// command was handed out, so this decides only what to report.
    pub fn report_unmount(status: i32) -> (r: Result<(), Error>)
        ensures
            status == 0 ==> r is Ok,
            status != 0 ==> r == Err::<(), Error>(Error::Unmount),
    {
        if status == 0 {
            Ok(())
        } else {
            Err(Error::Unmount)
        }
    }
}

fn init_command(dir: &AbsPath) -> (r: SubprocessCmd)
    ensures
        is_init_cmd(r, dir@),
{
    let mut args: Vec<String> = Vec::new();
    args.push("-q".to_owned());
    args.push("-init".to_owned());
    args.push(dir.duplicate().into_string());
    SubprocessCmd { program: "gocryptfs".to_owned(), args, feed_passphrase: true }
}

fn mount_command(dir: &AbsPath, target: &AbsPath) -> (r: SubprocessCmd)
    ensures
        is_mount_cmd(r, dir@, target@),
{
    let mut args: Vec<String> = Vec::new();
    args.push("-q".to_owned());
    args.push("-nonempty".to_owned());
    args.push(dir.duplicate().into_string());
    args.push(target.duplicate().into_string());
    SubprocessCmd { program: "gocryptfs".to_owned(), args, feed_passphrase: true }
}

fn umount_command(target: &AbsPath) -> (r: SubprocessCmd)
    ensures
        is_umount_cmd(r, target@),
{
    let mut args: Vec<String> = Vec::new();
    args.push(target.duplicate().into_string());
    SubprocessCmd { program: "umount".to_owned(), args, feed_passphrase: false }
}

} // verus!
