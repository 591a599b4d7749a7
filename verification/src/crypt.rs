//! File-backed encrypted mount: the block-device (LUKS) backend.
//!
//! The encryption library is driven through its C interface, which this crate
//! cannot call itself; `Crypt` is the complete decision core of that dialogue.
//! It owns the lifecycle state machine — initialize, then either load
//! existing headers or format and add a key slot, then activate the mapping,
//! and for a fresh container build a filesystem — and tells its driver which
//! call to perform next (`next_action`) and what each outcome means
//! (`on_result`). The bind mount of the mapped device and the unmount during
//! teardown are performed here directly.
//!
//! Teardown order is mandatory and idempotent: unmount first, then request
//! deactivation of the mapping, then release of the library handle; a second
//! teardown performs and requests nothing.

use vstd::prelude::*;
use vstd::string::StringExecFns;

use crate::effects::{Effect, EffectLog};
use crate::paths::AbsPath;
use crate::sys;

verus! {

/// Cryptsetup error.
#[derive(Clone, Copy, Debug, PartialEq, Eq, Structural)]
pub enum Error {
    /// Crypt device initialization failed.
    Init,
    /// LUKS header loading failed.
    Load,
    /// LUKS header writing failed.
    Format,
    /// Keyslot addition failed.
    AddKeyslot,
    /// Crypt device mapping failed.
    MapDevice,
    /// Crypt device unmapping failed.
    Unmap,
    /// Crypt device is unmapped.
    Unmapped,
    /// Failed to create the filesystem on the mapped device.
    Mkfs,
    /// Creating or sizing the backing file failed (OS error number).
    Backing(i32),
    /// Bind-mounting the mapped device failed (OS error number).
    Bind(i32),
}

/// Where the handle stands in its lifecycle.
#[derive(Clone, Copy, Debug, PartialEq, Eq, Structural)]
pub enum Stage {
    /// The library handle must be initialized for the backing path.
    NeedInit,
    /// Existing headers must be loaded.
    NeedLoad,
    /// A fresh container must receive its encryption header.
    NeedFormat,
    /// A passphrase-derived key slot must be added.
    NeedKeyslot,
    /// The device mapping must be activated.
    NeedActivate,
    /// A filesystem must be built on the freshly mapped device.
    NeedMkfs,
    /// The device is mapped and ready to mount.
    Ready,
    /// A lifecycle call failed; only teardown remains.
    Failed,
    /// Torn down; terminal.
    TornDown,
}

/// One call the driver must perform on this handle's behalf: the encryption
/// library's lifecycle calls, or the filesystem-building subprocess.
#[derive(Clone, Debug, PartialEq, Eq)]
pub enum CryptAction {
    /// Initialize the library handle for the backing file at `path`.
    Init { path: String },
    /// Load existing encryption headers of type `header`.
    LoadLuks { header: String },
    /// Write a fresh encryption header: type `header`, cipher `cipher` in
    /// mode `cipher_mode`, with a volume key of `volume_key_bytes` bytes.
    Format { header: String, cipher: String, cipher_mode: String, volume_key_bytes: usize },
    /// Add one passphrase-derived key slot.
    AddKeyslot,
    /// Activate the mapping under `name`.
    Activate { name: String },
    /// Build an ext4 filesystem on `device` (subprocess; zero exit is
    /// success).
    MkfsExt4 { device: String },
    /// Deactivate the mapping named `name`.
    Deactivate { name: String },
    /// Free the library handle.
    Free,
}

/// The device-mapper node for a mapping name.
pub open spec fn mapper_path(name: Seq<char>) -> Seq<char> {
    "/dev/mapper/"@ + name
}

/// A mounted, encrypted directory backed by a LUKS container in a file.
pub struct Crypt {
    path: AbsPath,
    created: bool,
    stage: Stage,
    mapped_name: String,
    mount_path: Option<AbsPath>,
    device_live: bool,
    activated: bool,
    log: EffectLog,
}

impl Crypt {
    /// The backing file path.
    pub closed spec fn spec_path(&self) -> Seq<char> {
        self.path@
    }

    /// Whether this handle created the container (as opposed to opening an
    /// existing one).
    pub closed spec fn spec_created(&self) -> bool {
        self.created
    }

    /// The lifecycle stage.
    pub closed spec fn spec_stage(&self) -> Stage {
        self.stage
    }

    /// The device-mapper name chosen for this handle.
    pub closed spec fn spec_name(&self) -> Seq<char> {
        self.mapped_name@
    }

    /// The path the device is currently mounted at, if any.
    pub closed spec fn spec_mounted(&self) -> Option<Seq<char>> {
        match self.mount_path {
            Some(p) => Some(p@),
            None => None,
        }
    }

    /// Whether the device mapping is active.
    pub open spec fn spec_mapped(&self) -> bool {
        self.spec_stage() is NeedMkfs || self.spec_stage() is Ready
    }

    /// Whether the library handle is allocated and not yet freed.
    pub closed spec fn spec_live(&self) -> bool {
        self.device_live
    }

    /// Whether activation of the device mapping succeeded and has not yet
    /// been undone by teardown. Unlike the stage, this survives a later
    /// failure (a failed filesystem build leaves the mapping active).
    pub closed spec fn spec_activated(&self) -> bool {
        self.activated
    }

    /// The system effects this handle has performed.
    pub closed spec fn trace(&self) -> Seq<Effect> {
        self.log@
    }

    /// Internal consistency: the formatting stages belong to freshly created
    /// containers only; every stage past initialization implies a live
    /// handle; a recorded mount implies a ready device; a mapped stage
    /// implies a surviving activation, and an activation implies a live
    /// handle.
    pub open spec fn wf(&self) -> bool {
        &&& (self.spec_stage() is NeedFormat || self.spec_stage() is NeedKeyslot
            || self.spec_stage() is NeedMkfs) ==> self.spec_created()
        &&& (self.spec_stage() is NeedLoad || self.spec_stage() is NeedFormat
            || self.spec_stage() is NeedKeyslot || self.spec_stage() is NeedActivate
            || self.spec_stage() is NeedMkfs || self.spec_stage() is Ready)
            ==> self.spec_live()
        &&& self.spec_mounted() is Some ==> self.spec_stage() is Ready
        &&& self.spec_stage() is NeedInit ==> !self.spec_live()
        &&& self.spec_mapped() ==> self.spec_activated()
        &&& self.spec_activated() ==> self.spec_live()
    }

    /// Whether this handle created the container.
    pub fn created(&self) -> (r: bool)
        ensures
            r == self.spec_created(),
    {
        self.created
    }

    /// Whether the device is mapped and ready to mount.
    pub fn is_ready(&self) -> (r: bool)
        ensures
            r == (self.spec_stage() is Ready),
    {
        match self.stage {
            Stage::Ready => true,
            _ => false,
        }
    }

    /// Whether the device is currently recorded as mounted at `p`.
    pub fn is_mounted_at(&self, p: &AbsPath) -> (r: bool)
        ensures
            r == (self.spec_mounted() == Some(p@)),
    {
        match &self.mount_path {
            Some(m) => m.equals(p),
            None => false,
        }
    }

    /// Opens or creates the encrypted container backing file.
    ///
    /// If `path` exists the handle will load its headers; otherwise a sparse
    /// file of `size` bytes is created here — recorded in the handle's
    /// effects, so a handle marked as having created its container is exactly
    /// one whose backing file was created by this call. The device-mapper
    /// name is generated fresh from a random identifier, so concurrently
    /// active handles cannot collide.
    pub fn new(path: AbsPath, size: u64) -> (r: Result<Crypt, Error>)
        requires
            path.wf(),
        ensures
            r matches Ok(c) ==> {
                &&& c.wf()
                &&& c.spec_path() == path@
                &&& c.spec_stage() is NeedInit
                &&& c.spec_mounted() is None
                &&& !c.spec_live()
                &&& !c.spec_activated()
                &&& c.trace() =~= (if c.spec_created() {
                    seq![Effect::CreateBacking { path: path@, size }]
                } else {
                    Seq::<Effect>::empty()
                })
                &&& exists|u: Seq<char>| u.len() == 36 && c.spec_name() == "homesec-"@ + u
            },
            r matches Err(e) ==> e is Backing,
    {
        let mut log = EffectLog::new();
        let exists_already = sys::path_exists(path.as_str());
        if !exists_already {
            // Create a sparse backing file of the requested size.
            let fd = match sys::create_new_file(path.as_str()) {
                Ok(fd) => fd,
                Err(e) => {
                    return Err(Error::Backing(e));
                },
            };
            if let Err(e) = sys::fallocate_len(&fd, size) {
                return Err(Error::Backing(e));
            }
            log.note(Ghost(Effect::CreateBacking { path: path@, size }));
        }
        let uuid = sys::fresh_uuid_string();
        let mut mapped_name = "homesec-".to_owned();
        mapped_name.append(uuid.as_str());
        Ok(
            Crypt {
                path,
                created: !exists_already,
                stage: Stage::NeedInit,
                mapped_name,
                mount_path: None,
                device_live: false,
                activated: false,
                log,
            },
        )
    }

    /// The next call the driver must perform, or `None` once the handle is
    /// ready (or failed). A handle that opened an existing container is never
    /// asked to format, add a key slot, or build a filesystem: its headers
    /// and contents are already present.
    pub fn next_action(&self) -> (r: Option<CryptAction>)
        requires
            self.wf(),
        ensures
            self.spec_stage() is NeedInit ==> (r matches Some(CryptAction::Init { path })
                && path@ == self.spec_path()),
            self.spec_stage() is NeedLoad ==> (r matches Some(CryptAction::LoadLuks { header })
                && header@ == "LUKS2"@),
            self.spec_stage() is NeedFormat ==> (r matches Some(
                CryptAction::Format { header, cipher, cipher_mode, volume_key_bytes },
            ) && header@ == "LUKS2"@ && cipher@ == "aes"@ && cipher_mode@ == "xts-plain64"@
                && volume_key_bytes == 64),
            self.spec_stage() is NeedKeyslot ==> r == Some(CryptAction::AddKeyslot),
            self.spec_stage() is NeedActivate ==> (r matches Some(CryptAction::Activate { name })
                && name@ == self.spec_name()),
            self.spec_stage() is NeedMkfs ==> (r matches Some(CryptAction::MkfsExt4 { device })
                && device@ == mapper_path(self.spec_name())),
            self.spec_stage() is Ready || self.spec_stage() is Failed || self.spec_stage()
                is TornDown ==> r is None,
            !self.spec_created() ==> !(r matches Some(a) && (a is Format || a is AddKeyslot
                || a is MkfsExt4)),
    {
        match self.stage {
            Stage::NeedInit => Some(
                CryptAction::Init { path: self.path.duplicate().into_string() },
            ),
            Stage::NeedLoad => Some(CryptAction::LoadLuks { header: "LUKS2".to_owned() }),
            Stage::NeedFormat => Some(
                CryptAction::Format {
                    header: "LUKS2".to_owned(),
                    cipher: "aes".to_owned(),
                    cipher_mode: "xts-plain64".to_owned(),
                    volume_key_bytes: 64,
                },
            ),
            Stage::NeedKeyslot => Some(CryptAction::AddKeyslot),
            Stage::NeedActivate => Some(CryptAction::Activate { name: self.mapped_name.clone() }),
            Stage::NeedMkfs => Some(CryptAction::MkfsExt4 { device: self.mapper_device() }),
            Stage::Ready => None,
            Stage::Failed => None,
            Stage::TornDown => None,
        }
    }

    /// The `/dev/mapper` node of this handle's mapping.
    fn mapper_device(&self) -> (r: String)
        ensures
            r@ == mapper_path(self.spec_name()),
    {
        let mut d = "/dev/mapper/".to_owned();
        d.append(self.mapped_name.as_str());
        d
    }

    /// Records the outcome of the action last handed out and advances the
    /// lifecycle. The encryption-library calls succeed on a non-negative
    /// return; the filesystem builder succeeds on a zero exit. A failure
    /// surfaces the error of the stage that failed and leaves only teardown.
    pub fn on_result(&mut self, code: i32) -> (r: Result<(), Error>)
        requires
            old(self).wf(),
        ensures
            final(self).wf(),
            final(self).spec_path() == old(self).spec_path(),
            final(self).spec_name() == old(self).spec_name(),
            final(self).spec_created() == old(self).spec_created(),
            final(self).spec_mounted() == old(self).spec_mounted(),
            final(self).trace() == old(self).trace(),
            final(self).spec_activated() == (old(self).spec_activated() || (old(
                self,
            ).spec_stage() is NeedActivate && code >= 0)),
            old(self).spec_stage() is NeedInit ==> if code >= 0 {
                r is Ok && final(self).spec_live() && final(self).spec_stage() == (
                if old(self).spec_created() {
                    Stage::NeedFormat
                } else {
                    Stage::NeedLoad
                })
            } else {
                r == Err::<(), Error>(Error::Init) && final(self).spec_stage() is Failed
                    && final(self).spec_live() == old(self).spec_live()
            },
            old(self).spec_stage() is NeedLoad ==> final(self).spec_live() == old(self).spec_live() && if code >= 0 {
                r is Ok && final(self).spec_stage() is NeedActivate
            } else {
                r == Err::<(), Error>(Error::Load) && final(self).spec_stage() is Failed
            },
            old(self).spec_stage() is NeedFormat ==> final(self).spec_live() == old(self).spec_live() && if code >= 0 {
                r is Ok && final(self).spec_stage() is NeedKeyslot
            } else {
                r == Err::<(), Error>(Error::Format) && final(self).spec_stage() is Failed
            },
            old(self).spec_stage() is NeedKeyslot ==> final(self).spec_live() == old(self).spec_live() && if code >= 0 {
                r is Ok && final(self).spec_stage() is NeedActivate
            } else {
                r == Err::<(), Error>(Error::AddKeyslot) && final(self).spec_stage() is Failed
            },
            old(self).spec_stage() is NeedActivate ==> final(self).spec_live() == old(self).spec_live() && if code >= 0 {
                r is Ok && final(self).spec_stage() == (
                if old(self).spec_created() {
                    Stage::NeedMkfs
                } else {
                    Stage::Ready
                })
            } else {
                r == Err::<(), Error>(Error::MapDevice) && final(self).spec_stage() is Failed
            },
            old(self).spec_stage() is NeedMkfs ==> final(self).spec_live() == old(self).spec_live() && if code == 0 {
                r is Ok && final(self).spec_stage() is Ready
            } else {
                r == Err::<(), Error>(Error::Mkfs) && final(self).spec_stage() is Failed
            },
            old(self).spec_stage() is Ready ==> r is Ok && *final(self) == *old(self),
            old(self).spec_stage() is Failed || old(self).spec_stage() is TornDown ==> r
                == Err::<(), Error>(Error::Unmapped) && *final(self) == *old(self),
    {
        match self.stage {
            Stage::NeedInit => {
                if code >= 0 {
                    self.device_live = true;
                    self.stage = if self.created {
                        Stage::NeedFormat
                    } else {
                        Stage::NeedLoad
                    };
                    Ok(())
                } else {
                    self.stage = Stage::Failed;
                    Err(Error::Init)
                }
            },
            Stage::NeedLoad => {
                if code >= 0 {
                    self.stage = Stage::NeedActivate;
                    Ok(())
                } else {
                    self.stage = Stage::Failed;
                    Err(Error::Load)
                }
            },
            Stage::NeedFormat => {
                if code >= 0 {
                    self.stage = Stage::NeedKeyslot;
                    Ok(())
                } else {
                    self.stage = Stage::Failed;
                    Err(Error::Format)
                }
            },
            Stage::NeedKeyslot => {
                if code >= 0 {
                    self.stage = Stage::NeedActivate;
                    Ok(())
                } else {
                    self.stage = Stage::Failed;
                    Err(Error::AddKeyslot)
                }
            },
            Stage::NeedActivate => {
                if code >= 0 {
                    self.activated = true;
                    self.stage = if self.created {
                        Stage::NeedMkfs
                    } else {
                        Stage::Ready
                    };
                    Ok(())
                } else {
                    self.stage = Stage::Failed;
                    Err(Error::MapDevice)
                }
            },
            Stage::NeedMkfs => {
                if code == 0 {
                    self.stage = Stage::Ready;
                    Ok(())
                } else {
                    self.stage = Stage::Failed;
                    Err(Error::Mkfs)
                }
            },
            Stage::Ready => Ok(()),
            Stage::Failed => Err(Error::Unmapped),
            Stage::TornDown => Err(Error::Unmapped),
        }
    }

    /// Bind-mounts the mapped device at `path`. Fails with [`Error::Unmapped`]
    /// when the mapping is not active.
    pub fn mount(&mut self, path: AbsPath) -> (r: Result<(), Error>)
        requires
            old(self).wf(),
            path.wf(),
        ensures
            final(self).wf(),
            !(old(self).spec_stage() is Ready) ==> r == Err::<(), Error>(Error::Unmapped)
                && *final(self) == *old(self),
            old(self).spec_stage() is Ready ==> {
                &&& final(self).spec_stage() == old(self).spec_stage()
                &&& final(self).spec_path() == old(self).spec_path()
                &&& final(self).spec_name() == old(self).spec_name()
                &&& final(self).spec_created() == old(self).spec_created()
                &&& final(self).spec_live() == old(self).spec_live()
                &&& final(self).spec_activated() == old(self).spec_activated()
                &&& match r {
                    Ok(()) => final(self).spec_mounted() == Some(path@) && final(self).trace()
                        == old(self).trace().push(
                        Effect::BindMount {
                            source: mapper_path(old(self).spec_name()),
                            target: path@,
                        },
                    ),
                    Err(e) => e is Bind && final(self).spec_mounted() == old(self).spec_mounted()
                        && final(self).trace() == old(self).trace(),
                }
            },
    {
        let ready = match self.stage {
            Stage::Ready => true,
            _ => false,
        };
        if !ready {
            return Err(Error::Unmapped);
        }
        let device = self.mapper_device();
        if let Err(e) = sys::bind_mount(device.as_str(), path.as_str()) {
            return Err(Error::Bind(e));
        }
        self.log.note(
            Ghost(Effect::BindMount { source: mapper_path(self.mapped_name@), target: path@ }),
        );
        self.mount_path = Some(path);
        Ok(())
    }

    /// Releases everything this handle holds, in the mandatory order: first
    /// unmount (if mounted; the outcome is not allowed to stop teardown),
    /// then request deactivation of the mapping whenever activation succeeded
    /// and has not been undone — also when a later stage failed, so a failed
    /// filesystem build never leaks an active mapping — then request release
    /// of the library handle (if live). Returns the calls the driver must
    /// still perform. Idempotent: once torn down, a second call performs no
    /// unmount and returns no actions.
    pub fn teardown(&mut self) -> (acts: Vec<CryptAction>)
        requires
            old(self).wf(),
        ensures
            final(self).wf(),
            final(self).spec_mounted() is None,
            !final(self).spec_mapped(),
            !final(self).spec_activated(),
            !final(self).spec_live(),
            old(self).spec_mounted() matches Some(p) ==> exists|ok: bool|
                final(self).trace() == old(self).trace().push(Effect::Unmount { target: p, ok }),
            old(self).spec_mounted() is None ==> final(self).trace() == old(self).trace(),
            old(self).spec_activated() ==> acts@.len() == 2 && (acts@[0] matches
                CryptAction::Deactivate { name } && name@ == old(self).spec_name()) && acts@[1]
                is Free,
            !old(self).spec_activated() && old(self).spec_live() ==> acts@.len() == 1 && acts@[0]
                is Free,
            !old(self).spec_live() ==> acts@.len() == 0,
            old(self).spec_mounted() is None && !old(self).spec_activated() && !old(
                self,
            ).spec_live() ==> final(self).trace() == old(self).trace() && acts@.len() == 0,
    {
        let mut acts: Vec<CryptAction> = Vec::new();
        // Unmount first: a mapped device must not be deactivated while its
        // filesystem is mounted. The outcome cannot stop teardown.
        let mounted = match &self.mount_path {
            Some(p) => Some(p.duplicate()),
            None => None,
        };
        let mut unmount_ok: bool = false;
        if let Some(p) = mounted {
            unmount_ok = sys::unmount_detach(p.as_str()).is_ok();
            self.log.note(Ghost(Effect::Unmount { target: p@, ok: unmount_ok }));
            self.mount_path = None;
        }
        if self.activated {
            acts.push(CryptAction::Deactivate { name: self.mapped_name.clone() });
        }
        if self.device_live {
            acts.push(CryptAction::Free);
        }
        self.activated = false;
        self.device_live = false;
        self.stage = Stage::TornDown;
        proof {
            if old(self).spec_mounted() is Some {
                let p = old(self).spec_mounted().unwrap();
                assert(self.trace() == old(self).trace().push(
                    Effect::Unmount { target: p, ok: unmount_ok },
                ));
            }
        }
        acts
    }
}

} // verus!
