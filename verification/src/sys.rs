//! Trusted wrappers around the kernel interfaces the sandbox consumes.
//!
//! Each wrapper makes exactly one outside call and converts its result; every
//! error is handed back as the raw OS error number. Nothing here is verified:
//! callers in this crate record each state-changing call in an
//! [`crate::effects::EffectLog`] and state their guarantees over that log.

use vstd::prelude::*;
use vstd::string::StringSliceAdditionalSpecFns;

verus! {

/// An owned file descriptor, opaque to verification.
#[verifier::external_type_specification]
#[verifier::external_body]
pub struct ExOwnedFd(rustix::fd::OwnedFd);

/// The OS error number for an already-existing file or directory.
pub const ERRNO_EXIST: i32 = 17;

/// The OS error number for an input/output error.
pub const ERRNO_IO: i32 = 5;

/// Relies on rustix::process::geteuid: the effective user ID of this process.
#[verifier::external_body]
pub(crate) fn geteuid() -> u32 {
    rustix::process::geteuid().as_raw()
}

/// Relies on rustix::process::getegid: the effective group ID of this process.
#[verifier::external_body]
pub(crate) fn getegid() -> u32 {
    rustix::process::getegid().as_raw()
}

/// Relies on rustix::thread::unshare: creates a new user namespace for the
/// calling thread, together with a new mount namespace when `mount_ns` is set.
#[verifier::external_body]
pub(crate) fn unshare_user(mount_ns: bool) -> (r: Result<(), i32>) {
    let flags = if mount_ns {
        rustix::thread::UnshareFlags::NEWUSER | rustix::thread::UnshareFlags::NEWNS
    } else {
        rustix::thread::UnshareFlags::NEWUSER
    };
    rustix::thread::unshare(flags).map_err(|e| e.raw_os_error())
}

/// Relies on rustix::fs::open: opens `path` write-only.
#[verifier::external_body]
pub(crate) fn open_write(path: &str) -> (r: Result<rustix::fd::OwnedFd, i32>) {
    rustix::fs::open(path, rustix::fs::OFlags::WRONLY, rustix::fs::Mode::empty())
        .map_err(|e| e.raw_os_error())
}

/// Relies on rustix::fs::open: creates `path` as a new file (failing if it
/// already exists) and opens it write-only.
#[verifier::external_body]
pub(crate) fn create_new_file(path: &str) -> (r: Result<rustix::fd::OwnedFd, i32>) {
    rustix::fs::open(
        path,
        rustix::fs::OFlags::CREATE | rustix::fs::OFlags::EXCL | rustix::fs::OFlags::WRONLY,
        rustix::fs::Mode::from_raw_mode(0o600),
    ).map_err(|e| e.raw_os_error())
}

/// Relies on rustix::io::write: writes the bytes of `data` to `fd` once and
/// returns how many were written, never more than the length of `data`.
#[verifier::external_body]
pub(crate) fn write_str(fd: &rustix::fd::OwnedFd, data: &str) -> (r: Result<usize, i32>)
    ensures
        r matches Ok(n) ==> n <= data.spec_bytes().len(),
{
    rustix::io::write(fd, data.as_bytes()).map_err(|e| e.raw_os_error())
}

/// Relies on rustix::fs::fallocate: allocates `size` bytes for the open file.
#[verifier::external_body]
pub(crate) fn fallocate_len(fd: &rustix::fd::OwnedFd, size: u64) -> (r: Result<(), i32>) {
    rustix::fs::fallocate(fd, rustix::fs::FallocateFlags::empty(), 0, size)
        .map_err(|e| e.raw_os_error())
}

/// Relies on rustix::mount::mount: mounts a fresh instance of the kernel
/// filesystem named `fstype` (with a nominal source) at `target`.
#[verifier::external_body]
pub(crate) fn mount_filesystem(fstype: &str, target: &str) -> (r: Result<(), i32>) {
    rustix::mount::mount(
        "none",
        target,
        fstype,
        rustix::mount::MountFlags::empty(),
        None::<&rustix::ffi::CStr>,
    ).map_err(|e| e.raw_os_error())
}

/// Relies on rustix::mount::mount_bind: bind-mounts `source` at `target`.
#[verifier::external_body]
pub(crate) fn bind_mount(source: &str, target: &str) -> (r: Result<(), i32>) {
    rustix::mount::mount_bind(source, target).map_err(|e| e.raw_os_error())
}

/// Relies on rustix::mount::mount_bind_recursive: bind-mounts `source` at
/// `target` together with all mounts beneath it.
#[verifier::external_body]
pub(crate) fn recursive_bind_mount(source: &str, target: &str) -> (r: Result<(), i32>) {
    rustix::mount::mount_bind_recursive(source, target).map_err(|e| e.raw_os_error())
}

/// Relies on rustix::mount::mount_remount: remounts the existing mount at
/// `target` as bind+readonly.
#[verifier::external_body]
pub(crate) fn remount_readonly(target: &str) -> (r: Result<(), i32>) {
    rustix::mount::mount_remount(
        target,
        rustix::mount::MountFlags::BIND | rustix::mount::MountFlags::RDONLY,
        "",
    ).map_err(|e| e.raw_os_error())
}

/// Relies on rustix::mount::unmount: force-unmounts `target` with lazy detach.
#[verifier::external_body]
pub(crate) fn unmount_detach(target: &str) -> (r: Result<(), i32>) {
    rustix::mount::unmount(
        target,
        rustix::mount::UnmountFlags::FORCE | rustix::mount::UnmountFlags::DETACH,
    ).map_err(|e| e.raw_os_error())
}

/// Relies on rustix::process::pivot_root: makes `new_root` the root of this
/// mount namespace and moves the old root to `put_old`.
#[verifier::external_body]
pub(crate) fn pivot_root_call(new_root: &str, put_old: &str) -> (r: Result<(), i32>) {
    rustix::process::pivot_root(new_root, put_old).map_err(|e| e.raw_os_error())
}

/// Relies on rustix::process::getcwd: the current working directory, when it
/// resolves to valid text.
#[verifier::external_body]
pub(crate) fn getcwd_string() -> (r: Option<String>) {
    match rustix::process::getcwd(Vec::new()) {
        Ok(c) => c.into_string().ok(),
        Err(_) => None,
    }
}

/// Relies on rustix::process::chdir: changes the working directory to `path`.
#[verifier::external_body]
pub(crate) fn chdir(path: &str) -> (r: Result<(), i32>) {
    rustix::process::chdir(path).map_err(|e| e.raw_os_error())
}

/// Relies on rustix::fs::mkdir: creates the single directory `path`.
#[verifier::external_body]
pub(crate) fn mkdir_once(path: &str) -> (r: Result<(), i32>) {
    rustix::fs::mkdir(path, rustix::fs::Mode::from_raw_mode(0o755)).map_err(|e| e.raw_os_error())
}

/// Relies on rustix::fs::stat: whether `path` currently resolves.
#[verifier::external_body]
pub(crate) fn path_exists(path: &str) -> (r: bool) {
    rustix::fs::stat(path).is_ok()
}

/// Relies on uuid::Uuid::new_v4 and its Display form: a freshly generated
/// random identifier, rendered in the 36-character hyphenated form. If the
/// operating system's random source fails, the call panics (as an allocation
/// failure would); it never returns a degenerate value.
#[verifier::external_body]
pub(crate) fn fresh_uuid_string() -> (r: String)
    ensures
        r@.len() == 36,
{
    uuid::Uuid::new_v4().to_string()
}

} // verus!
