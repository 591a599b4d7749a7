//! User-namespace creation and identity mapping.
//!
//! A new user namespace starts with no ID mapping; the process must write one
//! mapping line to each of the kernel's per-process map files, and deny
//! setgroups in between, before IDs function inside the namespace. The parent
//! IDs are read before the namespace call, since the visible identity changes
//! after it.

use vstd::prelude::*;
use vstd::string::StringExecFns;

use crate::effects::{Effect, EffectLog};
use crate::errors::SandboxError;
use crate::fmt::{dec_str, is_dec_digit, lemma_dec_str_digits, u32_to_dec};
use crate::paths::AbsPath;
use crate::sys;

verus! {

/// One identity-map record: `"<child> <parent> 1\n"` — a single mapping line
/// covering exactly one ID.
pub open spec fn id_map_record(child: u32, parent: u32) -> Seq<char> {
    dec_str(child as nat) + seq![' '] + dec_str(parent as nat) + seq![' ', '1', '\n']
}

/// The record that denies setgroups inside the namespace.
pub open spec fn deny_record() -> Seq<char> {
    "deny"@
}

/// The kernel file holding the namespace's UID mapping.
pub open spec fn uid_map_path() -> Seq<char> {
    "/proc/self/uid_map"@
}

/// The kernel file controlling setgroups inside the namespace.
pub open spec fn setgroups_path() -> Seq<char> {
    "/proc/self/setgroups"@
}

/// The kernel file holding the namespace's GID mapping.
pub open spec fn gid_map_path() -> Seq<char> {
    "/proc/self/gid_map"@
}

/// Exactly what installing an identity mapping writes, in order: one UID
/// mapping line, the setgroups denial, and one GID mapping line.
pub open spec fn map_ids_effects(
    child_uid: u32,
    child_gid: u32,
    parent_uid: u32,
    parent_gid: u32,
) -> Seq<Effect> {
    seq![
        Effect::WriteFile { path: uid_map_path(), data: id_map_record(child_uid, parent_uid) },
        Effect::WriteFile { path: setgroups_path(), data: deny_record() },
        Effect::WriteFile { path: gid_map_path(), data: id_map_record(child_gid, parent_gid) },
    ]
}

/// Exactly what a successful namespace entry does, in order: the capture of
/// the parent identity — before the unshare, since the visible identity
/// changes after it — then the unshare, then the three identity-map writes
/// using exactly the captured identity.
pub open spec fn enter_effects(
    child_uid: u32,
    child_gid: u32,
    parent_uid: u32,
    parent_gid: u32,
    mount_ns: bool,
) -> Seq<Effect> {
    seq![
        Effect::CaptureIds { uid: parent_uid, gid: parent_gid },
        Effect::Unshare { mount_ns },
    ] + map_ids_effects(child_uid, child_gid, parent_uid, parent_gid)
}

/// An identity-map record is exactly one line: it ends with the only line
/// break it contains.
pub proof fn lemma_id_map_record_single_line(child: u32, parent: u32)
    ensures
        id_map_record(child, parent).len() >= 1,
        id_map_record(child, parent).last() == '\n',
        forall|i: int|
            0 <= i < id_map_record(child, parent).len() - 1 ==> #[trigger] id_map_record(
                child,
                parent,
            )[i] != '\n',
{
    let c = dec_str(child as nat);
    let p = dec_str(parent as nat);
    let r = id_map_record(child, parent);
    lemma_dec_str_digits(child as nat);
    lemma_dec_str_digits(parent as nat);
    assert(r =~= c + seq![' '] + p + seq![' ', '1', '\n']);
    assert forall|i: int| 0 <= i < r.len() - 1 implies #[trigger] r[i] != '\n' by {
        if i < c.len() {
            assert(r[i] == c[i]);
            assert(is_dec_digit(c[i]));
        } else if i == c.len() {
            assert(r[i] == ' ');
        } else if i < c.len() + 1 + p.len() {
            assert(r[i] == p[i - c.len() - 1]);
            assert(is_dec_digit(p[i - c.len() - 1]));
        } else {
            assert(r[i] == seq![' ', '1', '\n'][i - c.len() - 1 - p.len()]);
        }
    }
}

/// Renders one identity-map record for writing.
pub fn id_map_record_string(child: u32, parent: u32) -> (r: String)
    ensures
        r@ == id_map_record(child, parent),
{
    let mut s = u32_to_dec(child);
    let p = u32_to_dec(parent);
    proof {
        reveal_strlit(" ");
        reveal_strlit(" 1\n");
        assert(" "@ =~= seq![' ']);
        assert(" 1\n"@ =~= seq![' ', '1', '\n']);
    }
    s.append(" ");
    s.append(p.as_str());
    s.append(" 1\n");
    proof {
        assert(s@ =~= id_map_record(child, parent));
    }
    s
}

/// Writes `data` to `path` in a single write, recording the effect.
fn write_record(log: &mut EffectLog, path: &str, data: &str) -> (r: Result<(), i32>)
    ensures
        r is Ok ==> final(log)@ == old(log)@.push(
            Effect::WriteFile { path: path@, data: data@ },
        ),
        r is Err ==> final(log)@ == old(log)@,
{
    let fd = match sys::open_write(path) {
        Ok(fd) => fd,
        Err(e) => {
            return Err(e);
        },
    };
    let n = match sys::write_str(&fd, data) {
        Ok(n) => n,
        Err(e) => {
            return Err(e);
        },
    };
    if n != data.len() {
        // The kernel consumes a map record whole or not at all; treat a short
        // write as an I/O failure.
        return Err(sys::ERRNO_IO);
    }
    log.note(Ghost(Effect::WriteFile { path: path@, data: data@ }));
    Ok(())
}

/// Writes the identity mapping of a freshly created user namespace: the UID
/// map line, the setgroups denial, then the GID map line, in that order.
fn map_ids(
    log: &mut EffectLog,
    parent_uid: u32,
    parent_gid: u32,
    child_uid: u32,
    child_gid: u32,
) -> (r: Result<(), SandboxError>)
    ensures
        r is Ok ==> final(log)@ == old(log)@ + map_ids_effects(
            child_uid,
            child_gid,
            parent_uid,
            parent_gid,
        ),
        r matches Err(e) ==> e is IdMap && exists|k: int|
            0 <= k < 3 && final(log)@ == old(log)@ + map_ids_effects(
                child_uid,
                child_gid,
                parent_uid,
                parent_gid,
            ).take(k),
{
    let ghost intended = map_ids_effects(child_uid, child_gid, parent_uid, parent_gid);
    let uid_record = id_map_record_string(child_uid, parent_uid);
    let gid_record = id_map_record_string(child_gid, parent_gid);
    if let Err(e) = write_record(log, "/proc/self/uid_map", uid_record.as_str()) {
        proof {
            assert(log@ =~= old(log)@ + intended.take(0));
        }
        return Err(SandboxError::IdMap(e));
    }
    if let Err(e) = write_record(log, "/proc/self/setgroups", "deny") {
        proof {
            assert(log@ =~= old(log)@ + intended.take(1));
        }
        return Err(SandboxError::IdMap(e));
    }
    if let Err(e) = write_record(log, "/proc/self/gid_map", gid_record.as_str()) {
        proof {
            assert(log@ =~= old(log)@ + intended.take(2));
        }
        return Err(SandboxError::IdMap(e));
    }
    proof {
        assert(log@ =~= old(log)@ + map_ids_effects(
            child_uid,
            child_gid,
            parent_uid,
            parent_gid,
        ));
    }
    Ok(())
}

/// Creates a new user namespace (plus a mount namespace when `mount_ns` is
/// set) and immediately installs the 1:1 identity mapping from `child_uid` /
/// `child_gid` to the effective IDs captured before the namespace call.
///
/// On success returns the captured parent IDs, so that a later call can map
/// back to them, and the log has gained exactly the identity capture, the
/// unshare, then the three map-file writes: one UID mapping line
/// `"<child> <parent> 1\n"`, the setgroups denial `"deny"`, and one GID
/// mapping line — so the parent side of every record is the identity read
/// before the namespace call.
pub fn create_user_namespace(
    log: &mut EffectLog,
    child_uid: u32,
    child_gid: u32,
    mount_ns: bool,
) -> (r: Result<(u32, u32), SandboxError>)
    ensures
        r matches Ok(parents) ==> final(log)@ == old(log)@ + enter_effects(
            child_uid,
            child_gid,
            parents.0,
            parents.1,
            mount_ns,
        ),
        r matches Err(e) ==> (e is Namespace || e is IdMap) && exists|pu: u32, pg: u32, k: int|
            0 <= k < 5 && final(log)@ == old(log)@ + enter_effects(
                child_uid,
                child_gid,
                pu,
                pg,
                mount_ns,
            ).take(k),
{
    // The parent identity must be read before the namespace call: the visible
    // identity inside the new namespace is different.
    let parent_uid = sys::geteuid();
    let parent_gid = sys::getegid();
    log.note(Ghost(Effect::CaptureIds { uid: parent_uid, gid: parent_gid }));
    if let Err(e) = sys::unshare_user(mount_ns) {
        proof {
            assert(log@ =~= old(log)@ + enter_effects(
                child_uid,
                child_gid,
                parent_uid,
                parent_gid,
                mount_ns,
            ).take(1));
        }
        return Err(SandboxError::Namespace(e));
    }
    log.note(Ghost(Effect::Unshare { mount_ns }));
    match map_ids(log, parent_uid, parent_gid, child_uid, child_gid) {
        Ok(()) => {
            proof {
                assert(log@ =~= old(log)@ + enter_effects(
                    child_uid,
                    child_gid,
                    parent_uid,
                    parent_gid,
                    mount_ns,
                ));
            }
            Ok((parent_uid, parent_gid))
        },
        Err(e) => {
            proof {
                let ghost mid = old(log)@.push(
                    Effect::CaptureIds { uid: parent_uid, gid: parent_gid },
                ).push(Effect::Unshare { mount_ns });
                let k = choose|k: int|
                    0 <= k < 3 && log@ == mid + map_ids_effects(
                        child_uid,
                        child_gid,
                        parent_uid,
                        parent_gid,
                    ).take(k);
                assert(log@ =~= old(log)@ + enter_effects(
                    child_uid,
                    child_gid,
                    parent_uid,
                    parent_gid,
                    mount_ns,
                ).take(k + 2));
            }
            Err(e)
        },
    }
}

/// Moves the process root to `new_root`, relocating the old root to
/// `put_old`, then restores the working directory to its pre-pivot path if it
/// still resolves, falling back to the new root. On success the log gains the
/// pivot followed by exactly one working-directory move, whose target is the
/// directory the kernel reported before the pivot, or the root.
pub fn pivot_root(log: &mut EffectLog, new_root: &AbsPath, put_old: &AbsPath) -> (r: Result<
    (),
    SandboxError,
>)
    ensures
        r is Ok ==> exists|d: Seq<char>, q: Option<Seq<char>>|
            final(log)@ == old(log)@ + seq![
                Effect::Pivot { new_root: new_root@, put_old: put_old@ },
                Effect::Chdir { path: d, queried: q },
            ] && (q == Some(d) || d == "/"@),
        r matches Err(e) ==> e is Mount && (final(log)@ == old(log)@ || final(log)@ == old(
            log,
        )@.push(Effect::Pivot { new_root: new_root@, put_old: put_old@ })),
{
    // Capture the working directory before the root moves beneath it.
    let cwd = sys::getcwd_string();
    if let Err(e) = sys::pivot_root_call(new_root.as_str(), put_old.as_str()) {
        return Err(SandboxError::Mount(e));
    }
    log.note(Ghost(Effect::Pivot { new_root: new_root@, put_old: put_old@ }));
    // Recover the working directory so the process keeps no handle on an
    // unbound location; otherwise switch to the new root.
    let ghost queried: Option<Seq<char>> = match cwd {
        Some(ref c) => Some(c@),
        None => None,
    };
    let mut restored = false;
    match &cwd {
        Some(c) => {
            if sys::chdir(c.as_str()).is_ok() {
                log.note(Ghost(Effect::Chdir { path: c@, queried: queried }));
                restored = true;
            }
        },
        None => {},
    }
    if !restored {
        if let Err(e) = sys::chdir("/") {
            return Err(SandboxError::Mount(e));
        }
        log.note(Ghost(Effect::Chdir { path: "/"@, queried: queried }));
    }
    proof {
        assert(old(log)@ + seq![
            Effect::Pivot { new_root: new_root@, put_old: put_old@ },
            Effect::Chdir { path: log@.last()->Chdir_path, queried: queried },
        ] =~= log@);
    }
    Ok(())
}

} // verus!
