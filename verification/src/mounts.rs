//! The tmpfs-backed readonly root.
//!
//! The layering must happen in a fixed order: the writable escape directory
//! is created strictly after the recursive bind (so it is visible in the new
//! tree) and strictly before the readonly remount (which freezes directory
//! creation at that layer); the pivot comes last. `MountLayerBuilder::build`
//! states that exact order, and refuses to run twice in one session rather
//! than stack mounts over an already-layered target.

use vstd::prelude::*;
use vstd::seq_lib::*;
use vstd::string::StrSliceExecFns;

use crate::effects::{Effect, EffectLog};
use crate::errors::SandboxError;
use crate::namespaces;
use crate::paths::{check_strict_descendant, is_strict_descendant, AbsPath};
use crate::sys;

verus! {

/// The two roots of a sandbox: the mount target that becomes the new root,
/// and the location strictly beneath it where the old root stays writable.
pub struct SandboxPaths {
    pub new_root: AbsPath,
    pub write_root: AbsPath,
}

impl SandboxPaths {
    /// Both paths are well formed and the write root lies strictly below the
    /// new root.
    pub open spec fn wf(&self) -> bool {
        &&& self.new_root.wf()
        &&& self.write_root.wf()
        &&& is_strict_descendant(self.write_root@, self.new_root@)
    }

    /// Accepts the pair only when `write_root` lies strictly below
    /// `new_root`; a write root outside the new root is refused, not
    /// corrected.
    pub fn new(new_root: AbsPath, write_root: AbsPath) -> (r: Result<SandboxPaths, SandboxError>)
        requires
            new_root.wf(),
            write_root.wf(),
        ensures
            r matches Ok(p) ==> p.wf() && p.new_root@ == new_root@ && p.write_root@
                == write_root@,
            r matches Err(e) ==> e == SandboxError::WriteRootEscapes && !is_strict_descendant(
                write_root@,
                new_root@,
            ),
    {
        if check_strict_descendant(&write_root, &new_root) {
            Ok(SandboxPaths { new_root, write_root })
        } else {
            Err(SandboxError::WriteRootEscapes)
        }
    }
}

/// Creates `path` and any missing parents, tolerating directories that
/// already exist.
pub(crate) fn ensure_dir(log: &mut EffectLog, path: &AbsPath) -> (r: Result<(), i32>)
    requires
        path.wf(),
    ensures
        r is Ok ==> final(log)@ == old(log)@.push(Effect::EnsureDir { path: path@ }),
        r is Err ==> final(log)@ == old(log)@,
{
    let s = path.as_str();
    let n = s.unicode_len();
    let mut i: usize = 1;
    while i < n
        invariant
            n == s@.len(),
            1 <= i,
        decreases n - i,
    {
        if s.get_char(i) == '/' {
            let prefix = s.substring_char(0, i);
            if let Err(e) = sys::mkdir_once(prefix) {
                if e != sys::ERRNO_EXIST {
                    return Err(e);
                }
            }
        }
        i = i + 1;
    }
    if let Err(e) = sys::mkdir_once(s) {
        if e != sys::ERRNO_EXIST {
            return Err(e);
        }
    }
    log.note(Ghost(Effect::EnsureDir { path: path@ }));
    Ok(())
}

/// Builds the readonly root once per session.
pub struct MountLayerBuilder {
    built: bool,
}

impl MountLayerBuilder {
    /// Whether this builder has already attempted the layering.
    pub closed spec fn spec_built(&self) -> bool {
        self.built
    }

    /// A fresh builder.
    pub fn new() -> (r: MountLayerBuilder)
        ensures
            !r.spec_built(),
    {
        MountLayerBuilder { built: false }
    }

    /// Exactly what a successful build does, in order. The escape directory
    /// is created after the recursive bind and before the readonly remount,
    /// and the pivot comes last.
    pub open spec fn build_effects(new_root: Seq<char>, tmp_shadow: Seq<char>, write_root: Seq<char>) -> Seq<Effect> {
        seq![
            Effect::EnsureDir { path: new_root },
            Effect::MountTmpfs { target: new_root },
            Effect::RecursiveBind { source: "/"@, target: new_root },
            Effect::MountTmpfs { target: tmp_shadow },
            Effect::Mkdir { path: write_root },
            Effect::RemountReadonly { target: new_root },
            Effect::Pivot { new_root: new_root, put_old: write_root },
        ]
    }

    /// Lays the readonly root over `paths.new_root`: creates the target,
    /// mounts a memory-backed filesystem there, recursively binds the old
    /// root beneath it, shadows the temp directory at `tmp_shadow`, creates
    /// the writable escape directory, remounts the whole target readonly, and
    /// pivots into it. A second invocation in the same session fails rather
    /// than stacking mounts over the already-layered target.
    pub fn build(
        &mut self,
        log: &mut EffectLog,
        paths: &SandboxPaths,
        tmp_shadow: &AbsPath,
    ) -> (r: Result<(), SandboxError>)
        requires
            paths.wf(),
            tmp_shadow.wf(),
        ensures
            final(self).spec_built(),
            old(self).spec_built() ==> r == Err::<(), SandboxError>(SandboxError::AlreadyBuilt)
                && final(log)@ == old(log)@,
            !old(self).spec_built() && r is Ok ==> exists|d: Seq<char>, q: Option<Seq<char>>|
                final(log)@ == old(log)@ + Self::build_effects(
                    paths.new_root@,
                    tmp_shadow@,
                    paths.write_root@,
                ) + seq![Effect::Chdir { path: d, queried: q }] && (q == Some(d) || d == "/"@),
            !old(self).spec_built() && r is Err ==> (r matches Err(e) && e is Mount)
                && exists|k: int|
                0 <= k <= 7 && final(log)@ == old(log)@ + Self::build_effects(
                    paths.new_root@,
                    tmp_shadow@,
                    paths.write_root@,
                ).take(k),
    {
        let ghost intended = Self::build_effects(paths.new_root@, tmp_shadow@, paths.write_root@);
        if self.built {
            return Err(SandboxError::AlreadyBuilt);
        }
        // Re-checked at run time: the fields of the pair are public, so a
        // caller outside verification could hand in a pair that never went
        // through its constructor.
        if !check_strict_descendant(&paths.write_root, &paths.new_root) {
            return Err(SandboxError::WriteRootEscapes);
        }
        self.built = true;
        if let Err(e) = ensure_dir(log, &paths.new_root) {
            proof {
                assert(log@ =~= old(log)@ + intended.take(0));
            }
            return Err(SandboxError::Mount(e));
        }
        if let Err(e) = sys::mount_filesystem("tmpfs", paths.new_root.as_str()) {
            proof {
                assert(log@ =~= old(log)@ + intended.take(1));
            }
            return Err(SandboxError::Mount(e));
        }
        log.note(Ghost(Effect::MountTmpfs { target: paths.new_root@ }));
        if let Err(e) = sys::recursive_bind_mount("/", paths.new_root.as_str()) {
            proof {
                assert(log@ =~= old(log)@ + intended.take(2));
            }
            return Err(SandboxError::Mount(e));
        }
        log.note(Ghost(Effect::RecursiveBind { source: "/"@, target: paths.new_root@ }));
        if let Err(e) = sys::mount_filesystem("tmpfs", tmp_shadow.as_str()) {
            proof {
                assert(log@ =~= old(log)@ + intended.take(3));
            }
            return Err(SandboxError::Mount(e));
        }
        log.note(Ghost(Effect::MountTmpfs { target: tmp_shadow@ }));
        if let Err(e) = sys::mkdir_once(paths.write_root.as_str()) {
            proof {
                assert(log@ =~= old(log)@ + intended.take(4));
            }
            return Err(SandboxError::Mount(e));
        }
        log.note(Ghost(Effect::Mkdir { path: paths.write_root@ }));
        if let Err(e) = sys::remount_readonly(paths.new_root.as_str()) {
            proof {
                assert(log@ =~= old(log)@ + intended.take(5));
            }
            return Err(SandboxError::Mount(e));
        }
        log.note(Ghost(Effect::RemountReadonly { target: paths.new_root@ }));
        let ghost pre_pivot = log@;
        if let Err(e) = namespaces::pivot_root(log, &paths.new_root, &paths.write_root) {
            proof {
                if log@ == pre_pivot {
                    assert(log@ =~= old(log)@ + intended.take(6));
                } else {
                    assert(log@ =~= old(log)@ + intended.take(7));
                }
            }
            return Err(e);
        }
        proof {
            let (d, q) = choose|d: Seq<char>, q: Option<Seq<char>>|
                log@ == pre_pivot + seq![
                    Effect::Pivot { new_root: paths.new_root@, put_old: paths.write_root@ },
                    Effect::Chdir { path: d, queried: q },
                ] && (q == Some(d) || d == "/"@);
            assert(log@ =~= old(log)@ + intended + seq![Effect::Chdir { path: d, queried: q }]);
        }
        Ok(())
    }
}

} // verus!
