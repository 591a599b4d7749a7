//! The sandbox session: one strictly ordered sequence per process.
//!
//! Namespace and identity-map mutations are process-wide and order-dependent,
//! so they are driven through a single session object: acquire the namespace
//! and build the readonly root, assemble the home directory, then drop the
//! elevated mapping back to the invoking user. Each phase refuses to run out
//! of order, and a failed phase poisons the session: setup errors are
//! unrecoverable for the invocation.

use vstd::prelude::*;
use vstd::string::StringExecFns;

use crate::crypt;
use crate::effects::{Effect, EffectLog};
use crate::errors::SandboxError;
use crate::gocryptfs;
use crate::mounts::{MountLayerBuilder, SandboxPaths};
use crate::namespaces::{create_user_namespace, enter_effects};
use crate::paths::{
    join_absolute_paths, lemma_join_strict_descendant, spec_join, wf_abs_path, AbsPath,
};
use crate::sys;

verus! {

/// Where a session stands.
#[derive(Clone, Copy, Debug, PartialEq, Eq, Structural)]
pub enum Phase {
    /// Nothing has happened yet.
    Start,
    /// The readonly root is built and pivoted into.
    Pivoted,
    /// The home directory is assembled.
    HomeReady,
    /// The elevated mapping has been dropped; the session is complete.
    Done,
    /// A phase failed; the construction cannot continue.
    Failed,
}

/// The readonly-root location: the new root is layered over the temp
/// directory.
pub open spec fn new_root_location() -> Seq<char> {
    "/tmp"@
}

/// The read-write location of the old root inside the new one.
pub open spec fn write_root_location() -> Seq<char> {
    "/tmp/write-root"@
}

/// The home-relative location of the X display-authentication dotfile.
pub open spec fn xauthority_rel() -> Seq<char> {
    "/.Xauthority"@
}

/// The three fixed locations are normalized absolute paths, and none is the
/// bare root.
pub proof fn lemma_wf_locations()
    ensures
        wf_abs_path(new_root_location()),
        wf_abs_path(write_root_location()),
        wf_abs_path(xauthority_rel()),
        new_root_location().len() > 1,
        write_root_location().len() > 1,
        xauthority_rel().len() > 1,
{
    reveal_strlit("/tmp");
    reveal_strlit("/tmp/write-root");
    reveal_strlit("/.Xauthority");
    assert("/tmp"@ =~= seq!['/', 't', 'm', 'p']);
    assert("/tmp/write-root"@ =~= seq![
        '/', 't', 'm', 'p', '/', 'w', 'r', 'i', 't', 'e', '-', 'r', 'o', 'o', 't',
    ]);
    assert("/.Xauthority"@ =~= seq![
        '/', '.', 'X', 'a', 'u', 't', 'h', 'o', 'r', 'i', 't', 'y',
    ]);
    assert(wf_abs_path(seq!['/', 't', 'm', 'p']));
    assert(wf_abs_path(seq![
        '/', 't', 'm', 'p', '/', 'w', 'r', 'i', 't', 'e', '-', 'r', 'o', 'o', 't',
    ]));
    assert(wf_abs_path(seq!['/', '.', 'X', 'a', 'u', 't', 'h', 'o', 'r', 'i', 't', 'y']));
}

/// A single sandbox construction, from namespace entry to privilege drop.
pub struct SandboxSession {
    log: EffectLog,
    builder: MountLayerBuilder,
    phase: Phase,
    parent_uid: u32,
    parent_gid: u32,
    paths: Option<SandboxPaths>,
}

impl SandboxSession {
    /// The system effects this session has performed.
    pub closed spec fn trace(&self) -> Seq<Effect> {
        self.log@
    }

    /// The session's phase.
    pub closed spec fn spec_phase(&self) -> Phase {
        self.phase
    }

    /// The invoking user's effective UID, captured on namespace entry.
    pub closed spec fn spec_parent_uid(&self) -> u32 {
        self.parent_uid
    }

    /// The invoking user's effective GID, captured on namespace entry.
    pub closed spec fn spec_parent_gid(&self) -> u32 {
        self.parent_gid
    }

    /// The new root, once built.
    pub closed spec fn spec_new_root(&self) -> Option<Seq<char>> {
        match self.paths {
            Some(p) => Some(p.new_root@),
            None => None,
        }
    }

    /// The pre-pivot location of the writable escape directory, once built.
    pub closed spec fn spec_write_root(&self) -> Option<Seq<char>> {
        match self.paths {
            Some(p) => Some(p.write_root@),
            None => None,
        }
    }

    /// A session that has not started has not touched the mount layering.
    pub closed spec fn wf(&self) -> bool {
        self.spec_phase() == Phase::Start ==> !self.builder.spec_built()
    }

    /// A fresh session.
    pub fn new() -> (r: SandboxSession)
        ensures
            r.wf(),
            r.spec_phase() == Phase::Start,
            r.trace() =~= Seq::<Effect>::empty(),
    {
        SandboxSession {
            log: EffectLog::new(),
            builder: MountLayerBuilder::new(),
            phase: Phase::Start,
            parent_uid: 0,
            parent_gid: 0,
            paths: None,
        }
    }

    /// Switches to a readonly view of the filesystem.
    ///
    /// Creates a user namespace with a mount namespace, mapped to root, then
    /// lays the readonly root over the temp directory and pivots into it; the
    /// old root stays read-write at the escape location. On success the log
    /// has gained exactly the namespace-entry effects (mapping the root user
    /// to the captured parent IDs), the mount-layer effects, and the final
    /// working-directory move, in order. On failure the log holds exactly a
    /// prefix of that intended sequence — the first failing step stops
    /// everything after it, and in particular no pivot follows a failed mount
    /// step and nothing is rolled back.
    pub fn readonly_root(&mut self) -> (r: Result<(), SandboxError>)
        requires
            old(self).wf(),
        ensures
            final(self).wf(),
            old(self).spec_phase() != Phase::Start ==> r == Err::<(), SandboxError>(
                SandboxError::OutOfOrder,
            ) && *final(self) == *old(self),
            r is Ok ==> {
                &&& old(self).spec_phase() == Phase::Start
                &&& final(self).spec_phase() == Phase::Pivoted
                &&& final(self).spec_new_root() == Some(new_root_location())
                &&& final(self).spec_write_root() == Some(
                    spec_join(new_root_location(), write_root_location()),
                )
                &&& exists|d: Seq<char>, q: Option<Seq<char>>|
                    final(self).trace() == old(self).trace() + enter_effects(
                        0,
                        0,
                        final(self).spec_parent_uid(),
                        final(self).spec_parent_gid(),
                        true,
                    ) + MountLayerBuilder::build_effects(
                        new_root_location(),
                        spec_join(new_root_location(), new_root_location()),
                        spec_join(new_root_location(), write_root_location()),
                    ) + seq![Effect::Chdir { path: d, queried: q }] && (q == Some(d) || d
                        == "/"@)
            },
            old(self).spec_phase() == Phase::Start && r is Err ==> {
                &&& (r matches Err(e) && (e is Namespace || e is IdMap || e is Mount))
                &&& final(self).spec_phase() == Phase::Failed
                &&& exists|pu: u32, pg: u32, k: int|
                    0 <= k <= 12 && final(self).trace() == old(self).trace() + (enter_effects(
                        0,
                        0,
                        pu,
                        pg,
                        true,
                    ) + MountLayerBuilder::build_effects(
                        new_root_location(),
                        spec_join(new_root_location(), new_root_location()),
                        spec_join(new_root_location(), write_root_location()),
                    )).take(k)
            },
    {
        match self.phase {
            Phase::Start => {},
            _ => {
                return Err(SandboxError::OutOfOrder);
            },
        }
        proof {
            lemma_wf_locations();
        }
        let new_root = match AbsPath::new("/tmp".to_owned()) {
            Some(p) => p,
            None => unreached(),
        };
        let write_rel = match AbsPath::new("/tmp/write-root".to_owned()) {
            Some(p) => p,
            None => unreached(),
        };
        // The shadow temp directory sits at the temp-relative location under
        // the new root; the escape directory sits strictly below the new
        // root.
        let tmp_rel = new_root.duplicate();
        let tmp_shadow = join_absolute_paths(&new_root, &tmp_rel);
        let write_root = join_absolute_paths(&new_root, &write_rel);
        proof {
            lemma_join_strict_descendant(new_root@, write_rel@);
        }
        let paths = SandboxPaths { new_root, write_root };
        let ghost intended = enter_effects(0, 0, 0, 0, true);
        // Gain mount permissions: a new user namespace mapped to root, plus a
        // new mount namespace.
        let parents = match create_user_namespace(&mut self.log, 0, 0, true) {
            Ok(p) => p,
            Err(e) => {
                self.phase = Phase::Failed;
                proof {
                    let (pu, pg, k) = choose|pu: u32, pg: u32, k: int|
                        0 <= k < 5 && self.log@ == old(self).trace() + enter_effects(
                            0,
                            0,
                            pu,
                            pg,
                            true,
                        ).take(k);
                    assert(self.trace() =~= old(self).trace() + (enter_effects(0, 0, pu, pg, true)
                        + MountLayerBuilder::build_effects(
                        new_root_location(),
                        spec_join(new_root_location(), new_root_location()),
                        spec_join(new_root_location(), write_root_location()),
                    )).take(k));
                }
                return Err(e);
            },
        };
        self.parent_uid = parents.0;
        self.parent_gid = parents.1;
        let ghost pre_build = self.log@;
        if let Err(e) = self.builder.build(&mut self.log, &paths, &tmp_shadow) {
            self.phase = Phase::Failed;
            proof {
                let k = choose|k: int|
                    0 <= k <= 7 && self.log@ == pre_build + MountLayerBuilder::build_effects(
                        new_root_location(),
                        spec_join(new_root_location(), new_root_location()),
                        spec_join(new_root_location(), write_root_location()),
                    ).take(k);
                assert(self.trace() =~= old(self).trace() + (enter_effects(
                    0,
                    0,
                    parents.0,
                    parents.1,
                    true,
                ) + MountLayerBuilder::build_effects(
                    new_root_location(),
                    spec_join(new_root_location(), new_root_location()),
                    spec_join(new_root_location(), write_root_location()),
                )).take(5 + k));
            }
            return Err(e);
        }
        self.paths = Some(paths);
        self.phase = Phase::Pivoted;
        proof {
            let (d, q) = choose|d: Seq<char>, q: Option<Seq<char>>|
                self.log@ == pre_build + MountLayerBuilder::build_effects(
                    new_root_location(),
                    spec_join(new_root_location(), new_root_location()),
                    spec_join(new_root_location(), write_root_location()),
                ) + seq![Effect::Chdir { path: d, queried: q }] && (q == Some(d) || d == "/"@);
            assert(self.trace() =~= old(self).trace() + enter_effects(
                0,
                0,
                self.parent_uid,
                self.parent_gid,
                true,
            ) + MountLayerBuilder::build_effects(
                new_root_location(),
                spec_join(new_root_location(), new_root_location()),
                spec_join(new_root_location(), write_root_location()),
            ) + seq![Effect::Chdir { path: d, queried: q }]);
        }
        Ok(())
    }

    /// Assembles an ephemeral home: mounts a writable memory-backed
    /// filesystem directly over `home`, with no persistent backing store.
    pub fn assemble_home_ephemeral(&mut self, home: &AbsPath) -> (r: Result<(), SandboxError>)
        requires
            old(self).wf(),
            home.wf(),
        ensures
            final(self).wf(),
            final(self).spec_parent_uid() == old(self).spec_parent_uid(),
            final(self).spec_parent_gid() == old(self).spec_parent_gid(),
            final(self).spec_new_root() == old(self).spec_new_root(),
            final(self).spec_write_root() == old(self).spec_write_root(),
            old(self).spec_phase() != Phase::Pivoted ==> r == Err::<(), SandboxError>(
                SandboxError::OutOfOrder,
            ) && *final(self) == *old(self),
            old(self).spec_phase() == Phase::Pivoted ==> match r {
                Ok(()) => final(self).spec_phase() == Phase::HomeReady && final(self).trace()
                    == old(self).trace().push(Effect::MountTmpfs { target: home@ }),
                Err(e) => e is Mount && final(self).spec_phase() == Phase::Failed && final(self).trace() == old(self).trace(),
            },
    {
        match self.phase {
            Phase::Pivoted => {},
            _ => {
                return Err(SandboxError::OutOfOrder);
            },
        }
        if let Err(e) = sys::mount_filesystem("tmpfs", home.as_str()) {
            self.phase = Phase::Failed;
            return Err(SandboxError::Mount(e));
        }
        self.log.note(Ghost(Effect::MountTmpfs { target: home@ }));
        self.phase = Phase::HomeReady;
        Ok(())
    }

    /// Marks the home assembled over an encrypted FUSE filesystem. Succeeds
    /// exactly when the backend is mounted at `home` (the mount itself was
    /// driven through [`crate::gocryptfs::Crypt`]).
    pub fn finish_home_encrypted(&mut self, home: &AbsPath, backend: &gocryptfs::Crypt) -> (r:
        Result<(), SandboxError>)
        requires
            old(self).wf(),
            home.wf(),
        ensures
            final(self).wf(),
            final(self).trace() == old(self).trace(),
            final(self).spec_parent_uid() == old(self).spec_parent_uid(),
            final(self).spec_parent_gid() == old(self).spec_parent_gid(),
            final(self).spec_new_root() == old(self).spec_new_root(),
            final(self).spec_write_root() == old(self).spec_write_root(),
            old(self).spec_phase() != Phase::Pivoted ==> r == Err::<(), SandboxError>(
                SandboxError::OutOfOrder,
            ) && *final(self) == *old(self),
            old(self).spec_phase() == Phase::Pivoted ==> match r {
                Ok(()) => final(self).spec_phase() == Phase::HomeReady && backend.spec_mounted()
                    == Some(home@),
                Err(e) => e == SandboxError::OutOfOrder && *final(self) == *old(self)
                    && backend.spec_mounted() != Some(home@),
            },
    {
        match self.phase {
            Phase::Pivoted => {},
            _ => {
                return Err(SandboxError::OutOfOrder);
            },
        }
        if !backend.is_mounted_at(home) {
            return Err(SandboxError::OutOfOrder);
        }
        self.phase = Phase::HomeReady;
        Ok(())
    }

    /// Marks the home assembled over a mounted block-device backend. Succeeds
    /// exactly when the backend is mounted at `home` (the mount itself was
    /// driven through [`crate::crypt::Crypt`]).
    pub fn finish_home_block(&mut self, home: &AbsPath, backend: &crypt::Crypt) -> (r: Result<
        (),
        SandboxError,
    >)
        requires
            old(self).wf(),
            home.wf(),
        ensures
            final(self).wf(),
            final(self).trace() == old(self).trace(),
            final(self).spec_parent_uid() == old(self).spec_parent_uid(),
            final(self).spec_parent_gid() == old(self).spec_parent_gid(),
            final(self).spec_new_root() == old(self).spec_new_root(),
            final(self).spec_write_root() == old(self).spec_write_root(),
            old(self).spec_phase() != Phase::Pivoted ==> r == Err::<(), SandboxError>(
                SandboxError::OutOfOrder,
            ) && *final(self) == *old(self),
            old(self).spec_phase() == Phase::Pivoted ==> match r {
                Ok(()) => final(self).spec_phase() == Phase::HomeReady && backend.spec_mounted()
                    == Some(home@),
                Err(e) => e == SandboxError::OutOfOrder && *final(self) == *old(self)
                    && backend.spec_mounted() != Some(home@),
            },
    {
        match self.phase {
            Phase::Pivoted => {},
            _ => {
                return Err(SandboxError::OutOfOrder);
            },
        }
        if !backend.is_mounted_at(home) {
            return Err(SandboxError::OutOfOrder);
        }
        self.phase = Phase::HomeReady;
        Ok(())
    }

    /// Records that no home directory is to be assembled (the invoking user
    /// has none): home assembly is skipped and the session may proceed to
    /// drop its elevated mapping.
    pub fn skip_home(&mut self) -> (r: Result<(), SandboxError>)
        requires
            old(self).wf(),
        ensures
            final(self).wf(),
            final(self).trace() == old(self).trace(),
            final(self).spec_parent_uid() == old(self).spec_parent_uid(),
            final(self).spec_parent_gid() == old(self).spec_parent_gid(),
            final(self).spec_new_root() == old(self).spec_new_root(),
            final(self).spec_write_root() == old(self).spec_write_root(),
            old(self).spec_phase() != Phase::Pivoted ==> r == Err::<(), SandboxError>(
                SandboxError::OutOfOrder,
            ) && *final(self) == *old(self),
            old(self).spec_phase() == Phase::Pivoted ==> r is Ok && final(self).spec_phase()
                == Phase::HomeReady,
    {
        match self.phase {
            Phase::Pivoted => {},
            _ => {
                return Err(SandboxError::OutOfOrder);
            },
        }
        self.phase = Phase::HomeReady;
        Ok(())
    }

    /// Drops the elevated mapping: one more user namespace, mapping the
    /// captured invoking user's IDs back, so the target command runs under
    /// the original identity's view.
    pub fn drop_privileges(&mut self) -> (r: Result<(), SandboxError>)
        requires
            old(self).wf(),
        ensures
            final(self).wf(),
            final(self).spec_parent_uid() == old(self).spec_parent_uid(),
            final(self).spec_parent_gid() == old(self).spec_parent_gid(),
            old(self).spec_phase() != Phase::HomeReady ==> r == Err::<(), SandboxError>(
                SandboxError::OutOfOrder,
            ) && *final(self) == *old(self),
            r is Ok ==> {
                &&& old(self).spec_phase() == Phase::HomeReady
                &&& final(self).spec_phase() == Phase::Done
                &&& exists|pu: u32, pg: u32|
                    final(self).trace() == old(self).trace() + enter_effects(
                        old(self).spec_parent_uid(),
                        old(self).spec_parent_gid(),
                        pu,
                        pg,
                        false,
                    )
            },
            old(self).spec_phase() == Phase::HomeReady && r is Err ==> {
                &&& (r matches Err(e) && (e is Namespace || e is IdMap))
                &&& final(self).spec_phase() == Phase::Failed
                &&& exists|pu: u32, pg: u32, k: int|
                    0 <= k < 5 && final(self).trace() == old(self).trace() + enter_effects(
                        old(self).spec_parent_uid(),
                        old(self).spec_parent_gid(),
                        pu,
                        pg,
                        false,
                    ).take(k)
            },
    {
        match self.phase {
            Phase::HomeReady => {},
            _ => {
                return Err(SandboxError::OutOfOrder);
            },
        }
        let parents = match create_user_namespace(
            &mut self.log,
            self.parent_uid,
            self.parent_gid,
            false,
        ) {
            Ok(p) => p,
            Err(e) => {
                self.phase = Phase::Failed;
                return Err(e);
            },
        };
        self.phase = Phase::Done;
        proof {
            assert(self.trace() == old(self).trace() + enter_effects(
                old(self).spec_parent_uid(),
                old(self).spec_parent_gid(),
                parents.0,
                parents.1,
                false,
            ));
        }
        Ok(())
    }
}

/// The location of `p` as preserved under the writable escape directory: the
/// same path, re-rooted at the old root's read-write alias.
pub fn preserved_path(p: &AbsPath) -> (r: AbsPath)
    requires
        p.wf(),
    ensures
        r.wf(),
        r@ == spec_join(write_root_location(), p@),
{
    proof {
        lemma_wf_locations();
    }
    let write_root = match AbsPath::new("/tmp/write-root".to_owned()) {
        Some(w) => w,
        None => unreached(),
    };
    join_absolute_paths(&write_root, p)
}

/// Where the X display-authentication dotfile is copied from and to during
/// home assembly: the source lies under the preserved home, the destination
/// under the assembled home, at the same home-relative location — for every
/// home and whichever backend assembled it. The copy itself is best-effort: a
/// missing source never fails assembly.
pub fn xauthority_copy_pair(home: &AbsPath) -> (r: (AbsPath, AbsPath))
    requires
        home.wf(),
    ensures
        r.0.wf(),
        r.1.wf(),
        r.0@ == spec_join(spec_join(write_root_location(), home@), xauthority_rel()),
        r.1@ == spec_join(home@, xauthority_rel()),
{
    proof {
        lemma_wf_locations();
    }
    let xauth = match AbsPath::new("/.Xauthority".to_owned()) {
        Some(x) => x,
        None => unreached(),
    };
    let write_home = preserved_path(home);
    let source = join_absolute_paths(&write_home, &xauth);
    let dest = join_absolute_paths(home, &xauth);
    (source, dest)
}

} // verus!
