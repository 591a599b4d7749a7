//! Session phase ordering and the home-assembly path computations.
//!
//! The mount and namespace effects themselves mutate process-wide kernel
//! state, so the phases that perform them are not driven here; what is driven
//! is everything the session decides: phase gating and the derived locations.

use homesec::errors::SandboxError;
use homesec::gocryptfs;
use homesec::paths::AbsPath;
use homesec::sandbox::{preserved_path, xauthority_copy_pair, SandboxSession};

fn abs(s: &str) -> AbsPath {
    AbsPath::new(s.to_string()).expect("well-formed absolute path")
}

#[test]
fn phases_refuse_to_run_out_of_order() {
    let mut session = SandboxSession::new();
    assert_eq!(session.drop_privileges(), Err(SandboxError::OutOfOrder));
    assert_eq!(session.assemble_home_ephemeral(&abs("/tmp/h")), Err(SandboxError::OutOfOrder));

    let dir = format!("/tmp/homesec-test-sess-{}", uuid::Uuid::new_v4());
    let (backend, _) = gocryptfs::Crypt::new(abs(&dir)).expect("storage directory");
    assert_eq!(
        session.finish_home_encrypted(&abs("/tmp/h"), &backend),
        Err(SandboxError::OutOfOrder),
    );
}

#[test]
fn preserved_path_re_roots_under_the_write_root() {
    let p = preserved_path(&abs("/var/lib/data"));
    assert_eq!(p.as_str(), "/tmp/write-root/var/lib/data");

    let p = preserved_path(&abs("/home/user/.local/share/app.homesec"));
    assert_eq!(p.as_str(), "/tmp/write-root/home/user/.local/share/app.homesec");
}

#[test]
fn xauthority_is_copied_at_the_same_home_relative_location() {
    let (source, dest) = xauthority_copy_pair(&abs("/home/user"));
    assert_eq!(source.as_str(), "/tmp/write-root/home/user/.Xauthority");
    assert_eq!(dest.as_str(), "/home/user/.Xauthority");

    // The same relation holds for any home.
    let (source, dest) = xauthority_copy_pair(&abs("/root"));
    assert_eq!(source.as_str(), "/tmp/write-root/root/.Xauthority");
    assert_eq!(dest.as_str(), "/root/.Xauthority");
}
