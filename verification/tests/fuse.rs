//! The FUSE backend: storage preparation, the exact subprocess commands, and
//! idempotent teardown.

use homesec::gocryptfs::{Crypt, Error};
use homesec::paths::AbsPath;

fn fresh_storage_dir() -> AbsPath {
    let p = format!("/tmp/homesec-test-store-{}", uuid::Uuid::new_v4());
    AbsPath::new(p).expect("well-formed path")
}

fn home() -> AbsPath {
    AbsPath::new("/tmp/homesec-test-home".to_string()).unwrap()
}

#[test]
fn fresh_storage_wants_the_init_command() {
    let dir = fresh_storage_dir();
    let (crypt, cmd) = Crypt::new(dir.duplicate()).expect("storage directory");
    assert!(!crypt.is_initialized());
    let cmd = cmd.expect("a fresh directory needs initialization");
    assert_eq!(cmd.program.as_str(), "gocryptfs");
    assert_eq!(cmd.args, vec!["-q".to_string(), "-init".to_string(), dir.as_str().to_string()]);
    assert!(cmd.feed_passphrase);
}

#[test]
fn init_outcome_is_interpreted_exactly() {
    let dir = fresh_storage_dir();
    let (mut crypt, _) = Crypt::new(dir).expect("storage directory");
    assert_eq!(crypt.report_init(12), Err(Error::Init));
    assert!(!crypt.is_initialized());
    assert_eq!(crypt.report_init(0), Ok(()));
    assert!(crypt.is_initialized());
}

#[test]
fn mount_needs_initialization_and_uses_the_exact_command() {
    let dir = fresh_storage_dir();
    let (mut crypt, _) = Crypt::new(dir.duplicate()).expect("storage directory");
    assert!(matches!(crypt.mount(home()), Err(Error::NotInitialized)));

    crypt.report_init(0).unwrap();
    let cmd = crypt.mount(home()).expect("mount command");
    assert_eq!(cmd.program.as_str(), "gocryptfs");
    assert_eq!(
        cmd.args,
        vec![
            "-q".to_string(),
            "-nonempty".to_string(),
            dir.as_str().to_string(),
            home().as_str().to_string(),
        ],
    );
    assert!(cmd.feed_passphrase);

    assert_eq!(crypt.report_mount(0), Ok(()));
    assert!(crypt.is_mounted_at(&home()));
}

#[test]
fn failed_mount_leaves_nothing_recorded() {
    let dir = fresh_storage_dir();
    let (mut crypt, _) = Crypt::new(dir).expect("storage directory");
    crypt.report_init(0).unwrap();
    let _ = crypt.mount(home()).expect("mount command");
    assert_eq!(crypt.report_mount(1), Err(Error::Mount));
    assert!(!crypt.is_mounted_at(&home()));
    assert_eq!(crypt.report_mount(0), Err(Error::NoMountPending));
}

#[test]
fn teardown_hands_out_the_privileged_unmount_once() {
    let dir = fresh_storage_dir();
    let (mut crypt, _) = Crypt::new(dir).expect("storage directory");
    crypt.report_init(0).unwrap();
    let _ = crypt.mount(home()).expect("mount command");
    crypt.report_mount(0).unwrap();

    let cmd = crypt.teardown().expect("unmount command");
    assert_eq!(cmd.program.as_str(), "umount");
    assert_eq!(cmd.args, vec![home().as_str().to_string()]);
    assert!(!cmd.feed_passphrase);

    // The recorded state was cleared with the first teardown: a second one
    // performs nothing, even if the unmount failed.
    assert!(crypt.teardown().is_none());
}

#[test]
fn teardown_without_a_mount_is_a_no_op() {
    let dir = fresh_storage_dir();
    let (mut crypt, _) = Crypt::new(dir).expect("storage directory");
    assert!(crypt.teardown().is_none());
}

#[test]
fn unmount_status_is_interpreted_exactly() {
    assert_eq!(Crypt::report_unmount(0), Ok(()));
    assert_eq!(Crypt::report_unmount(32), Err(Error::Unmount));
}

#[test]
fn storage_directories_are_really_created() {
    let base = format!("/tmp/homesec-test-tree-{}", uuid::Uuid::new_v4());
    let dir = AbsPath::new(format!("{base}/nested/store")).expect("well-formed path");
    let (_crypt, cmd) = Crypt::new(dir).expect("storage directory");
    assert!(cmd.is_some());

    // The whole directory chain now exists: a backing file can be created
    // beneath it.
    let img = AbsPath::new(format!("{base}/nested/store/container.img")).expect("well-formed path");
    let luks = homesec::crypt::Crypt::new(img, 4096).expect("parent directories exist");
    assert!(luks.created());
}
