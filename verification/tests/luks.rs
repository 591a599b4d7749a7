//! The block-device backend's lifecycle state machine, driven against a real
//! backing file but with the encryption-library outcomes simulated.

use homesec::crypt::{Crypt, CryptAction, Error};
use homesec::paths::AbsPath;

fn fresh_backing_path() -> AbsPath {
    let p = format!("/tmp/homesec-test-{}.img", uuid::Uuid::new_v4());
    AbsPath::new(p).expect("well-formed path")
}

/// Drives every pending action with a success outcome and returns the actions
/// in order.
fn drive_ok(crypt: &mut Crypt) -> Vec<CryptAction> {
    let mut actions = Vec::new();
    while let Some(a) = crypt.next_action() {
        actions.push(a);
        crypt.on_result(0).expect("simulated success outcome");
    }
    actions
}

#[test]
fn fresh_container_formats_keys_activates_and_builds_fs() {
    let path = fresh_backing_path();
    let mut crypt = Crypt::new(path.duplicate(), 128 * 1024 * 1024).expect("backing file");
    assert!(crypt.created());

    let actions = drive_ok(&mut crypt);
    assert_eq!(actions.len(), 5);
    match &actions[0] {
        CryptAction::Init { path: p } => assert_eq!(p.as_str(), path.as_str()),
        other => panic!("expected initialization first, got {other:?}"),
    }
    match &actions[1] {
        CryptAction::Format { header, cipher, cipher_mode, volume_key_bytes } => {
            assert_eq!(header.as_str(), "LUKS2");
            assert_eq!(cipher.as_str(), "aes");
            assert_eq!(cipher_mode.as_str(), "xts-plain64");
            assert_eq!(*volume_key_bytes, 64);
        },
        other => panic!("expected the header format stage, got {other:?}"),
    }
    assert_eq!(actions[2], CryptAction::AddKeyslot);
    let name = match &actions[3] {
        CryptAction::Activate { name } => {
            assert!(name.starts_with("homesec-"));
            assert_eq!(name.len(), "homesec-".len() + 36);
            name.clone()
        },
        other => panic!("expected activation, got {other:?}"),
    };
    match &actions[4] {
        CryptAction::MkfsExt4 { device } => {
            assert_eq!(device.as_str(), format!("/dev/mapper/{name}").as_str());
        },
        other => panic!("expected filesystem creation, got {other:?}"),
    }
    assert!(crypt.is_ready());
}

#[test]
fn reopening_an_existing_container_skips_the_format_stage() {
    let path = fresh_backing_path();

    // First lifecycle: creates the backing file.
    let mut first = Crypt::new(path.duplicate(), 1024 * 1024).expect("backing file");
    assert!(first.created());
    drive_ok(&mut first);
    first.teardown();

    // Second lifecycle on the same path: headers are treated as present, so
    // the driver is asked to load, never to format, add a key slot, or build
    // a filesystem.
    let mut second = Crypt::new(path, 1024 * 1024).expect("existing backing file");
    assert!(!second.created());
    let actions = drive_ok(&mut second);
    assert_eq!(actions.len(), 3);
    assert!(matches!(actions[0], CryptAction::Init { .. }));
    match &actions[1] {
        CryptAction::LoadLuks { header } => assert_eq!(header.as_str(), "LUKS2"),
        other => panic!("expected header loading, got {other:?}"),
    }
    assert!(matches!(actions[2], CryptAction::Activate { .. }));
    assert!(second.is_ready());
}

#[test]
fn mount_before_mapping_is_refused() {
    let path = fresh_backing_path();
    let mut crypt = Crypt::new(path, 1024 * 1024).expect("backing file");
    let home = AbsPath::new("/tmp/homesec-test-mnt".to_string()).unwrap();
    assert_eq!(crypt.mount(home), Err(Error::Unmapped));
}

#[test]
fn each_stage_failure_surfaces_its_own_error() {
    let path = fresh_backing_path();
    let mut crypt = Crypt::new(path, 1024 * 1024).expect("backing file");
    assert_eq!(crypt.on_result(-1), Err(Error::Init));
    assert_eq!(crypt.next_action(), None);
    assert_eq!(crypt.on_result(0), Err(Error::Unmapped));

    let path = fresh_backing_path();
    let mut crypt = Crypt::new(path, 1024 * 1024).expect("backing file");
    crypt.on_result(0).unwrap();
    assert!(matches!(crypt.next_action(), Some(CryptAction::Format { .. })));
    assert_eq!(crypt.on_result(-22), Err(Error::Format));

    let path = fresh_backing_path();
    let mut crypt = Crypt::new(path, 1024 * 1024).expect("backing file");
    crypt.on_result(0).unwrap();
    crypt.on_result(0).unwrap();
    assert_eq!(crypt.on_result(-1), Err(Error::AddKeyslot));

    let path = fresh_backing_path();
    let mut crypt = Crypt::new(path, 1024 * 1024).expect("backing file");
    crypt.on_result(0).unwrap();
    crypt.on_result(0).unwrap();
    crypt.on_result(0).unwrap();
    assert_eq!(crypt.on_result(-1), Err(Error::MapDevice));

    let path = fresh_backing_path();
    let mut crypt = Crypt::new(path, 1024 * 1024).expect("backing file");
    crypt.on_result(0).unwrap();
    crypt.on_result(0).unwrap();
    crypt.on_result(0).unwrap();
    crypt.on_result(0).unwrap();
    assert!(matches!(crypt.next_action(), Some(CryptAction::MkfsExt4 { .. })));
    assert_eq!(crypt.on_result(1), Err(Error::Mkfs));
}

#[test]
fn reopen_failure_surfaces_load_error() {
    let path = fresh_backing_path();
    let mut first = Crypt::new(path.duplicate(), 1024 * 1024).expect("backing file");
    drive_ok(&mut first);
    first.teardown();

    let mut second = Crypt::new(path, 1024 * 1024).expect("existing backing file");
    second.on_result(0).unwrap();
    assert!(matches!(second.next_action(), Some(CryptAction::LoadLuks { .. })));
    assert_eq!(second.on_result(-1), Err(Error::Load));
}

#[test]
fn teardown_releases_in_order_and_is_idempotent() {
    let path = fresh_backing_path();
    let mut crypt = Crypt::new(path, 1024 * 1024).expect("backing file");
    drive_ok(&mut crypt);
    assert!(crypt.is_ready());

    // Mapped and live, never mounted: deactivate, then free.
    let acts = crypt.teardown();
    assert_eq!(acts.len(), 2);
    assert!(matches!(acts[0], CryptAction::Deactivate { .. }));
    assert_eq!(acts[1], CryptAction::Free);

    // A second teardown performs and requests nothing.
    let acts = crypt.teardown();
    assert!(acts.is_empty());
}

#[test]
fn teardown_after_partial_failure_frees_only_the_handle() {
    let path = fresh_backing_path();
    let mut first = Crypt::new(path.duplicate(), 1024 * 1024).expect("backing file");
    drive_ok(&mut first);
    first.teardown();

    let mut second = Crypt::new(path, 1024 * 1024).expect("existing backing file");
    second.on_result(0).unwrap();
    assert_eq!(second.on_result(-1), Err(Error::Load));
    // Initialized but never mapped: only the handle release remains.
    let acts = second.teardown();
    assert_eq!(acts, vec![CryptAction::Free]);
    assert!(second.teardown().is_empty());
}

#[test]
fn teardown_before_initialization_requests_nothing() {
    let path = fresh_backing_path();
    let mut crypt = Crypt::new(path, 1024 * 1024).expect("backing file");
    assert!(crypt.teardown().is_empty());
}

#[test]
fn teardown_after_failed_fs_build_still_deactivates() {
    let path = fresh_backing_path();
    let mut crypt = Crypt::new(path, 1024 * 1024).expect("backing file");
    crypt.on_result(0).unwrap();
    crypt.on_result(0).unwrap();
    crypt.on_result(0).unwrap();
    crypt.on_result(0).unwrap();
    assert!(matches!(crypt.next_action(), Some(CryptAction::MkfsExt4 { .. })));
    assert_eq!(crypt.on_result(1), Err(Error::Mkfs));

    // The mapping was activated and only the filesystem build failed:
    // teardown must still deactivate it before releasing the handle.
    let acts = crypt.teardown();
    assert_eq!(acts.len(), 2);
    assert!(matches!(acts[0], CryptAction::Deactivate { .. }));
    assert_eq!(acts[1], CryptAction::Free);
    assert!(crypt.teardown().is_empty());
}
