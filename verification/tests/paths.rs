//! Path validation, joining, and the write-root containment rule.

use homesec::errors::SandboxError;
use homesec::mounts::SandboxPaths;
use homesec::paths::{check_strict_descendant, join_absolute_paths, AbsPath};

fn abs(s: &str) -> AbsPath {
    AbsPath::new(s.to_string()).expect("well-formed absolute path")
}

#[test]
fn abs_path_accepts_normalized_absolute_paths() {
    assert!(AbsPath::new("/".to_string()).is_some());
    assert!(AbsPath::new("/tmp".to_string()).is_some());
    assert!(AbsPath::new("/home/user".to_string()).is_some());
    assert!(AbsPath::new("/tmp/write-root".to_string()).is_some());
}

#[test]
fn abs_path_rejects_everything_else() {
    assert!(AbsPath::new("".to_string()).is_none());
    assert!(AbsPath::new("tmp".to_string()).is_none());
    assert!(AbsPath::new("relative/path".to_string()).is_none());
    assert!(AbsPath::new("//x".to_string()).is_none());
    assert!(AbsPath::new("/x//y".to_string()).is_none());
    assert!(AbsPath::new("/x/".to_string()).is_none());
}

#[test]
fn join_grafts_path_under_root() {
    let j = join_absolute_paths(&abs("/tmp"), &abs("/tmp/write-root"));
    assert_eq!(j.as_str(), "/tmp/tmp/write-root");

    let j = join_absolute_paths(&abs("/tmp/write-root"), &abs("/home/user"));
    assert_eq!(j.as_str(), "/tmp/write-root/home/user");
}

#[test]
fn join_with_root_path_on_either_side() {
    let j = join_absolute_paths(&abs("/"), &abs("/a/b"));
    assert_eq!(j.as_str(), "/a/b");

    let j = join_absolute_paths(&abs("/x"), &abs("/"));
    assert_eq!(j.as_str(), "/x");
}

#[test]
fn strict_descendant_relation() {
    assert!(check_strict_descendant(&abs("/tmp/tmp/write-root"), &abs("/tmp")));
    assert!(check_strict_descendant(&abs("/a/b"), &abs("/")));
    assert!(!check_strict_descendant(&abs("/tmp"), &abs("/tmp")));
    assert!(!check_strict_descendant(&abs("/tmpfoo"), &abs("/tmp")));
    assert!(!check_strict_descendant(&abs("/var/x"), &abs("/tmp")));
    assert!(!check_strict_descendant(&abs("/tmp"), &abs("/tmp/x")));
}

#[test]
fn sandbox_paths_refuse_write_root_outside_new_root() {
    let r = SandboxPaths::new(abs("/tmp"), abs("/var/escape"));
    match r {
        Err(e) => assert_eq!(e, SandboxError::WriteRootEscapes),
        Ok(_) => panic!("a write root outside the new root must be refused"),
    }

    let r = SandboxPaths::new(abs("/tmp"), abs("/tmp/tmp/write-root"));
    assert!(r.is_ok());
}

#[test]
fn abs_path_handles_non_ascii_segments() {
    let p = AbsPath::new("/home/usér/données".to_string()).expect("well-formed path");
    assert_eq!(p.as_str(), "/home/usér/données");
    assert!(AbsPath::new("/home/usér//x".to_string()).is_none());

    let j = join_absolute_paths(&abs("/tmp/write-root"), &p);
    assert_eq!(j.as_str(), "/tmp/write-root/home/usér/données");
}
