use byte::path::{directory_verdict, join_path, permission_verdict, PathError, SafePath};

#[test]
fn test_tilde_expansion() {
    let path = SafePath::from_user_input("~/test").unwrap();
    assert!(!path.expanded().contains('~'));
    assert!(path.original().contains('~'));
}

#[test]
fn test_empty_path() {
    assert!(SafePath::from_user_input("").is_err());
    assert!(SafePath::from_user_input("   ").is_err());
}

#[test]
fn test_remote_path_detection() {
    assert!(SafePath::from_user_input("\\\\server\\share").is_err());
    assert!(SafePath::from_user_input("user@host:/path").is_err());
    assert!(SafePath::from_user_input("ssh://user@host/path").is_err());
    assert!(SafePath::from_user_input("sftp://server/path").is_err());
    assert!(SafePath::from_user_input("smb://server/share").is_err());
}

#[test]
fn test_join_validation() {
    let dir = tempfile::tempdir().unwrap();
    let base = SafePath::from_user_input(dir.path().to_str().unwrap()).unwrap();
    assert!(base.join("subdir").is_ok());
    assert!(base.join("my-dir").is_ok());
    assert!(base.join("dir_name").is_ok());
    assert!(base.join("../etc").is_err());
    assert!(base.join("sub/dir").is_err());
    assert!(base.join("..").is_err());
    assert!(base.join(".").is_err());
}

#[test]
fn test_path_equality() {
    let dir = tempfile::tempdir().unwrap();
    let p = dir.path().to_str().unwrap();
    let path1 = SafePath::from_user_input(p).unwrap();
    let path2 = SafePath::from_user_input(p).unwrap();
    assert!(path1.equals(&path2));
}

#[test]
fn test_validate_directory() {
    let dir = tempfile::tempdir().unwrap();
    let path = SafePath::from_user_input(dir.path().to_str().unwrap()).unwrap();
    assert!(path.validate_directory().is_ok());
    let fake_path = SafePath::from_user_input("/this/does/not/exist/byte_test").unwrap();
    assert!(fake_path.validate_directory().is_err());
}

#[test]
fn test_canonical_path() {
    let dir = tempfile::tempdir().unwrap();
    let path = SafePath::from_user_input(dir.path().to_str().unwrap()).unwrap();
    assert!(path.canonical().is_some());
    assert!(path.canonical().unwrap().starts_with('/'));
}

#[test]
fn test_project_root_convenience() {
    let dir = tempfile::tempdir().unwrap();
    assert!(SafePath::project_root(dir.path().to_str().unwrap()).is_ok());
    assert!(SafePath::project_root("/this/does/not/exist/byte_test").is_err());
}

#[test]
fn each_refused_input_names_its_reason() {
    assert_eq!(SafePath::from_user_input(" ").unwrap_err(), PathError::Empty);
    assert_eq!(SafePath::from_user_input("\\\\srv\\x").unwrap_err(), PathError::UncPath);
    assert_eq!(SafePath::from_user_input("me@box:/x").unwrap_err(), PathError::SshPath);
    assert_eq!(SafePath::from_user_input("nfs://box/x").unwrap_err(), PathError::RemoteUrl);
    let base = SafePath::from_user_input("/tmp").unwrap();
    assert_eq!(base.join("a/b").unwrap_err(), PathError::ComponentHasSeparator);
    assert_eq!(base.join("..").unwrap_err(), PathError::ComponentIsDot);
    assert_eq!(directory_verdict(false, false), Err(PathError::NotFound));
    assert_eq!(directory_verdict(true, false), Err(PathError::NotADirectory));
    assert_eq!(directory_verdict(true, true), Ok(()));
}

#[test]
fn joining_follows_pathbuf() {
    assert_eq!(join_path("/a", "b"), "/a/b");
    assert_eq!(join_path("/a/", "b"), "/a/b");
    assert_eq!(join_path("", "b"), "b");
    assert_eq!(join_path("/a", "/b"), "/b");
    let base = SafePath::from_user_input("/tmp").unwrap();
    assert_eq!(base.join("x").unwrap().expanded(), "/tmp/x");
}

#[test]
fn plain_paths_are_kept_as_typed() {
    let p = SafePath::from_user_input("/srv/code").unwrap();
    assert_eq!(p.original(), "/srv/code");
    assert_eq!(p.expanded(), "/srv/code");
    assert_eq!(p.as_path(), "/srv/code");
}

#[test]
fn permission_bits_decide_writability() {
    assert_eq!(permission_verdict(0o755, false), Ok(()));
    assert_eq!(permission_verdict(0o40700, false), Ok(()));
    assert_eq!(
        permission_verdict(0o500, false),
        Err(PathError::InsufficientPermissions { mode: 0o500 })
    );
    assert_eq!(
        permission_verdict(0o077, false),
        Err(PathError::InsufficientPermissions { mode: 0o077 })
    );
    assert_eq!(permission_verdict(0o700, true), Err(PathError::ReadOnly));
}

#[test]
fn refusals_read_as_messages() {
    assert_eq!(PathError::Empty.message("x"), "Path cannot be empty");
    assert_eq!(PathError::NotFound.message("/a"), "Path does not exist: /a");
    assert_eq!(
        PathError::SshPath.message("me@h:/x"),
        "SSH/remote paths not yet supported: me@h:/x\nRemote execution is planned for a future release."
    );
    assert_eq!(
        PathError::InsufficientPermissions { mode: 0o40500 }.message("/d"),
        "Insufficient permissions on: /d (need owner rwx)\nCurrent mode: 40500"
    );
    assert_eq!(
        PathError::ComponentIsDot.message(".."),
        "Path component cannot be '.' or '..': '..'\nUse from_user_input() for relative paths."
    );
}

#[test]
fn tilde_with_backslash_is_left_or_expanded() {
    let p = SafePath::from_user_input("~\\work").unwrap();
    assert!(p.expanded() == "~\\work" || p.expanded().ends_with("\\work"));
}
