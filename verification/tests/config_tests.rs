use byte::config::{add_verdict, kept_registered, Config, ConfigError, GlobalConfig, ProjectConfig};
use byte::path::{PathError, SafePath};

#[test]
fn defaults() {
    let g = GlobalConfig::default();
    assert_eq!(g.workspace.path, "~/projects");
    assert!(g.workspace.auto_scan);
    assert!(g.workspace.registered.is_empty());
    assert_eq!(g.drivers.search_paths, vec!["~/.config/byte/drivers".to_string(), "~/.local/share/byte/drivers".to_string()]);
    assert_eq!(g.tui.refresh_rate_ms, 16);
    assert_eq!(g.tui.default_view, "browser");
    assert!(!g.explain.dry_run_by_default);
    let p = ProjectConfig::default();
    assert_eq!(p.project.name, "my-project");
    assert_eq!(p.project.ecosystem, "rust");
}

#[test]
fn loading_takes_what_was_found() {
    let c = Config::load(None).unwrap();
    assert_eq!(c.global.workspace.path, "~/projects");
    let mut g = GlobalConfig::default();
    g.workspace.path = "/srv".to_string();
    let c = Config::load(Some(Ok(g))).unwrap();
    assert_eq!(c.global.workspace.path, "/srv");
    let e = Config::load(Some(Err(ConfigError::Parse { message: "bad".to_string() })));
    assert!(matches!(e, Err(ConfigError::Parse { .. })));
}

#[test]
fn registering_and_removing_workspaces() {
    let primary = tempfile::tempdir().unwrap();
    let other = tempfile::tempdir().unwrap();
    let mut c = Config::default();
    c.global.workspace.path = primary.path().to_str().unwrap().to_string();
    let typed = format!("{}/", other.path().to_str().unwrap());
    c.add_workspace_path(&typed).unwrap();
    assert_eq!(c.global.workspace.registered, vec![other.path().to_str().unwrap().to_string()]);
    assert!(matches!(c.add_workspace_path(&typed), Err(ConfigError::AlreadyRegistered)));
    assert!(matches!(
        c.add_workspace_path(primary.path().to_str().unwrap()),
        Err(ConfigError::AlreadyPrimary)
    ));
    assert!(matches!(
        c.add_workspace_path("/this/does/not/exist/byte_test"),
        Err(ConfigError::Path { error: PathError::NotFound })
    ));
    assert!(matches!(c.add_workspace_path("  "), Err(ConfigError::Path { error: PathError::Empty })));
    c.remove_workspace_path(other.path().to_str().unwrap()).unwrap();
    assert!(c.global.workspace.registered.is_empty());
    assert!(matches!(
        c.remove_workspace_path(other.path().to_str().unwrap()),
        Err(ConfigError::NotRegistered { .. })
    ));
}

#[test]
fn loading_nothing_gives_the_whole_default() {
    let c = Config::load(None).unwrap();
    let d = GlobalConfig::default();
    assert_eq!(c.global.workspace.path, d.workspace.path);
    assert!(c.global.workspace.auto_scan);
    assert_eq!(c.global.drivers.search_paths, d.drivers.search_paths);
    assert_eq!(c.global.tui.refresh_rate_ms, 16);
    assert!(c.global.tui.animations);
    assert!(c.global.explain.show_command_traces);
    assert!(c.global.explain.show_file_preview);
    assert!(!c.global.explain.dry_run_by_default);
}

#[test]
fn adding_refused_when_primary_path_is_refused() {
    let other = tempfile::tempdir().unwrap();
    let mut c = Config::default();
    c.global.workspace.path = "me@host:/srv".to_string();
    let before = c.global.workspace.registered.clone();
    assert!(matches!(
        c.add_workspace_path(other.path().to_str().unwrap()),
        Err(ConfigError::Path { error: PathError::SshPath })
    ));
    assert_eq!(c.global.workspace.registered, before);
}

#[test]
fn add_verdict_follows_the_probes() {
    let none: Vec<Option<String>> = vec![];
    assert!(matches!(add_verdict("", true, true, Some("/a"), Ok(None), &none), Err(ConfigError::Path { error: PathError::Empty })));
    assert!(matches!(add_verdict("/a", false, false, Some("/a"), Ok(None), &none), Err(ConfigError::Path { error: PathError::NotFound })));
    assert!(matches!(add_verdict("/a", true, false, Some("/a"), Ok(None), &none), Err(ConfigError::Path { error: PathError::NotADirectory })));
    assert!(matches!(add_verdict("/a", true, true, None, Ok(None), &none), Err(ConfigError::NoCanonicalForm)));
    assert!(matches!(
        add_verdict("/a", true, true, Some("/a"), Err(PathError::RemoteUrl), &none),
        Err(ConfigError::Path { error: PathError::RemoteUrl })
    ));
    assert!(matches!(add_verdict("/a", true, true, Some("/a"), Ok(Some("/a")), &none), Err(ConfigError::AlreadyPrimary)));
    let regs = vec![None, Some("/a".to_string())];
    assert!(matches!(add_verdict("/a", true, true, Some("/a"), Ok(Some("/p")), &regs), Err(ConfigError::AlreadyRegistered)));
    assert!(add_verdict("/a", true, true, Some("/a"), Ok(Some("/p")), &none).is_ok());
}

#[test]
fn removal_keeps_exactly_the_unequal_entries() {
    let target = SafePath::from_user_input("/nonexistent/byte/x").unwrap();
    let regs = vec![
        "/nonexistent/byte/y".to_string(),
        "/nonexistent/byte/x".to_string(),
        " ".to_string(),
        "/nonexistent/byte/x/".to_string(),
        "/nonexistent/byte/z".to_string(),
    ];
    let parsed: Vec<Result<SafePath, PathError>> = regs.iter().map(|r| SafePath::from_user_input(r)).collect();
    let kept = kept_registered(&target, &regs, &parsed);
    assert_eq!(kept, vec!["/nonexistent/byte/y", " ", "/nonexistent/byte/z"]);

    let mut c = Config::default();
    c.global.workspace.registered = regs.clone();
    c.remove_workspace_path("/nonexistent/byte/x").unwrap();
    assert_eq!(c.global.workspace.registered, vec!["/nonexistent/byte/y", " ", "/nonexistent/byte/z"]);
    assert!(matches!(
        c.remove_workspace_path("/nonexistent/byte/w"),
        Err(ConfigError::NotRegistered { .. })
    ));
    assert!(matches!(c.remove_workspace_path(""), Err(ConfigError::Path { error: PathError::Empty })));
}

#[test]
fn config_errors_read_as_messages() {
    assert_eq!(ConfigError::AlreadyPrimary.message("/a"), "Path is already the primary workspace");
    assert_eq!(ConfigError::NoCanonicalForm.message("/a"), "Failed to canonicalize path: /a");
    assert_eq!(
        ConfigError::NotRegistered { path: "/b".to_string() }.message("/a"),
        "Path not found in registered workspaces: /b"
    );
    assert_eq!(ConfigError::Path { error: PathError::Empty }.message(""), "Path cannot be empty");
    assert_eq!(
        ConfigError::Parse { message: "bad".to_string() }.message(""),
        "Failed to parse global config TOML: bad"
    );
}
