use byte::fs::{
    log_file_entry, logs_to_remove, newest_logs, FsEntry, LogFile, ProjectFileSystem, KEPT_LOGS,
};

fn paths(v: &[FsEntry]) -> Vec<String> {
    v.iter()
        .map(|e| match e {
            FsEntry::Dir { path } => path.clone(),
            FsEntry::File { path, .. } => path.clone(),
        })
        .collect()
}

#[test]
fn test_init_byte_structure() {
    let fs = ProjectFileSystem::new("/p");
    let entries = fs.init_byte_structure();
    let ps = paths(&entries);
    assert!(ps.contains(&"/p/.byte/logs/commands/build".to_string()));
    assert!(ps.contains(&"/p/.byte/logs/commands/lint".to_string()));
    assert!(ps.contains(&"/p/.byte/logs/commands/git".to_string()));
    assert!(ps.contains(&"/p/.byte/state".to_string()));
    assert_eq!(fs.byte_dir(), "/p/.byte");
}

#[test]
fn test_create_gitignore() {
    let fs = ProjectFileSystem::new("/p");
    match fs.create_gitignore() {
        FsEntry::File { path, content } => {
            assert_eq!(path, "/p/.gitignore");
            assert!(content.contains(".byte/"));
            assert!(content.contains("target/"));
        }
        FsEntry::Dir { .. } => panic!("expected a file"),
    }
}

#[test]
fn rust_cli_project_plan() {
    let fs = ProjectFileSystem::new("/w/tool");
    let plan = fs.init_project("rust", "cli", "tool");
    assert!(plan.error.is_none());
    let ps = paths(&plan.entries);
    assert!(ps.contains(&"/w/tool/src".to_string()));
    assert!(ps.contains(&"/w/tool/src/main.rs".to_string()));
    assert_eq!(ps.last().unwrap(), "/w/tool/.gitignore");
    let bad = fs.init_project("cobol", "cli", "tool");
    assert!(bad.error.is_some());
}

#[test]
fn command_logs_are_named_after_the_command() {
    let fs = ProjectFileSystem::new("/p");
    assert_eq!(ProjectFileSystem::extract_command_name("cargo build --release"), "build");
    assert_eq!(ProjectFileSystem::extract_command_name("ls"), "ls");
    assert_eq!(ProjectFileSystem::extract_command_name("   "), "cmd");
    assert_eq!(
        fs.command_log_path("build", "2024-01-02-030405", "cargo build"),
        "/p/.byte/logs/commands/build/2024-01-02-030405-build.log"
    );
    let text = fs.command_log_text("cargo build", "2024-01-02 03:04:05", "out", "err", 1);
    assert!(text.starts_with("Command: cargo build\nTimestamp: 2024-01-02 03:04:05\nExit Code: 1\n"));
    assert!(text.ends_with("\n--- STDOUT ---\nout\n--- STDERR ---\nerr"));
}

#[test]
fn only_log_files_are_logs() {
    let l = log_file_entry("/p/x/2024-build.log", "build", 5).unwrap();
    assert_eq!(l.filename, "2024-build.log");
    assert_eq!(l.category, "build");
    assert!(log_file_entry("/p/x/notes.txt", "build", 5).is_none());
    assert!(log_file_entry("/p/x/.log", "build", 5).is_none());
}

#[test]
fn newest_logs_first_and_limited() {
    let mk = |n: &str, t: i128| LogFile { path: n.to_string(), category: "git".to_string(), timestamp: t, filename: n.to_string() };
    let logs = vec![mk("a", 1), mk("b", 3), mk("c", 2), mk("d", 3)];
    let v = newest_logs(logs, 3);
    let names: Vec<&str> = v.iter().map(|l| l.filename.as_str()).collect();
    assert_eq!(names, vec!["b", "d", "c"]);
    let gone = logs_to_remove(vec![(1, "a".to_string()), (3, "b".to_string()), (2, "c".to_string())], 1);
    assert_eq!(gone, vec!["c".to_string(), "a".to_string()]);
    assert!(logs_to_remove(vec![(1, "a".to_string())], KEPT_LOGS).is_empty());
    assert_eq!(KEPT_LOGS, 20);
}

#[test]
fn init_writes_byte_toml_and_the_manifest() {
    let fs = ProjectFileSystem::new("/w/tool");
    let plan = fs.init_project("rust", "cli", "tool");
    let files: Vec<(String, String)> = plan
        .entries
        .iter()
        .filter_map(|e| match e {
            FsEntry::File { path, content } => Some((path.clone(), content.clone())),
            _ => None,
        })
        .collect();
    let toml = files.iter().find(|(p, _)| p == "/w/tool/byte.toml").unwrap();
    assert_eq!(toml.1, "[project]\nname = \"tool\"\ntype = \"cli\"\necosystem = \"rust\"\n");
    let cargo = files.iter().find(|(p, _)| p == "/w/tool/Cargo.toml").unwrap();
    assert!(cargo.1.contains("name = \"tool\""));
    let go = ProjectFileSystem::new("/w/svc").init_project("go", "api", "svc");
    assert!(paths(&go.entries).contains(&"/w/svc/go.mod".to_string()));
    assert!(paths(&go.entries).contains(&"/w/svc/byte.toml".to_string()));
    let bun = ProjectFileSystem::new("/w/app").init_project("bun", "web", "app");
    assert!(paths(&bun.entries).contains(&"/w/app/package.json".to_string()));
    let bad = ProjectFileSystem::new("/w/x").init_project("rust", "weird", "x");
    assert!(!paths(&bad.entries).contains(&"/w/x/byte.toml".to_string()));
}
