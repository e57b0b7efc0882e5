use byte::exec::choose_editor;
use byte::exec::{CommandBuilder, CommandError};

#[test]
fn test_command_validation_allows_whitelisted() {
    let cmd = CommandBuilder::new("cargo").arg("build");
    assert!(cmd.validate().is_ok());
}

#[test]
fn test_command_validation_blocks_unlisted() {
    let cmd = CommandBuilder::new("rm").arg("-rf").arg("/");
    assert!(cmd.validate().is_err());
}

#[test]
fn test_shell_validation_allows_chaining() {
    let cmd = CommandBuilder::shell("cargo build && cargo test");
    assert!(cmd.validate().is_ok());
}

#[test]
fn test_shell_validation_allows_pipes() {
    let cmd = CommandBuilder::shell("cargo build | grep error");
    assert!(cmd.validate().is_ok());
}

#[test]
fn test_interactive_execution_allows_whitelisted_editor() {
    let cmd = CommandBuilder::new("vim").arg("/tmp/test.txt");
    assert!(cmd.validate().is_ok());
}

#[test]
fn test_interactive_execution_blocks_non_whitelisted_editor() {
    let cmd = CommandBuilder::new("unknown-editor").arg("/tmp/test.txt");
    assert!(cmd.validate().is_err());
}

#[test]
fn test_interactive_with_working_dir() {
    let cmd = CommandBuilder::new("nano")
        .arg("file.txt")
        .working_dir("/tmp");
    assert!(cmd.validate().is_ok());
}

#[test]
fn test_all_editors_whitelisted() {
    let editors = ["vim", "nano", "vi", "emacs"];
    for editor in &editors {
        let cmd = CommandBuilder::new(*editor).arg("test.txt");
        assert!(cmd.validate().is_ok(), "Editor '{}' should be whitelisted", editor);
    }
}

#[test]
fn builder_records_arguments_and_directory() {
    let cmd = CommandBuilder::git("status")
        .arg("--porcelain=v1")
        .working_dir("/tmp/project")
        .log_as("git");
    assert_eq!(cmd.command(), "git");
    let args: Vec<&str> = cmd.args().iter().map(|s| s.as_str()).collect();
    assert_eq!(args, vec!["status", "--porcelain=v1"]);
    assert_eq!(cmd.get_working_dir(), Some("/tmp/project"));
    assert_eq!(cmd.log_category(), Some("git"));
}

#[test]
fn shell_builder_runs_through_sh() {
    let cmd = CommandBuilder::shell("echo hi");
    assert_eq!(cmd.command(), "sh");
    let args: Vec<&str> = cmd.args().iter().map(|s| s.as_str()).collect();
    assert_eq!(args, vec!["-c", "echo hi"]);
    assert_eq!(cmd.get_working_dir(), None);
}

#[test]
fn near_miss_names_are_refused() {
    assert_eq!(CommandBuilder::new("Cargo").validate(), Err(CommandError::NotWhitelisted));
    assert_eq!(CommandBuilder::new("git ").validate(), Err(CommandError::NotWhitelisted));
    assert_eq!(CommandBuilder::new("").validate(), Err(CommandError::NotWhitelisted));
    assert!(CommandBuilder::new("python3").validate().is_ok());
    assert!(CommandBuilder::new("bash").validate().is_ok());
}

#[test]
fn editor_choice_order() {
    assert_eq!(choose_editor(Some("hx"), Some("code"), &vec![]), "hx");
    assert_eq!(choose_editor(None, Some("code"), &vec![true]), "code");
    assert_eq!(choose_editor(None, None, &vec![false, true]), "nano");
    assert_eq!(choose_editor(None, None, &vec![false, false, false, false]), "vi");
    assert_eq!(choose_editor(None, None, &vec![]), "vi");
    assert_eq!(choose_editor(None, None, &vec![false, false, false, true]), "emacs");
}
