use byte::projects::{validate_project_name, ProjectNameError};

#[test]
fn test_valid_project_names() {
    assert!(validate_project_name("my-project").is_ok());
    assert!(validate_project_name("MyProject").is_ok());
    assert!(validate_project_name("my_project").is_ok());
    assert!(validate_project_name("project123").is_ok());
    assert!(validate_project_name("app.v2").is_ok());
    assert!(validate_project_name("my-app.2024").is_ok());
    assert!(validate_project_name("My_Cool-Project.v1").is_ok());
}

#[test]
fn test_path_traversal_rejected() {
    assert!(validate_project_name("../../etc/passwd").is_err());
    assert!(validate_project_name("../parent").is_err());
    assert!(validate_project_name("sub/dir").is_err());
    assert!(validate_project_name("..").is_err());
    assert!(validate_project_name(".").is_err());
    assert!(validate_project_name("path\\to\\project").is_err());
}

#[test]
fn test_reserved_names_rejected() {
    assert!(validate_project_name("target").is_err());
    assert!(validate_project_name("node_modules").is_err());
    assert!(validate_project_name("dist").is_err());
    assert!(validate_project_name("build").is_err());
    assert!(validate_project_name(".vscode").is_err());
    assert!(validate_project_name(".idea").is_err());
    assert!(validate_project_name(".git").is_err());
    assert!(validate_project_name(".byte").is_err());
    assert!(validate_project_name("CON").is_err());
    assert!(validate_project_name("con").is_err());
    assert!(validate_project_name("PRN").is_err());
    assert!(validate_project_name("AUX").is_err());
    assert!(validate_project_name("NUL").is_err());
    assert!(validate_project_name("COM1").is_err());
    assert!(validate_project_name("LPT1").is_err());
}

#[test]
fn test_invalid_characters_rejected() {
    assert!(validate_project_name("my project").is_err());
    assert!(validate_project_name("my@project").is_err());
    assert!(validate_project_name("my$project").is_err());
    assert!(validate_project_name("my#project").is_err());
    assert!(validate_project_name("my!project").is_err());
    assert!(validate_project_name("my*project").is_err());
    assert!(validate_project_name("my&project").is_err());
    assert!(validate_project_name("project<script>").is_err());
}

#[test]
fn test_starting_characters_rejected() {
    assert!(validate_project_name(".hidden").is_err());
    assert!(validate_project_name("-dash").is_err());
    assert!(validate_project_name("..relative").is_err());
}

#[test]
fn test_ending_characters_rejected() {
    assert!(validate_project_name("project.").is_err());
}

#[test]
fn test_empty_and_whitespace_rejected() {
    assert!(validate_project_name("").is_err());
    assert!(validate_project_name("   ").is_err());
    assert!(validate_project_name("\t").is_err());
    assert!(validate_project_name("\n").is_err());
}

#[test]
fn test_length_limits() {
    let name_254 = "a".repeat(254);
    assert!(validate_project_name(&name_254).is_ok());
    let name_255 = "a".repeat(255);
    assert!(validate_project_name(&name_255).is_ok());
    let name_256 = "a".repeat(256);
    assert!(validate_project_name(&name_256).is_err());
}

#[test]
fn test_null_bytes_rejected() {
    assert!(validate_project_name("project\0name").is_err());
}

#[test]
fn each_refusal_names_its_reason() {
    assert_eq!(validate_project_name(" \u{3000} "), Err(ProjectNameError::Empty));
    assert_eq!(validate_project_name("a/b"), Err(ProjectNameError::PathSeparator));
    assert_eq!(validate_project_name("Node_Modules"), Err(ProjectNameError::Reserved));
    assert_eq!(validate_project_name("com9"), Err(ProjectNameError::Reserved));
    assert_eq!(validate_project_name("com0"), Ok(()));
    assert_eq!(validate_project_name("my project"), Err(ProjectNameError::InvalidCharacter));
    assert_eq!(validate_project_name(".hidden"), Err(ProjectNameError::LeadingDot));
    assert_eq!(validate_project_name("-dash"), Err(ProjectNameError::LeadingHyphen));
    assert_eq!(validate_project_name("project."), Err(ProjectNameError::TrailingDot));
}

#[test]
fn length_counts_bytes_not_characters() {
    // 128 two-byte characters: 256 bytes, refused for length before the character check.
    let wide = "é".repeat(128);
    assert_eq!(validate_project_name(&wide), Err(ProjectNameError::TooLong));
    // 127 of them fit in 255 bytes and fail the character check instead.
    let fits = "é".repeat(127);
    assert_eq!(validate_project_name(&fits), Err(ProjectNameError::InvalidCharacter));
}

#[test]
fn name_refusals_read_as_messages() {
    assert_eq!(
        byte::projects::ProjectNameError::Reserved.message("CON"),
        "Project name 'CON' is reserved and cannot be used"
    );
    assert_eq!(
        byte::projects::ProjectNameError::TooLong.message(&"a".repeat(300)),
        "Project name too long (300 characters). Maximum is 255."
    );
    assert_eq!(byte::projects::ProjectNameError::TrailingDot.message("a."), "Project name cannot end with '.'");
    assert_eq!(
        byte::fs::FsError::UnsupportedGoType { project_type: "x".to_string() }.message(),
        "Unsupported Go project type: x"
    );
    assert!(byte::exec::CommandError::NotWhitelisted
        .message("rm")
        .starts_with("Command 'rm' not in whitelist. Allowed: [\"cargo\", \"rustc\""));
}
