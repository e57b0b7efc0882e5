use byte::state::build_status::{finished_build, running_build, BuildStatus};
use byte::state::get_project_state;
use byte::state::git::{get_git_status, parse_git_status, status_output_is_parsable, GitStatus};

#[test]
fn porcelain_output_is_counted() {
    let out = "## main...origin/main [ahead 2, behind 1]\n M src/lib.rs\nA  new.rs\nMM both.rs\n?? x.txt\n";
    assert!(status_output_is_parsable(out));
    let g = parse_git_status(out);
    assert!(g.is_repo);
    assert_eq!(g.branch.as_deref(), Some("main"));
    assert_eq!(g.ahead, 2);
    assert_eq!(g.behind, 1);
    assert_eq!(g.staged, 2);
    assert_eq!(g.modified, 2);
    assert_eq!(g.untracked, 1);
    assert!(!g.is_clean);
}

#[test]
fn clean_and_special_branches() {
    let g = parse_git_status("## No commits yet on trunk\n");
    assert_eq!(g.branch.as_deref(), Some("trunk"));
    assert!(g.is_clean);
    let g = parse_git_status("## HEAD (no branch)\n");
    assert_eq!(g.branch, None);
    let g = parse_git_status("## feature...origin/feature [behind 3]\r\n");
    assert_eq!(g.branch.as_deref(), Some("feature"));
    assert_eq!(g.behind, 3);
    assert_eq!(g.ahead, 0);
}

#[test]
fn output_that_would_break_the_branch_parse_is_caught() {
    assert!(!status_output_is_parsable("## main...origin/main ]x[\n"));
    assert!(status_output_is_parsable("## main\n"));
}

#[test]
fn status_without_repository_or_git() {
    let g = get_git_status(false, Some("## main\n M a\n"));
    assert!(!g.is_repo);
    assert!(g.is_clean);
    let g = get_git_status(true, None);
    assert!(g.is_repo);
    assert!(g.is_clean);
    assert_eq!(g.branch, None);
    let n = GitStatus::not_a_repo();
    assert!(!n.is_repo);
}

#[test]
fn project_state_combines_git_and_build() {
    let st = get_project_state(true, Some("## dev\n?? new\n"), Some(running_build("release".to_string(), 9)));
    assert_eq!(st.git.untracked, 1);
    let b = st.build.unwrap();
    assert_eq!(b.status, BuildStatus::Running);
    assert_eq!(b.task, "release");
    let f = finished_build("debug".to_string(), false, 3);
    assert_eq!(f.status, BuildStatus::Failed);
    assert_eq!(f.timestamp, 3);
}
