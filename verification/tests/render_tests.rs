use byte::forms::Form;
use byte::fs::LogFile;
use byte::state::build_status::{finished_build, BuildState, BuildStatus};
use byte::state::git::parse_git_status;
use byte::tui::render::{
    active_tab, build_state_lines, elapsed_text, form_lines, git_status_lines, log_window, project_count_label,
    recent_logs_lines, scanner, scroll_indicator, status_is_error, visible_matches, StyledSpan, Tone,
};
use byte::tui::View;

fn text(line: &[StyledSpan]) -> String {
    line.iter().map(|s| s.text.as_str()).collect()
}

#[test]
fn git_lines() {
    let g = parse_git_status("## main...o/main [ahead 2]\nM  a\n?? b\n");
    let lines = git_status_lines(&g);
    assert_eq!(lines.len(), 3);
    assert_eq!(text(&lines[0]), "Branch: main ● Modified");
    assert_eq!(lines[0][1].tone, Tone::Error);
    assert!(lines[0][1].bold);
    assert_eq!(text(&lines[1]), "  1 staged, 1 untracked");
    assert_eq!(text(&lines[2]), "  ↑2");
    assert_eq!(lines[2][0].tone, Tone::Accent);
    let clean = parse_git_status("## HEAD (no branch)\n");
    let lines = git_status_lines(&clean);
    assert_eq!(lines.len(), 1);
    assert_eq!(text(&lines[0]), "Branch: (detached HEAD) ✓ Clean");
    let none = byte::state::git::GitStatus::not_a_repo();
    assert_eq!(text(&git_status_lines(&none)[0]), "Not a git repository");
}

#[test]
fn build_lines() {
    let b = finished_build("release".to_string(), true, 1_000_000);
    let lines = build_state_lines(&b, 1_000_000 + 7200 + 5);
    assert_eq!(text(&lines[0]), "Build: release  ✓ Success");
    assert_eq!(text(&lines[1]), "  Last build: 2 hours ago");
    let r = BuildState { timestamp: 1_000_000, status: BuildStatus::Running, task: "t".to_string() };
    assert_eq!(text(&build_state_lines(&r, 1_000_030)[1]), "  Last build: just now");
    assert_eq!(text(&build_state_lines(&r, 1_000_000 + 3 * 86400)[1]), "  Last build: 3 days ago");
    assert_eq!(text(&build_state_lines(&r, 1_000_000 + 125)[1]), "  Last build: 2 minutes ago");
}

#[test]
fn log_lines() {
    let logs = vec![
        LogFile { path: "/a".into(), category: "lint".into(), timestamp: 100_000_000_000, filename: "a.log".into() },
        LogFile { path: "/b".into(), category: "misc".into(), timestamp: -1, filename: "b.log".into() },
    ];
    let lines = recent_logs_lines(&logs, 1, 100 + 3600 * 5);
    assert_eq!(text(&lines[0]), "Recent Logs");
    assert_eq!(text(&lines[1]), "  [lint] a.log  5h ago");
    assert_eq!(lines[1][2].tone, Tone::Purple);
    assert_eq!(text(&lines[2]), "> [misc] b.log  unknown");
    assert!(lines[2][4].bold);
    assert_eq!(text(&lines[3]), "");
    assert_eq!(text(&lines[4]), "  Use ↑↓ to navigate, l to preview, o to open in editor");
    let empty = recent_logs_lines(&Vec::new(), 0, 0);
    assert_eq!(empty.len(), 2);
    assert_eq!(text(&empty[1]), "  No logs available");
}

#[test]
fn form_rendering() {
    let mut form = Form::new("T")
        .text_input("a", "Name", "your name")
        .number("n", "Count", 3, Some(1), Some(5))
        .select("s", "Pick", vec!["x".to_string(), "y".to_string()])
        .text_area("m", "Notes", "", 1);
    form.next_field();
    let lines = form_lines(&form);
    assert_eq!(text(&lines[0]), "    Name");
    assert_eq!(text(&lines[1]), "     your name");
    assert_eq!(lines[1][1].tone, Tone::Secondary);
    assert_eq!(text(&lines[2]), "");
    assert_eq!(text(&lines[3]), "  ▶ Count");
    assert_eq!(text(&lines[4]), "     3 (range: 1-5)█");
    assert!(lines[4][1].underlined);
    assert_eq!(text(&lines[6]), "    Pick");
    assert_eq!(text(&lines[7]), "     ● x");
    assert_eq!(lines[7][1].tone, Tone::Success);
    assert_eq!(text(&lines[8]), "     ○ y");
    assert_eq!(text(&lines[10]), "    Notes");
    let last = lines.last().unwrap();
    assert_eq!(text(last), "  Tab/Shift+Tab navigate  ↑↓ select  Space toggle  Enter submit  Esc cancel");
}

#[test]
fn small_layout_rules() {
    assert_eq!(project_count_label(1), "1 project");
    assert_eq!(project_count_label(0), "0 projects");
    assert_eq!(visible_matches(3, 20), (0, 8));
    assert_eq!(visible_matches(10, 20), (3, 11));
    assert_eq!(visible_matches(19, 20), (12, 20));
    assert_eq!(visible_matches(0, 3), (0, 3));
    assert_eq!(scroll_indicator(3, 11, 20), Some("  ↑ 3 more above  •  ↓ 9 more below".to_string()));
    assert_eq!(scroll_indicator(0, 8, 20), Some("  ↓ 12 more below".to_string()));
    assert_eq!(scroll_indicator(0, 5, 5), None);
    assert_eq!(scanner(0, 28), (0, 8, 20));
    assert_eq!(scanner(50, 28), (25, 3, 0));
    assert_eq!(elapsed_text(999), "999ms");
    assert_eq!(elapsed_text(2500), "2s");
    assert!(status_is_error("✗ Error: nope"));
    assert!(!status_is_error("fine"));
    assert_eq!(active_tab(View::Detail), Some(2));
    assert_eq!(active_tab(View::Form), None);
}

#[test]
fn log_preview_window() {
    assert_eq!(log_window(0, 100, 24), (0, 20));
    assert_eq!(log_window(95, 100, 24), (95, 100));
    assert_eq!(log_window(500, 100, 24), (99, 100));
    assert_eq!(log_window(0, 0, 24), (0, 0));
    assert_eq!(log_window(3, 10, 2), (3, 3));
}

#[test]
fn build_times_are_shown_within_chronos_range() {
    let at = |t: i64| BuildState { task: "build".to_string(), status: BuildStatus::Success, timestamp: t };
    assert_eq!(build_state_lines(&at(8210266876799), 8210266876799).len(), 2);
    assert_eq!(build_state_lines(&at(8210266876800), 8210266876800).len(), 1);
    assert_eq!(build_state_lines(&at(-8334601228800), -8334601228800).len(), 2);
    assert_eq!(build_state_lines(&at(-8334601228801), -8334601228801).len(), 1);
}
