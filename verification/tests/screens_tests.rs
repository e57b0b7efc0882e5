use byte::tui::render::{StyledSpan, Tone};
use byte::tui::screens::{
    adding_lines, clip, columns, command_item, detail_foot, detail_head, filter_tabs, footer_lines,
    log_preview_head, manager_keys, pad, palette_footer, progress_lines, project_item, result_lines, tab_bar,
    tail, title_lines, workspace_item,
};
use byte::tui::{Command, CommandFilter, Project, WorkspaceDir};

fn texts(line: &[StyledSpan]) -> Vec<String> {
    line.iter().map(|s| s.text.clone()).collect()
}

#[test]
fn paths_are_cut_from_the_start() {
    assert_eq!(tail("/home/user/projects", 8), "…rojects");
    assert_eq!(tail("/home/user/projects", 19), "/home/user/projects");
    assert_eq!(tail("/home", 1), "…");
    assert_eq!(tail("", 0), "");
    assert_eq!(clip("abcdef", 4, 4), "…cdef");
    assert_eq!(clip("abcd", 4, 4), "abcd");
    assert_eq!(clip("abc", 0, 0), "…");
}

#[test]
fn names_are_padded_to_their_column() {
    assert_eq!(pad("ab", 5), "ab   ");
    assert_eq!(pad("abcdef", 3), "abcdef");
    assert_eq!(columns(104, 60), (60, 40));
    assert_eq!(columns(104, 65), (65, 35));
    assert_eq!(columns(3, 60), (0, 0));
}

#[test]
fn list_titles_count_their_entries() {
    let t = title_lines("Projects", 12);
    assert_eq!(texts(&t[0]), vec!["Projects", "  ", "12"]);
    assert!(t[0][0].bold);
    assert!(t[1].is_empty());
}

#[test]
fn project_entries() {
    let p = Project {
        name: "api".to_string(),
        description: "The API".to_string(),
        drivers: vec!["rust".to_string(), "go".to_string()],
        path: "/w/api".to_string(),
    };
    let item = project_item(&p, true, 6, "/home/me/work", 6);
    assert_eq!(item.len(), 4);
    assert_eq!(texts(&item[0]), vec!["  ", "api   ", "…/work"]);
    assert_eq!(item[0][1].tone, Tone::Accent);
    assert!(item[0][1].bold);
    assert_eq!(texts(&item[1]), vec!["  ", "The API"]);
    assert_eq!(texts(&item[2]), vec!["  ", "#rust #go"]);
    let plain = project_item(&p, false, 2, "/w", 10);
    assert_eq!(texts(&plain[0]), vec!["  ", "api", "/w"]);
    assert_eq!(plain[0][1].tone, Tone::Primary);
}

#[test]
fn command_entries_and_tabs() {
    let c = Command { name: "build".to_string(), description: "Build it".to_string(), command: "cargo build".to_string() };
    let item = command_item(&c, false, 8, "/w/api", 4);
    assert_eq!(texts(&item[0]), vec!["  ", "build   ", "…api"]);
    assert_eq!(texts(&item[1]), vec!["  ", "Build it"]);
    assert!(item[2].is_empty());

    let tabs = filter_tabs(CommandFilter::Git);
    assert_eq!(tabs.len(), 24);
    assert_eq!(texts(&tabs[12..16]), vec!["[", "Git", "]", " "]);
    assert_eq!(tabs[13].tone, Tone::Accent);
    assert!(tabs[13].bold);
    assert_eq!(tabs[1].tone, Tone::Secondary);
    assert!(!tabs[1].bold);
}

#[test]
fn palette_footer_modes() {
    let editing = palette_footer(true, "/w", "make", Some("cargo build"));
    assert_eq!(editing.len(), 5);
    assert_eq!(texts(&editing[1]), vec!["  ", "Working dir: /w"]);
    assert_eq!(texts(&editing[2]), vec!["  ", "$ ", "make", "_"]);
    let preview = palette_footer(false, "/w", "", Some("cargo build"));
    assert_eq!(preview.len(), 6);
    assert_eq!(texts(&preview[3]), vec!["  ", "$ ", "cargo build"]);
    assert!(palette_footer(false, "/w", "", None).is_empty());
}

#[test]
fn workspace_manager_lines() {
    let w = WorkspaceDir { path: "/home/me/code".to_string(), is_primary: true, project_count: 1 };
    let item = workspace_item(&w, false, 40);
    assert_eq!(texts(&item[0]), vec!["  ", "/home/me/code", "  ", "1 project", "  ", "[primary]"]);
    let other = WorkspaceDir { path: "/x".to_string(), is_primary: false, project_count: 3 };
    assert_eq!(texts(&workspace_item(&other, true, 40)[0]), vec!["  ", "/x", "  ", "3 projects"]);
    assert_eq!(texts(&manager_keys()[1])[1], "a");

    let none: Vec<String> = vec![];
    let plain = adding_lines("~/pro", 10, &none, 0, false, 20);
    assert_eq!(plain.len(), 3);
    assert_eq!(texts(&plain[1]), vec!["  ", "Enter directory path: ", "~/pro", "_"]);
    let long = adding_lines("abcdefgh", 3, &none, 0, false, 20);
    assert_eq!(texts(&long[1])[2], "…fgh");

    let paths: Vec<String> = (0..10).map(|i| format!("/p/{}", i)).collect();
    let shown = adding_lines("", 10, &paths, 9, true, 20);
    // blank, input, blank, rule, eight candidates, note, rule, keys
    assert_eq!(shown.len(), 15);
    assert_eq!(texts(&shown[4]), vec!["    ", "/p/2"]);
    assert_eq!(texts(&shown[11]), vec!["  ", "▸ /p/9"]);
    assert_eq!(shown[11][1].tone, Tone::Badge);
    assert_eq!(texts(&shown[12])[1], "  ↑ 2 more above");
}

#[test]
fn tab_bar_and_footer() {
    let bar = tab_bar(Some(1), Some("api"), 80);
    let all: String = bar.iter().map(|s| s.text.as_str()).collect();
    assert!(all.starts_with("  1 Projects  2 Commands  3 Details  4 Workspace"));
    assert_eq!(bar[5].text, "2");
    assert_eq!(bar[5].tone, Tone::Badge);
    // 48 for the tabs, 12 for the label, 2 after it: 18 spaces between.
    assert_eq!(bar[bar.len() - 3].text, " ".repeat(18));
    assert_eq!(bar[bar.len() - 2].text, "Project: api");
    assert_eq!(all.chars().count(), 80);
    let narrow = tab_bar(None, Some("api"), 64);
    assert_eq!(narrow.len(), 16);
    assert_eq!(tab_bar(Some(0), None, 200).len(), 16);

    let f = footer_lines("Error: boom");
    assert_eq!(f[1][1].tone, Tone::Error);
    assert_eq!(footer_lines("ok")[1][1].tone, Tone::Secondary);
    assert_eq!(texts(&f[1])[5..7].to_vec(), vec!["?", " help"]);
}

#[test]
fn detail_and_preview_heads() {
    let p = Project {
        name: "api".to_string(),
        description: "The API".to_string(),
        drivers: vec![],
        path: "/w/api".to_string(),
    };
    let head = detail_head(&p, 5);
    assert_eq!(texts(&head[0]), vec!["api  ", "PATH: /w/api"]);
    assert_eq!(texts(&head[2]), vec!["The API"]);
    assert_eq!(head.len(), 4);
    let foot = detail_foot();
    assert_eq!(foot[0][0].text.chars().count(), 40);
    assert_eq!(texts(&foot[2]), vec!["Press ", "1", " to return to projects"]);
    let preview = log_preview_head("x.log", 4, 120, "/w/api");
    assert_eq!(texts(&preview[0]), vec!["x.log", "  ", "(5/120)"]);
    assert_eq!(texts(&preview[1]), vec!["PATH: /w/api"]);
    assert_eq!(texts(&log_preview_head("x.log", 0, 0, "/p")[0])[2], "(1/0)");
}

#[test]
fn progress_and_result_panels() {
    let running = progress_lines(10, Some(2500));
    assert_eq!(texts(&running[0]), vec![" Running ", "2s"]);
    let bar = texts(&running[1]);
    assert_eq!(bar[1].chars().count(), 5);
    assert_eq!(bar[2].chars().count(), 8);
    assert_eq!(bar[3].chars().count(), 15);
    assert_eq!(running[1][2].tone, Tone::Bright);
    assert_eq!(texts(&progress_lines(0, None)[0])[1], "0ms");
    let ok = result_lines(true);
    assert_eq!(ok[0][0].text, " ✓ SUCCESS");
    assert_eq!(ok[0][0].tone, Tone::Success);
    assert_eq!(ok[1][0].text.chars().count(), 29);
    assert_eq!(result_lines(false)[0][0].text, " ✗ FAILED");
}
