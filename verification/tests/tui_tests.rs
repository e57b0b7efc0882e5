use byte::config::{GlobalConfig, ProjectConfig, ProjectMeta};
use byte::fs::LogFile;
use byte::projects::DiscoveredProject;
use byte::tui::app::{Action, AppState};
use byte::tui::commands::{
    categorize_command, extract_task_name, filter_commands, init_commands, is_build_command,
    job_for, project_commands, Job,
};
use byte::tui::fuzzy::{
    common_directories, dedup_sorted, fuzzy_candidates, fuzzy_match, home_suggestions, picker_candidates,
    sort_names,
};
use byte::tui::workspaces::change_needs_reload;
use byte::tui::{CommandFilter, CommandResult, InputMode, Key, Project, View, WorkspaceDir};

fn s(x: &str) -> String {
    x.to_string()
}

fn no_logs() -> Vec<LogFile> {
    Vec::new()
}

fn project(name: &str, path: &str) -> Project {
    Project { name: s(name), description: s("d"), drivers: vec![s("rust")], path: s(path) }
}

fn discovered(name: &str, path: &str, description: Option<&str>) -> DiscoveredProject {
    DiscoveredProject {
        path: s(path),
        config: ProjectConfig {
            project: ProjectMeta {
                name: s(name),
                project_type: s("cli"),
                ecosystem: s("rust"),
                description: description.map(|d| d.to_string()),
            },
        },
    }
}

#[test]
fn filter_tabs_cycle_both_ways() {
    let all = CommandFilter::all_filters();
    assert_eq!(all.len(), 6);
    for f in &all {
        assert_eq!(f.next().prev(), *f);
        assert_eq!(f.prev().next(), *f);
        let mut g = *f;
        for _ in 0..6 {
            g = g.next();
        }
        assert_eq!(g, *f);
    }
    assert_eq!(CommandFilter::Other.next(), CommandFilter::All);
    assert_eq!(CommandFilter::All.prev(), CommandFilter::Other);
    assert_eq!(CommandFilter::Lint.as_str(), "Lint");
}

#[test]
fn commands_fall_under_their_tabs() {
    assert_eq!(categorize_command("cargo build --release"), CommandFilter::Build);
    assert_eq!(categorize_command("cargo test"), CommandFilter::Test);
    assert_eq!(categorize_command("CARGO TEST"), CommandFilter::Test);
    assert_eq!(categorize_command("cargo clippy"), CommandFilter::Lint);
    assert_eq!(categorize_command("cargo fmt --check"), CommandFilter::Lint);
    assert_eq!(categorize_command("git status"), CommandFilter::Git);
    assert_eq!(categorize_command("  git diff"), CommandFilter::Git);
    assert_eq!(categorize_command("cd web && npm run lint"), CommandFilter::Lint);
    assert_eq!(categorize_command("cd web && git pull"), CommandFilter::Git);
    assert_eq!(categorize_command("npm run dev"), CommandFilter::Build);
    assert_eq!(categorize_command("echo hello"), CommandFilter::Other);
    // test wins over build
    assert_eq!(categorize_command("cargo build && cargo test"), CommandFilter::Test);
}

#[test]
fn filtering_keeps_order() {
    let build = vec![(s("dev"), s("cargo run")), (s("release"), s("cargo build --release"))];
    let custom = vec![(s("tests"), s("cargo test"))];
    let cmds = project_commands(&build, &custom);
    assert_eq!(cmds.len(), 5);
    assert_eq!(cmds[0].name, "build: dev");
    assert_eq!(cmds[0].description, "Run build task: dev");
    assert_eq!(cmds[2].name, "tests");
    assert_eq!(cmds[2].description, "Run: tests");
    assert_eq!(cmds[3].command, "git status");
    assert_eq!(cmds[4].description, "Show uncommitted changes");
    let builds = filter_commands(cmds.clone(), CommandFilter::Build);
    assert_eq!(builds.len(), 2);
    assert_eq!(builds[0].command, "cargo run");
    let gits = filter_commands(cmds.clone(), CommandFilter::Git);
    assert_eq!(gits.len(), 2);
    let all = filter_commands(cmds, CommandFilter::All);
    assert_eq!(all.len(), 5);
}

#[test]
fn build_tasks_are_recognised() {
    let build = vec![(s("release"), s("cargo build --release"))];
    let cmds = project_commands(&build, &Vec::new());
    assert!(is_build_command(&cmds, "cargo build --release"));
    assert_eq!(extract_task_name(&cmds, "cargo build --release"), Some(s("release")));
    assert!(!is_build_command(&cmds, "git status"));
    assert_eq!(extract_task_name(&cmds, "cargo run"), None);
}

#[test]
fn init_commands_create_projects() {
    let cmds = init_commands();
    assert_eq!(cmds.len(), 3);
    assert_eq!(cmds[0].command, "byte init go cli my-project");
    assert_eq!(cmds[2].name, "init rust cli <name>");
}

#[test]
fn jobs_of_command_lines() {
    match job_for("byte init rust cli tool") {
        Job::Init { ecosystem, project_type, name } => {
            assert_eq!(ecosystem, "rust");
            assert_eq!(project_type, "cli");
            assert_eq!(name, "tool");
        }
        Job::Shell => panic!("expected an init job"),
    }
    match job_for("  byte   init go   cli ") {
        Job::Init { name, .. } => assert_eq!(name, "my-project"),
        Job::Shell => panic!("expected an init job"),
    }
    assert!(matches!(job_for("byte init rust"), Job::Shell));
    assert!(matches!(job_for("cargo build"), Job::Shell));
}

#[test]
fn fuzzy_matching_keeps_order() {
    assert!(fuzzy_match("documents", "dcm"));
    assert!(fuzzy_match("documents", ""));
    assert!(fuzzy_match("abc", "abc"));
    assert!(!fuzzy_match("abc", "acb"));
    assert!(!fuzzy_match("ab", "abc"));
    assert!(!fuzzy_match("", "a"));
}

#[test]
fn names_sort_as_strings_do() {
    let v = sort_names(vec![s("b"), s("a"), s("ab"), s("B"), s("a")]);
    assert_eq!(v, vec![s("B"), s("a"), s("a"), s("ab"), s("b")]);
}

#[test]
fn candidates_are_filtered_written_and_sorted() {
    let names = vec![s("Music"), s("Documents"), s("Downloads"), s("projects")];
    let c = fuzzy_candidates("/home/u", "do", &names, Some("/home/u"));
    assert_eq!(c, vec![s("~/Documents"), s("~/Downloads")]);
    let c = fuzzy_candidates(".", "", &names, None);
    assert_eq!(c, vec![s("Documents"), s("Downloads"), s("Music"), s("projects")]);
    let c = fuzzy_candidates("/srv", "pj", &names, Some("/home/u"));
    assert_eq!(c, vec![s("/srv/projects")]);
    let h = home_suggestions(&vec![s("Desktop"), s("projects")]);
    assert_eq!(h, vec![s("~"), s("~/Desktop"), s("~/projects")]);
}

#[test]
fn starting_state() {
    let st = AppState::default();
    assert!(!st.should_quit);
    assert_eq!(st.current_view, View::ProjectBrowser);
    assert_eq!(st.status_message, "Welcome to Byte!");
    assert_eq!(st.commands.len(), 3);
    assert_eq!(st.get_target_workspace(), "~/projects");
}

#[test]
fn start_reports_what_was_found() {
    let g = GlobalConfig::default();
    let found = vec![discovered("alpha", "/w/alpha", None), discovered("beta", "/w/beta", Some("B"))];
    let st = AppState::start(Some(&g), &found);
    assert_eq!(st.status_message, "Discovered 2 projects");
    assert_eq!(st.projects[0].description, "cli project");
    assert_eq!(st.projects[1].description, "B");
    assert_eq!(st.projects[0].drivers, vec![s("rust")]);
    assert_eq!(st.workspace_directories.len(), 1);
    assert!(st.workspace_directories[0].is_primary);
    let st = AppState::start(Some(&g), &Vec::new());
    assert_eq!(st.status_message, "No projects found. Use 'byte init' to create one.");
    let st = AppState::start(None, &found);
    assert_eq!(st.status_message, "Welcome to Byte!");
    assert!(st.projects.is_empty());
}

#[test]
fn reload_counts_projects_per_workspace() {
    let mut g = GlobalConfig::default();
    g.workspace.path = s("/work/");
    g.workspace.registered = vec![s("/Other")];
    let found = vec![
        discovered("a", "/work/a", None),
        discovered("b", "/other/b/", None),
        discovered("c", "/work/c", None),
    ];
    let mut st = AppState::default();
    st.selected_project = 7;
    st.selected_workspace = 5;
    st.reload(&g, &found);
    assert_eq!(st.projects.len(), 3);
    assert_eq!(st.selected_project, 2);
    assert_eq!(st.selected_workspace, 1);
    assert_eq!(st.workspace_directories[0].project_count, 2);
    assert_eq!(st.workspace_directories[1].path, "/Other");
    assert_eq!(st.workspace_directories[1].project_count, 1);
    assert_eq!(st.get_workspace_for_project("/work/a"), "/work/");
    assert_eq!(st.get_workspace_for_project("/elsewhere/x"), "/elsewhere/x");
}

#[test]
fn quit_keys() {
    let mut st = AppState::default();
    st.handle_key(Key::Char('x'), &no_logs());
    assert!(!st.should_quit);
    st.handle_key(Key::Char('Q'), &no_logs());
    assert!(st.should_quit);
}

#[test]
fn views_switch_on_digits() {
    let mut st = AppState::default();
    let a = st.handle_key(Key::Char('2'), &no_logs());
    assert!(matches!(a, Action::UpdateCommands));
    assert_eq!(st.current_view, View::CommandPalette);
    assert_eq!(st.status_message, "Viewing commands");
    st.handle_key(Key::Char('3'), &no_logs());
    assert_eq!(st.status_message, "Viewing details for: unknown");
    st.handle_key(Key::Char('4'), &no_logs());
    assert_eq!(st.current_view, View::WorkspaceManager);
    st.handle_key(Key::Char('1'), &no_logs());
    assert_eq!(st.current_view, View::ProjectBrowser);
    assert_eq!(st.status_message, "Viewing projects");
    st.handle_key(Key::Char('?'), &no_logs());
    assert_eq!(
        st.status_message,
        "Press 1-3 for views, ↑↓ to navigate, Enter to select, q to quit"
    );
    let a = st.handle_key(Key::Char('r'), &no_logs());
    assert!(matches!(a, Action::Reload));
    assert_eq!(st.status_message, "✓ Reloaded all state from disk");
}

#[test]
fn browsing_projects() {
    let mut st = AppState::default();
    st.projects = vec![project("one", "/p/one"), project("two", "/p/two")];
    st.handle_key(Key::Down, &no_logs());
    assert_eq!(st.selected_project, 1);
    assert_eq!(st.status_message, "Selected: two");
    st.handle_key(Key::Down, &no_logs());
    assert_eq!(st.selected_project, 1);
    st.handle_key(Key::Up, &no_logs());
    assert_eq!(st.selected_project, 0);
    assert_eq!(st.status_message, "Selected previous project");
    st.handle_key(Key::Enter, &no_logs());
    assert_eq!(st.current_view, View::Detail);
    assert_eq!(st.status_message, "Opening one...");
}

#[test]
fn editing_and_running_a_command() {
    let mut st = AppState::default();
    st.handle_key(Key::Char('2'), &no_logs());
    st.handle_key(Key::Down, &no_logs());
    assert_eq!(st.status_message, "Selected: init bun web <name>");
    st.handle_key(Key::Enter, &no_logs());
    assert_eq!(st.input_mode, InputMode::EditingCommand);
    assert_eq!(st.input_buffer, "byte init bun web my-app");
    assert_eq!(
        st.status_message,
        "Edit command (working dir: ~/projects) then press Enter to execute"
    );
    st.handle_key(Key::Backspace, &no_logs());
    st.handle_key(Key::Char('x'), &no_logs());
    assert_eq!(st.input_buffer, "byte init bun web my-apx");
    match st.handle_key(Key::Enter, &no_logs()) {
        Action::Execute(c) => assert_eq!(c, "byte init bun web my-apx"),
        other => panic!("unexpected {:?}", other),
    }
    assert_eq!(st.input_mode, InputMode::Normal);
    assert_eq!(st.input_buffer, "");
}

#[test]
fn escape_cancels_typing() {
    let mut st = AppState::default();
    st.handle_key(Key::Char('2'), &no_logs());
    st.handle_key(Key::Enter, &no_logs());
    st.handle_key(Key::Esc, &no_logs());
    assert_eq!(st.input_mode, InputMode::Normal);
    assert_eq!(st.input_buffer, "");
    assert_eq!(st.status_message, "Cancelled");
}

#[test]
fn filter_tabs_move_with_arrows() {
    let mut st = AppState::default();
    st.handle_key(Key::Left, &no_logs());
    assert_eq!(st.command_filter, CommandFilter::All);
    st.handle_key(Key::Char('2'), &no_logs());
    let a = st.handle_key(Key::Right, &no_logs());
    assert!(matches!(a, Action::UpdateCommands));
    assert_eq!(st.command_filter, CommandFilter::Build);
    assert_eq!(st.status_message, "Filter: Build");
    st.handle_key(Key::Left, &no_logs());
    st.handle_key(Key::Left, &no_logs());
    assert_eq!(st.command_filter, CommandFilter::Other);
}

#[test]
fn palette_reload_filters_and_keeps_selection() {
    let mut st = AppState::default();
    st.selected_command = 2;
    st.update_commands(Vec::new());
    assert_eq!(st.commands.len(), 3);
    assert_eq!(st.selected_command, 2);
    st.command_filter = CommandFilter::Git;
    st.update_commands(Vec::new());
    assert_eq!(st.commands.len(), 0);
    assert_eq!(st.selected_command, 2);
    st.projects = vec![project("p", "/p")];
    st.update_commands(project_commands(&Vec::new(), &Vec::new()));
    assert_eq!(st.commands.len(), 2);
    assert_eq!(st.selected_command, 0);
}

#[test]
fn workspace_manager_adds_a_directory() {
    let mut st = AppState::default();
    st.handle_key(Key::Char('4'), &no_logs());
    let a = st.handle_key(Key::Char('a'), &no_logs());
    assert!(matches!(a, Action::UpdateFuzzyMatches));
    assert_eq!(st.input_mode, InputMode::AddingDirectory);
    for c in " /srv/work// ".chars() {
        st.handle_key(Key::Char(c), &no_logs());
    }
    match st.handle_key(Key::Enter, &no_logs()) {
        Action::AddWorkspace(p) => assert_eq!(p, "/srv/work"),
        other => panic!("unexpected {:?}", other),
    }
    assert_eq!(st.input_mode, InputMode::Normal);
    st.workspace_change_done(&Action::AddWorkspace(s("/srv/work")), Ok(()));
    assert_eq!(st.status_message, "✓ Added /srv/work");
    st.workspace_change_done(&Action::RemoveWorkspace(s("/x")), Err(s("Path not found")));
    assert_eq!(st.status_message, "✗ Error: Path not found");
}

#[test]
fn primary_workspace_is_protected() {
    let mut st = AppState::default();
    st.workspace_directories = vec![
        WorkspaceDir { path: s("~/projects"), is_primary: true, project_count: 0 },
        WorkspaceDir { path: s("/srv"), is_primary: false, project_count: 0 },
    ];
    st.handle_key(Key::Char('4'), &no_logs());
    st.handle_key(Key::Char('d'), &no_logs());
    assert_eq!(st.status_message, "✗ Cannot remove primary workspace");
    st.handle_key(Key::Char('e'), &no_logs());
    assert_eq!(st.status_message, "✗ Cannot edit primary workspace (use config file)");
    st.handle_key(Key::Down, &no_logs());
    assert_eq!(st.selected_workspace, 1);
    match st.handle_key(Key::Char('d'), &no_logs()) {
        Action::RemoveWorkspace(p) => assert_eq!(p, "/srv"),
        other => panic!("unexpected {:?}", other),
    }
    st.handle_key(Key::Char('e'), &no_logs());
    assert_eq!(st.input_buffer, "/srv");
    assert_eq!(st.editing_workspace_index, Some(1));
    st.handle_key(Key::Char('2'), &no_logs());
    match st.handle_key(Key::Enter, &no_logs()) {
        Action::EditWorkspace(old, new) => {
            assert_eq!(old, "/srv");
            assert_eq!(new, "/srv2");
        }
        other => panic!("unexpected {:?}", other),
    }
}

#[test]
fn browsing_and_taking_a_match() {
    let mut st = AppState::default();
    st.handle_key(Key::Char('4'), &no_logs());
    st.handle_key(Key::Char('a'), &no_logs());
    st.set_fuzzy_matches(vec![s("~/Desktop"), s("~/projects/")]);
    st.handle_key(Key::Down, &no_logs());
    assert!(st.fuzzy_browsing);
    assert_eq!(st.fuzzy_selected, 1);
    st.handle_key(Key::Down, &no_logs());
    assert_eq!(st.fuzzy_selected, 1);
    st.handle_key(Key::Up, &no_logs());
    assert_eq!(st.fuzzy_selected, 0);
    let a = st.handle_key(Key::Tab, &no_logs());
    assert!(matches!(a, Action::UpdateFuzzyMatches));
    assert_eq!(st.input_buffer, "~/Desktop/");
    assert_eq!(st.status_message, "Selected: ~/Desktop/");
    match st.handle_key(Key::Tab, &no_logs()) {
        Action::CompletePath(p) => assert_eq!(p, "~/Desktop/"),
        other => panic!("unexpected {:?}", other),
    }
    st.set_fuzzy_matches(Vec::new());
    assert_eq!(st.fuzzy_selected, 0);
}

#[test]
fn completion_outcomes() {
    let mut st = AppState::default();
    st.input_buffer = s("/srv/co");
    let a = st.finish_completion("/srv", "co", None, None);
    assert!(matches!(a, Action::Nothing));
    assert_eq!(st.status_message, "Cannot read directory: /srv");
    st.finish_completion("/srv", "zz", Some(vec![s("code")]), None);
    assert_eq!(st.status_message, "No matching directories");
    let a = st.finish_completion("/home/u", "co", Some(vec![s("other"), s("code")]), Some("/home/u"));
    assert!(matches!(a, Action::UpdateFuzzyMatches));
    assert_eq!(st.input_buffer, "~/code/");
    assert_eq!(st.status_message, "Completed: ~/code");
    let names: Vec<String> = ["c1", "c2", "c3", "c4", "c5", "c6", "c7"].iter().map(|x| s(x)).collect();
    st.finish_completion("/srv", "c", Some(names), None);
    assert_eq!(st.status_message, "7 matches: c1, c2, c3 and 4 more");
    st.finish_completion("/srv", "c", Some(vec![s("cb"), s("ca")]), None);
    assert_eq!(st.status_message, "2 matches: ca, cb");
}

#[test]
fn details_view_logs() {
    let mut st = AppState::default();
    st.handle_key(Key::Char('3'), &no_logs());
    st.handle_key(Key::Char('l'), &no_logs());
    assert_eq!(st.status_message, "✗ No project selected");
    st.projects = vec![project("one", "/p/one")];
    st.handle_key(Key::Char('l'), &no_logs());
    assert_eq!(st.status_message, "✗ No logs available");
    let logs = vec![
        LogFile { path: s("/p/one/a.log"), category: s("build"), timestamp: 2, filename: s("a.log") },
        LogFile { path: s("/p/one/b.log"), category: s("git"), timestamp: 1, filename: s("b.log") },
    ];
    st.handle_key(Key::Down, &logs);
    assert_eq!(st.selected_log, 1);
    st.handle_key(Key::Down, &logs);
    assert_eq!(st.selected_log, 1);
    st.handle_key(Key::Char('l'), &logs);
    assert_eq!(st.viewing_log, Some((s("/p/one/b.log"), 0)));
    assert_eq!(st.status_message, "Viewing: b.log");
    st.handle_key(Key::PageDown, &logs);
    st.handle_key(Key::Down, &logs);
    assert_eq!(st.viewing_log, Some((s("/p/one/b.log"), 11)));
    st.handle_key(Key::PageUp, &logs);
    st.handle_key(Key::PageUp, &logs);
    assert_eq!(st.viewing_log, Some((s("/p/one/b.log"), 0)));
    match st.handle_key(Key::Char('o'), &logs) {
        Action::OpenInEditor(p) => assert_eq!(p, "/p/one/b.log"),
        other => panic!("unexpected {:?}", other),
    }
    st.handle_key(Key::Esc, &logs);
    assert_eq!(st.viewing_log, None);
    assert!(st.needs_clear);
    assert_eq!(st.status_message, "Closed log preview");
}

#[test]
fn tag_form_from_details() {
    let mut st = AppState::default();
    st.handle_key(Key::Char('3'), &no_logs());
    st.handle_key(Key::Char('t'), &no_logs());
    assert_eq!(st.current_view, View::Form);
    let form = st.active_form.as_ref().unwrap();
    assert_eq!(form.title, "Create Git Tag");
    assert_eq!(form.fields.len(), 4);
    for c in "v2".chars() {
        st.handle_key(Key::Char(c), &no_logs());
    }
    st.handle_key(Key::Tab, &no_logs());
    st.handle_key(Key::Tab, &no_logs());
    st.handle_key(Key::Char(' '), &no_logs());
    st.handle_key(Key::BackTab, &no_logs());
    let form = st.active_form.as_ref().unwrap();
    assert_eq!(form.current_field, 1);
    let values = form.values();
    assert_eq!(values[0].1.as_str(), Some("v2"));
    assert_eq!(values[2].1.as_bool(), Some(true));
    st.handle_key(Key::Enter, &no_logs());
    assert!(st.active_form.is_none());
    assert_eq!(st.current_view, View::ProjectBrowser);
    assert_eq!(st.status_message, "Form submitted");
}

#[test]
fn form_escape_cancels() {
    let mut st = AppState::default();
    st.handle_key(Key::Char('3'), &no_logs());
    st.handle_key(Key::Char('t'), &no_logs());
    st.handle_key(Key::Esc, &no_logs());
    assert!(st.active_form.is_none());
    assert_eq!(st.status_message, "Form cancelled");
}

#[test]
fn target_workspace_cycles() {
    let mut st = AppState::default();
    st.workspace_directories = vec![
        WorkspaceDir { path: s("~/projects"), is_primary: true, project_count: 0 },
        WorkspaceDir { path: s("/srv"), is_primary: false, project_count: 0 },
    ];
    st.handle_key(Key::Char('2'), &no_logs());
    st.handle_key(Key::Char('t'), &no_logs());
    assert_eq!(st.selected_target_workspace, 1);
    assert_eq!(st.status_message, "Target: /srv");
    st.cycle_target_workspace();
    assert_eq!(st.selected_target_workspace, 0);
    assert_eq!(st.status_message, "Target: ~/projects");
}

#[test]
fn planning_and_finishing_a_run() {
    let mut st = AppState::default();
    st.projects = vec![project("one", "/p/one")];
    st.commands = project_commands(&vec![(s("release"), s("cargo build --release"))], &Vec::new());
    let plan = st.plan_execution("cargo build --release");
    assert_eq!(plan.working_dir, "/p/one");
    assert!(plan.is_build_cmd);
    assert_eq!(plan.task_name, Some(s("release")));
    let plan = st.plan_execution("git status");
    assert!(!plan.is_build_cmd);
    let result = CommandResult {
        success: true,
        command: s("cargo build --release"),
        working_dir: s("/p/one"),
        is_build_cmd: true,
        task_name: Some(s("release")),
        stdout: s(""),
        stderr: s(""),
    };
    let f = st.finish_command(&result, 1000);
    assert!(f.reload);
    assert_eq!(st.status_message, "✓ cargo build --release");
    let b = f.save.unwrap();
    assert_eq!(b.task, "release");
    assert_eq!(b.timestamp, 1000);
    let failed = CommandResult { success: false, ..result };
    let f = st.finish_command(&failed, 5);
    assert!(!f.reload);
    assert_eq!(st.status_message, "✗ Command failed");
}

#[test]
fn planning_without_a_project_uses_the_target() {
    let st = AppState::default();
    let plan = st.plan_execution("ls");
    assert!(plan.working_dir.ends_with("projects"));
}

#[test]
fn keys_typed_in_the_workspace_manager_that_name_its_commands_are_not_typed() {
    let mut st = AppState::default();
    st.handle_key(Key::Char('4'), &no_logs());
    st.handle_key(Key::Char('a'), &no_logs());
    for c in "/code".chars() {
        st.handle_key(Key::Char(c), &no_logs());
    }
    assert_eq!(st.input_buffer, "/co");
}

#[test]
fn picker_lists_each_candidate_once_in_order() {
    let present = vec!["projects".to_string(), "Documents".to_string()];
    let workspaces = vec!["~/projects".to_string(), "/srv/work".to_string()];
    let names = vec!["b".to_string(), "a".to_string()];
    let list = picker_candidates(&present, &workspaces, "/srv/", &names);
    assert_eq!(
        list,
        vec!["/srv/a", "/srv/b", "/srv/work", "~", "~/Documents", "~/projects"]
    );
    let untyped = picker_candidates(&present, &[].to_vec(), "", &names);
    assert_eq!(untyped, vec!["~", "~/Documents", "~/projects"]);
    let sorted = vec!["a".to_string(), "a".to_string(), "b".to_string(), "b".to_string(), "c".to_string()];
    assert_eq!(dedup_sorted(sorted), vec!["a", "b", "c"]);
    assert_eq!(common_directories()[6], "projects");
    assert_eq!(common_directories().len(), 7);
}

#[test]
fn watched_changes_that_reload() {
    assert!(change_needs_reload("/w/api/byte.toml"));
    assert!(change_needs_reload("/home/u/.config/byte/config.toml"));
    assert!(change_needs_reload("/w/api/.git/HEAD"));
    assert!(change_needs_reload("/w/api/.git/refs/heads/main"));
    assert!(change_needs_reload("/w/api/.git/index"));
    assert!(!change_needs_reload("/w/api/src/main.rs"));
    assert!(!change_needs_reload("/w/api/byte.toml.swp"));
}

#[test]
fn f_in_the_project_browser_opens_the_tag_form() {
    let mut st = AppState::default();
    assert_eq!(st.current_view, View::ProjectBrowser);
    st.handle_key(Key::Char('f'), &no_logs());
    assert_eq!(st.current_view, View::Form);
    let form = st.active_form.as_ref().unwrap();
    assert_eq!(form.title, "Create Git Tag");
    let mut other = AppState::default();
    other.handle_key(Key::Char('2'), &no_logs());
    other.handle_key(Key::Char('f'), &no_logs());
    assert!(other.active_form.is_none());
}

#[test]
fn only_text_entries_become_commands() {
    let entries = vec![
        ("build".to_string(), Some("cargo build".to_string())),
        ("n".to_string(), None),
        ("test".to_string(), Some("cargo test".to_string())),
    ];
    assert_eq!(
        byte::tui::commands::text_entries(&entries),
        vec![("build".to_string(), "cargo build".to_string()), ("test".to_string(), "cargo test".to_string())]
    );
}
