use byte::cli::discovery_report;
use byte::config::{GlobalConfig, ProjectConfig, ProjectMeta};
use byte::projects::{discover_projects, discovery_roots, git_init_commands, DiscoveredProject};

fn project(name: &str, path: &str) -> DiscoveredProject {
    DiscoveredProject {
        path: path.to_string(),
        config: ProjectConfig {
            project: ProjectMeta {
                name: name.to_string(),
                project_type: "cli".to_string(),
                ecosystem: "go".to_string(),
                description: None,
            },
        },
    }
}

#[test]
fn report_of_found_projects() {
    let g = GlobalConfig::default();
    let lines = discovery_report(&g, &vec![project("a", "/w/a")]);
    assert_eq!(lines, vec!["Found 1 project:\n".to_string(), "  • a (go/cli) at /w/a".to_string()]);
    let lines = discovery_report(&g, &vec![project("a", "/w/a"), project("b", "/w/b")]);
    assert_eq!(lines[0], "Found 2 projects:\n");
}

#[test]
fn report_of_nothing_found() {
    let mut g = GlobalConfig::default();
    g.workspace.registered = vec!["/srv".to_string()];
    let lines = discovery_report(&g, &Vec::new());
    assert_eq!(
        lines,
        vec![
            "No projects found.".to_string(),
            "\nSearched in:".to_string(),
            "  - Primary workspace: ~/projects".to_string(),
            "  - Registered: /srv".to_string(),
        ]
    );
}

#[test]
fn roots_and_results_of_discovery() {
    let mut g = GlobalConfig::default();
    g.workspace.registered = vec!["/srv".to_string(), "ssh://x/y".to_string()];
    let roots = discovery_roots(&g);
    assert_eq!(roots.len(), 3);
    assert_eq!(roots[0].configured, "~/projects");
    assert!(roots[1].path.is_ok());
    assert!(roots[2].path.is_err());
    g.workspace.auto_scan = false;
    assert_eq!(discovery_roots(&g).len(), 2);
    let all = discover_projects(vec![Some(vec![project("a", "/a")]), None, Some(vec![project("b", "/b"), project("c", "/c")])]);
    let names: Vec<&str> = all.iter().map(|p| p.config.project.name.as_str()).collect();
    assert_eq!(names, vec!["a", "b", "c"]);
}

#[test]
fn git_repository_setup() {
    let cmds = git_init_commands("/w/tool", "tool");
    assert_eq!(cmds.len(), 3);
    assert_eq!(cmds[0].command(), "git");
    assert_eq!(cmds[0].args(), &vec!["init".to_string()]);
    assert_eq!(cmds[1].args(), &vec!["add".to_string(), ".".to_string()]);
    assert_eq!(
        cmds[2].args(),
        &vec!["commit".to_string(), "-m".to_string(), "Initial commit: tool project".to_string()]
    );
    assert_eq!(cmds[2].get_working_dir(), Some("/w/tool"));
}
