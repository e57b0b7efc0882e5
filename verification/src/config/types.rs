//! Configuration records: the global configuration and a project's `byte.toml`.
use vstd::prelude::*;

verus! {

/// Global Byte configuration
#[derive(Debug, Clone)]
pub struct GlobalConfig {
    pub workspace: WorkspaceConfig,
    pub drivers: DriversConfig,
    pub tui: TuiConfig,
    pub explain: ExplainConfig,
}

#[derive(Debug, Clone)]
pub struct WorkspaceConfig {
    pub path: String,
    pub auto_scan: bool,
    pub registered: Vec<String>,
}

#[derive(Debug, Clone)]
pub struct DriversConfig {
    pub search_paths: Vec<String>,
}

#[derive(Debug, Clone)]
pub struct TuiConfig {
    pub refresh_rate_ms: u64,
    pub animations: bool,
    pub default_view: String,
}

#[derive(Debug, Clone)]
pub struct ExplainConfig {
    pub dry_run_by_default: bool,
    pub show_command_traces: bool,
    pub show_file_preview: bool,
}

/// Project configuration (byte.toml in project directory)
#[derive(Debug, Clone)]
pub struct ProjectConfig {
    pub project: ProjectMeta,
}

#[derive(Debug, Clone)]
pub struct ProjectMeta {
    pub name: String,
    pub project_type: String,
    pub ecosystem: String,
    pub description: Option<String>,
}

/// The default global configuration, field by field: the workspace
/// `~/projects`, scanned on start, nothing registered; drivers searched in
/// `~/.config/byte/drivers` then `~/.local/share/byte/drivers`; the TUI
/// refreshed every 16 ms with animations, opening on the browser; no dry run,
/// with command traces and file previews.
pub open spec fn is_default_global(g: GlobalConfig) -> bool {
    &&& g.workspace.path@ == "~/projects"@
    &&& g.workspace.auto_scan
    &&& g.workspace.registered@.len() == 0
    &&& g.drivers.search_paths@.len() == 2
    &&& g.drivers.search_paths@[0]@ == "~/.config/byte/drivers"@
    &&& g.drivers.search_paths@[1]@ == "~/.local/share/byte/drivers"@
    &&& g.tui.refresh_rate_ms == 16
    &&& g.tui.animations
    &&& g.tui.default_view@ == "browser"@
    &&& !g.explain.dry_run_by_default
    &&& g.explain.show_command_traces
    &&& g.explain.show_file_preview
}

impl Default for GlobalConfig {
    /// Primary workspace `~/projects`, scanned on start, nothing registered;
    /// drivers searched in `~/.config/byte/drivers` then
    /// `~/.local/share/byte/drivers`; the TUI refreshed every 16 ms with
    /// animations, opening on the browser; no dry run, with command traces and
    /// file previews.
    fn default() -> (r: Self)
        ensures
            is_default_global(r),
    {
        let mut search_paths: Vec<String> = Vec::new();
        search_paths.push(String::from_str("~/.config/byte/drivers"));
        search_paths.push(String::from_str("~/.local/share/byte/drivers"));
        GlobalConfig {
            workspace: WorkspaceConfig {
                path: String::from_str("~/projects"),
                auto_scan: true,
                registered: Vec::new(),
            },
            drivers: DriversConfig { search_paths },
            tui: TuiConfig {
                refresh_rate_ms: 16,
                animations: true,
                default_view: String::from_str("browser"),
            },
            explain: ExplainConfig {
                dry_run_by_default: false,
                show_command_traces: true,
                show_file_preview: true,
            },
        }
    }
}

impl Default for ProjectConfig {
    /// A project with the default metadata.
    fn default() -> (r: Self)
        ensures
            r.project.name@ == "my-project"@,
            r.project.project_type@ == "cli"@,
            r.project.ecosystem@ == "rust"@,
            r.project.description is None,
    {
        ProjectConfig { project: ProjectMeta::default() }
    }
}

impl Default for ProjectMeta {
    /// A Rust command-line project named `my-project`, without description.
    fn default() -> (r: Self)
        ensures
            r.name@ == "my-project"@,
            r.project_type@ == "cli"@,
            r.ecosystem@ == "rust"@,
            r.description is None,
    {
        ProjectMeta {
            name: String::from_str("my-project"),
            project_type: String::from_str("cli"),
            ecosystem: String::from_str("rust"),
            description: None,
        }
    }
}

} // verus!
