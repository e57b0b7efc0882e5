//! Workspace directories: which projects each holds, which one a project
//! belongs to, and how the interface takes in a reloaded configuration.
use vstd::prelude::*;
use vstd::view::View as ViewTrait;

use super::app::{Action, ActionView, AppState, AppView};
use super::{Project, WorkspaceDir};
use crate::config::{trim_end_char, trim_trailing_slashes, GlobalConfig};
use crate::logger::{has, has_exec};
use crate::path::{expand_tilde, file_name_of, path_file_name, tilde_expansion_of};
use crate::projects::DiscoveredProject;
use crate::text::{chars_of, decimal_text, starts_with, starts_with_at, str_eq, strs, u64_to_text};

verus! {

/// What `str::to_lowercase` gives for a text (Unicode lower-casing).
pub uninterp spec fn lowercase_of(s: Seq<char>) -> Seq<char>;

/// `str::to_lowercase`. Claimed: the result is `lowercase_of` the text, which
/// depends on the text alone. Which characters it changes (Unicode case
/// tables) is not stated.
#[verifier::external_body]
pub(crate) fn to_lowercase(s: &str) -> (r: String)
    ensures
        r@ == lowercase_of(s@),
{
    s.to_lowercase()
}

/// A path as compared for membership: without trailing `/`, lower-cased.
pub open spec fn normalized(p: Seq<char>) -> Seq<char> {
    lowercase_of(trim_end_char(p, '/'))
}

/// A project path lies in a workspace (given expanded) when, normalized, it
/// starts with the workspace's normalized path.
pub open spec fn in_workspace(project: Seq<char>, workspace: Seq<char>) -> bool {
    starts_with(normalized(project), normalized(workspace))
}

/// How many of the projects lie in the workspace.
pub open spec fn count_in_workspace(projects: Seq<Project>, workspace: Seq<char>) -> nat
    decreases projects.len(),
{
    if projects.len() == 0 {
        0
    } else {
        count_in_workspace(projects.drop_last(), workspace) + if in_workspace(
            projects.last().path@,
            workspace,
        ) {
            1nat
        } else {
            0nat
        }
    }
}

fn normalize(p: &str) -> (r: Vec<char>)
    ensures
        r@ == normalized(p@),
{
    let t = trim_trailing_slashes(p);
    let l = to_lowercase(t.as_str());
    chars_of(l.as_str())
}

/// How many of the projects lie in the workspace whose expanded path is given.
pub fn count_projects_in(projects: &Vec<Project>, workspace: &str) -> (r: usize)
    ensures
        r == count_in_workspace(projects@, workspace@),
{
    let w = normalize(workspace);
    let mut n: usize = 0;
    let mut i: usize = 0;
    while i < projects.len()
        invariant
            i <= projects@.len(),
            w@ == normalized(workspace@),
            n == count_in_workspace(projects@.subrange(0, i as int), workspace@),
            n <= i,
        decreases projects.len() - i,
    {
        assert(projects@.subrange(0, i + 1).drop_last() =~= projects@.subrange(0, i as int));
        let p = normalize(projects[i].path.as_str());
        let inside = starts_with_at(&p, 0, &w);
        assert(p@.subrange(0, p@.len() as int) =~= p@);
        if inside {
            n = n + 1;
        }
        i = i + 1;
    }
    assert(projects@.subrange(0, projects@.len() as int) =~= projects@);
    n
}

/// A workspace never holds more projects than there are.
pub proof fn law_count_at_most_projects(projects: Seq<Project>, workspace: Seq<char>)
    ensures
        count_in_workspace(projects, workspace) <= projects.len(),
    decreases projects.len(),
{
    if projects.len() > 0 {
        law_count_at_most_projects(projects.drop_last(), workspace);
    }
}

/// The count of a workspace was made against one expansion of its path.
pub open spec fn counted(w: WorkspaceDir, projects: Seq<Project>) -> bool {
    exists|e: Seq<char>|
        tilde_expansion_of(w.path@, e) && w.project_count == count_in_workspace(projects, e)
}

/// How the browser shows a discovered project: its name, its description (or
/// `<type> project`), its ecosystem as its one driver, and its directory.
pub open spec fn shown_as(p: Project, d: DiscoveredProject) -> bool {
    &&& p.name@ == d.config.project.name@
    &&& p.description@ == match d.config.project.description {
        Some(x) => x@,
        None => d.config.project.project_type@ + " project"@,
    }
    &&& strs(p.drivers@) == seq![d.config.project.ecosystem@]
    &&& p.path@ == d.path@
}

/// The browser entry of a discovered project.
pub fn project_of(d: &DiscoveredProject) -> (r: Project)
    ensures
        shown_as(r, *d),
{
    let description = match &d.config.project.description {
        Some(x) => x.clone(),
        None => {
            let mut s = d.config.project.project_type.clone();
            s.append(" project");
            s
        },
    };
    let mut drivers: Vec<String> = Vec::new();
    drivers.push(d.config.project.ecosystem.clone());
    assert(strs(drivers@) =~= seq![d.config.project.ecosystem@]);
    Project { name: d.config.project.name.clone(), description, drivers, path: d.path.clone() }
}

/// The workspace list of a configuration: the primary workspace, then each
/// registered directory, in order.
pub open spec fn workspaces_of(g: GlobalConfig, ws: Seq<WorkspaceDir>) -> bool {
    &&& ws.len() == g.workspace.registered@.len() + 1
    &&& ws[0].path@ == g.workspace.path@
    &&& ws[0].is_primary
    &&& forall|i: int|
        0 <= i < g.workspace.registered@.len() ==> (#[trigger] ws[i + 1]).path@
            == g.workspace.registered@[i]@ && !ws[i + 1].is_primary
}

/// A selection kept within a list of `len` items (0 for an empty list).
pub open spec fn clamp(sel: usize, len: nat) -> usize {
    if len == 0 {
        0
    } else if sel >= len {
        (len - 1) as usize
    } else {
        sel
    }
}

/// A kept selection points into its list whenever the list is not empty, and
/// one already in the list stays where it is.
pub proof fn law_clamp_in_list(sel: usize, len: nat)
    ensures
        len > 0 ==> clamp(sel, len) < len,
        sel < len ==> clamp(sel, len) == sel,
{
}

/// The first workspace whose expanded path the project path starts with, or
/// the project path itself; `expanded` holds the expansion of each workspace's path.
pub open spec fn workspace_for(ws: Seq<WorkspaceDir>, expanded: Seq<Seq<char>>, project: Seq<char>) -> Seq<char>
    decreases ws.len(),
{
    if ws.len() == 0 || expanded.len() == 0 {
        project
    } else if starts_with(project, expanded[0]) {
        ws[0].path@
    } else {
        workspace_for(ws.drop_first(), expanded.drop_first(), project)
    }
}

pub open spec fn expansions_of(ws: Seq<WorkspaceDir>, expanded: Seq<Seq<char>>) -> bool {
    &&& expanded.len() == ws.len()
    &&& forall|i: int| 0 <= i < ws.len() ==> tilde_expansion_of(#[trigger] ws[i].path@, expanded[i])
}

proof fn lemma_workspace_for_split(
    ws: Seq<WorkspaceDir>,
    es: Seq<Seq<char>>,
    rest: Seq<Seq<char>>,
    i: int,
    project: Seq<char>,
)
    requires
        0 <= i <= ws.len(),
        es.len() == i,
        rest.len() == ws.len() - i,
        forall|k: int| 0 <= k < i ==> !starts_with(project, #[trigger] es[k]),
    ensures
        workspace_for(ws, es + rest, project) == workspace_for(ws.subrange(i, ws.len() as int), rest, project),
    decreases i,
{
    if i > 0 {
        assert((es + rest).drop_first() =~= es.drop_first() + rest);
        assert(ws.drop_first().subrange(i - 1, ws.drop_first().len() as int) =~= ws.subrange(i, ws.len() as int));
        assert((es + rest)[0] == es[0]);
        lemma_workspace_for_split(ws.drop_first(), es.drop_first(), rest, i - 1, project);
    } else {
        assert(es + rest =~= rest);
        assert(ws.subrange(0, ws.len() as int) =~= ws);
    }
}

impl AppState {
    /// Take in a reloaded configuration and the projects discovered with it:
    /// the workspace list is rebuilt, the projects replaced, each workspace's
    /// project count made, and the selections kept within the new lists.
    pub fn reload(&mut self, global: &GlobalConfig, discovered: &Vec<DiscoveredProject>)
        requires
            old(self).wf(),
        ensures
            final(self).wf(),
            final(self)@ == (AppView {
                projects: final(self)@.projects,
                workspaces: final(self)@.workspaces,
                selected_project: clamp(old(self).selected_project, discovered@.len()),
                selected_workspace: clamp(
                    old(self).selected_workspace,
                    global.workspace.registered@.len() + 1,
                ),
                ..old(self)@
            }),
            final(self).projects@.len() == discovered@.len(),
            forall|i: int|
                0 <= i < discovered@.len() ==> shown_as(
                    #[trigger] final(self).projects@[i],
                    discovered@[i],
                ),
            workspaces_of(*global, final(self).workspace_directories@),
            forall|i: int|
                0 <= i < final(self).workspace_directories@.len() ==> counted(
                    #[trigger] final(self).workspace_directories@[i],
                    final(self).projects@,
                ),
    {
        let mut projects: Vec<Project> = Vec::new();
        let mut i: usize = 0;
        while i < discovered.len()
            invariant
                i <= discovered@.len(),
                projects@.len() == i,
                forall|k: int| 0 <= k < i ==> shown_as(#[trigger] projects@[k], discovered@[k]),
            decreases discovered.len() - i,
        {
            projects.push(project_of(&discovered[i]));
            i = i + 1;
        }
        let mut dirs: Vec<WorkspaceDir> = Vec::new();
        let primary = global.workspace.path.clone();
        let e = expand_tilde(primary.as_str());
        let c = count_projects_in(&projects, e.as_str());
        dirs.push(WorkspaceDir { path: primary, is_primary: true, project_count: c });
        assert(counted(dirs@[0], projects@));
        let mut j: usize = 0;
        while j < global.workspace.registered.len()
            invariant
                j <= global.workspace.registered@.len(),
                dirs@.len() == j + 1,
                dirs@[0].path@ == global.workspace.path@,
                dirs@[0].is_primary,
                forall|k: int|
                    0 <= k < j ==> (#[trigger] dirs@[k + 1]).path@ == global.workspace.registered@[k]@
                        && !dirs@[k + 1].is_primary,
                forall|k: int| 0 <= k < dirs@.len() ==> counted(#[trigger] dirs@[k], projects@),
            decreases global.workspace.registered.len() - j,
        {
            let path = global.workspace.registered[j].clone();
            let e = expand_tilde(path.as_str());
            let c = count_projects_in(&projects, e.as_str());
            let w = WorkspaceDir { path, is_primary: false, project_count: c };
            assert(counted(w, projects@));
            dirs.push(w);
            assert(dirs@[j + 1] == w);
            j = j + 1;
        }
        let n = projects.len();
        self.projects = projects;
        if n > 0 {
            if self.selected_project >= n {
                self.selected_project = n - 1;
            }
        } else {
            self.selected_project = 0;
        }
        let m = dirs.len();
        self.workspace_directories = dirs;
        if self.selected_workspace >= m {
            self.selected_workspace = m - 1;
        }
    }

    /// The first workspace the project lies in (its path starts with the
    /// workspace's expanded path), or the project path where there is none.
    pub fn get_workspace_for_project(&self, project_path: &str) -> (r: String)
        ensures
            exists|es: Seq<Seq<char>>|
                expansions_of(self.workspace_directories@, es) && r@ == workspace_for(
                    self.workspace_directories@,
                    es,
                    project_path@,
                ),
    {
        let ghost ws = self.workspace_directories@;
        let ghost mut es: Seq<Seq<char>> = seq![];
        let pc = chars_of(project_path);
        let mut i: usize = 0;
        while i < self.workspace_directories.len()
            invariant
                ws == self.workspace_directories@,
                i <= ws.len(),
                es.len() == i,
                pc@ == project_path@,
                forall|k: int| 0 <= k < i ==> tilde_expansion_of(#[trigger] ws[k].path@, es[k]),
                forall|k: int| 0 <= k < i ==> !starts_with(project_path@, #[trigger] es[k]),
            decreases ws.len() - i,
        {
            let e = expand_tilde(self.workspace_directories[i].path.as_str());
            let ec = chars_of(e.as_str());
            let hit = starts_with_at(&pc, 0, &ec);
            assert(pc@.subrange(0, pc@.len() as int) =~= pc@);
            if hit {
                let ghost rest = ws.subrange(i as int, ws.len() as int).map_values(
                    |w: WorkspaceDir| w.path@,
                ).update(0, e@);
                proof {
                    lemma_workspace_for_split(ws, es, rest, i as int, project_path@);
                    assert(expansions_of(ws, es + rest));
                }
                return self.workspace_directories[i].path.clone();
            }
            proof {
                es = es.push(e@);
            }
            i = i + 1;
        }
        proof {
            lemma_workspace_for_split(ws, es, seq![], i as int, project_path@);
            assert(es + seq![] =~= es);
            assert(expansions_of(ws, es));
        }
        String::from_str(project_path)
    }
}

/// The status shown once the interface has started with `n` projects.
pub open spec fn start_status(n: nat) -> Seq<char> {
    if n > 0 {
        "Discovered "@ + decimal_text(n as int) + " projects"@
    } else {
        "No projects found. Use 'byte init' to create one."@
    }
}

impl AppState {
    /// The interface as it starts: the default state, and where the
    /// configuration could be loaded, its workspaces and the discovered
    /// projects, with a status saying how many were found.
    pub fn start(global: Option<&GlobalConfig>, discovered: &Vec<DiscoveredProject>) -> (r: AppState)
        ensures
            r.wf(),
            global is None ==> r@ == super::app::initial_view(),
            global matches Some(g) ==> {
                &&& r@ == (AppView {
                    projects: r@.projects,
                    workspaces: r@.workspaces,
                    status: start_status(discovered@.len()),
                    ..super::app::initial_view()
                })
                &&& r.projects@.len() == discovered@.len()
                &&& forall|i: int|
                    0 <= i < discovered@.len() ==> shown_as(#[trigger] r.projects@[i], discovered@[i])
                &&& workspaces_of(*g, r.workspace_directories@)
                &&& forall|i: int|
                    0 <= i < r.workspace_directories@.len() ==> counted(
                        #[trigger] r.workspace_directories@[i],
                        r.projects@,
                    )
            },
    {
        let mut s = AppState::default();
        match global {
            Some(g) => {
                s.reload(g, discovered);
                let n = s.projects.len();
                if n > 0 {
                    let mut msg = String::from_str("Discovered ");
                    let t = u64_to_text(n as u64);
                    msg.append(t.as_str());
                    msg.append(" projects");
                    s.status_message = msg;
                } else {
                    s.status_message = String::from_str("No projects found. Use 'byte init' to create one.");
                }
            },
            None => {},
        }
        s
    }
}

/// The status after a workspace directory was added, edited or removed (as a
/// key asked), given the outcome (an error's text); `None` for other work.
pub open spec fn workspace_change_status(a: ActionView, result: Result<(), Seq<char>>) -> Option<Seq<char>> {
    match a {
        ActionView::AddWorkspace(p) => Some(
            match result {
                Ok(_) => "✓ Added "@ + p,
                Err(e) => "✗ Error: "@ + e,
            },
        ),
        ActionView::EditWorkspace(_, p) => Some(
            match result {
                Ok(_) => "✓ Updated to "@ + p,
                Err(e) => "✗ Error: "@ + e,
            },
        ),
        ActionView::RemoveWorkspace(p) => Some(
            match result {
                Ok(_) => "✓ Removed "@ + p,
                Err(e) => "✗ Error: "@ + e,
            },
        ),
        _ => None,
    }
}

impl AppState {
    /// Take in the outcome of adding, editing or removing a workspace
    /// directory, as a key asked: the status says what was done, or the error.
    pub fn workspace_change_done(&mut self, action: &Action, result: Result<(), String>)
        ensures
            ({
                let res = match result {
                    Ok(_) => Ok::<(), Seq<char>>(()),
                    Err(e) => Err(e@),
                };
                match workspace_change_status(action@, res) {
                    Some(m) => final(self)@ == (AppView { status: m, ..old(self)@ }),
                    None => final(self)@ == old(self)@,
                }
            }),
    {
        let (ok_prefix, path) = match action {
            Action::AddWorkspace(p) => ("✓ Added ", p),
            Action::EditWorkspace(_, p) => ("✓ Updated to ", p),
            Action::RemoveWorkspace(p) => ("✓ Removed ", p),
            _ => {
                return ;
            },
        };
        let msg = match result {
            Ok(_) => {
                let mut m = String::from_str(ok_prefix);
                m.append(path.as_str());
                m
            },
            Err(e) => {
                let mut m = String::from_str("✗ Error: ");
                m.append(e.as_str());
                m
            },
        };
        self.status_message = msg;
    }
}

/// Whether a change seen in a watched directory asks for a reload: a project
/// manifest (`byte.toml`) or the configuration (`config.toml`) changed, or
/// git's HEAD, branch heads or index did.
pub open spec fn change_needs_reload_of(path: Seq<char>) -> bool {
    file_name_of(path) == Some("byte.toml"@) || file_name_of(path) == Some("config.toml"@) || has(
        path,
        ".git/HEAD"@,
    ) || has(path, ".git/refs/heads/"@) || has(path, ".git/index"@)
}

pub fn change_needs_reload(path: &str) -> (r: bool)
    ensures
        r == change_needs_reload_of(path@),
{
    let named = match path_file_name(path) {
        Some(name) => str_eq(name.as_str(), "byte.toml") || str_eq(name.as_str(), "config.toml"),
        None => false,
    };
    if named {
        return true;
    }
    let chars = chars_of(path);
    has_exec(&chars, ".git/HEAD") || has_exec(&chars, ".git/refs/heads/") || has_exec(&chars, ".git/index")
}

} // verus!
