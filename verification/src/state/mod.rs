//! Project state: git status and the last build.
pub mod build_status;
pub mod git;

use vstd::prelude::*;

pub use build_status::{BuildState, BuildStatus};
pub use git::GitStatus;

verus! {

/// Complete project state including git and build information
#[derive(Debug, Clone)]
pub struct ProjectState {
    pub git: GitStatus,
    pub build: Option<BuildState>,
}

/// The complete state of a project from what was found on disk: whether it
/// has a `.git` entry, the output of `git status` (`None` where it failed),
/// and the recorded build state.
pub fn get_project_state(has_git_dir: bool, status_output: Option<&str>, build: Option<BuildState>) -> (r:
    ProjectState)
    requires
        status_output matches Some(o) ==> git::status_output_parsable(o@),
    ensures
        !has_git_dir ==> r.git@ == git::clean_status(false),
        has_git_dir && status_output is None ==> r.git@ == git::clean_status(true),
        has_git_dir ==> (status_output matches Some(o) ==> r.git@ == git::status_of_output(o@)),
        r.build == build,
{
    let git = git::get_git_status(has_git_dir, status_output);
    ProjectState { git, build }
}

} // verus!
