//! The terminal interface's model: projects, commands, workspaces, the
//! command filter, and the decisions taken on each key press.
pub mod app;
pub mod commands;
pub mod fuzzy;
pub mod pacing;
pub mod render;
pub mod screens;
pub mod workspaces;

use vstd::prelude::*;
use vstd::view::View as ViewTrait;

verus! {

/// A project as the browser lists it.
#[derive(Clone, Debug)]
pub struct Project {
    pub name: String,
    pub description: String,
    pub drivers: Vec<String>,
    pub path: String,
}

/// A command the palette offers.
#[derive(Clone, Debug)]
pub struct Command {
    pub name: String,
    pub description: String,
    pub command: String,
}

/// A workspace directory: the primary one or a registered one.
#[derive(Clone, Debug)]
pub struct WorkspaceDir {
    pub path: String,
    pub is_primary: bool,
    pub project_count: usize,
}

/// The tabs of the command palette.
#[derive(Clone, Copy, Debug, PartialEq, Eq, Structural)]
pub enum CommandFilter {
    All,
    Build,
    Lint,
    Git,
    Test,
    Other,
}

/// The name a filter's tab shows.
pub open spec fn filter_name(f: CommandFilter) -> Seq<char> {
    match f {
        CommandFilter::All => "All"@,
        CommandFilter::Build => "Build"@,
        CommandFilter::Lint => "Lint"@,
        CommandFilter::Git => "Git"@,
        CommandFilter::Test => "Test"@,
        CommandFilter::Other => "Other"@,
    }
}

/// The filters in tab order.
pub open spec fn filter_order() -> Seq<CommandFilter> {
    seq![
        CommandFilter::All,
        CommandFilter::Build,
        CommandFilter::Lint,
        CommandFilter::Git,
        CommandFilter::Test,
        CommandFilter::Other,
    ]
}

/// The tab after `f`; the last one wraps round to the first.
pub open spec fn next_filter(f: CommandFilter) -> CommandFilter {
    match f {
        CommandFilter::All => CommandFilter::Build,
        CommandFilter::Build => CommandFilter::Lint,
        CommandFilter::Lint => CommandFilter::Git,
        CommandFilter::Git => CommandFilter::Test,
        CommandFilter::Test => CommandFilter::Other,
        CommandFilter::Other => CommandFilter::All,
    }
}

/// The tab before `f`; the first one wraps round to the last.
pub open spec fn prev_filter(f: CommandFilter) -> CommandFilter {
    match f {
        CommandFilter::All => CommandFilter::Other,
        CommandFilter::Build => CommandFilter::All,
        CommandFilter::Lint => CommandFilter::Build,
        CommandFilter::Git => CommandFilter::Lint,
        CommandFilter::Test => CommandFilter::Git,
        CommandFilter::Other => CommandFilter::Test,
    }
}

/// Applies `next_filter` `n` times.
pub open spec fn next_filter_n(f: CommandFilter, n: nat) -> CommandFilter
    decreases n,
{
    if n == 0 {
        f
    } else {
        next_filter_n(next_filter(f), (n - 1) as nat)
    }
}

impl CommandFilter {
    pub fn as_str(&self) -> (r: &'static str)
        ensures
            r@ == filter_name(*self),
    {
        match self {
            CommandFilter::All => "All",
            CommandFilter::Build => "Build",
            CommandFilter::Lint => "Lint",
            CommandFilter::Git => "Git",
            CommandFilter::Test => "Test",
            CommandFilter::Other => "Other",
        }
    }

    pub fn all_filters() -> (r: Vec<CommandFilter>)
        ensures
            r@ == filter_order(),
    {
        let r = vec![
            CommandFilter::All,
            CommandFilter::Build,
            CommandFilter::Lint,
            CommandFilter::Git,
            CommandFilter::Test,
            CommandFilter::Other,
        ];
        assert(r@ =~= filter_order());
        r
    }

    pub fn next(&self) -> (r: CommandFilter)
        ensures
            r == next_filter(*self),
    {
        match self {
            CommandFilter::All => CommandFilter::Build,
            CommandFilter::Build => CommandFilter::Lint,
            CommandFilter::Lint => CommandFilter::Git,
            CommandFilter::Git => CommandFilter::Test,
            CommandFilter::Test => CommandFilter::Other,
            CommandFilter::Other => CommandFilter::All,
        }
    }

    pub fn prev(&self) -> (r: CommandFilter)
        ensures
            r == prev_filter(*self),
    {
        match self {
            CommandFilter::All => CommandFilter::Other,
            CommandFilter::Build => CommandFilter::All,
            CommandFilter::Lint => CommandFilter::Build,
            CommandFilter::Git => CommandFilter::Lint,
            CommandFilter::Test => CommandFilter::Git,
            CommandFilter::Other => CommandFilter::Test,
        }
    }
}

/// Moving to the previous tab undoes moving to the next one.
pub proof fn law_prev_undoes_next_filter(f: CommandFilter)
    ensures
        prev_filter(next_filter(f)) == f,
{
}

/// Moving to the next tab undoes moving to the previous one.
pub proof fn law_next_undoes_prev_filter(f: CommandFilter)
    ensures
        next_filter(prev_filter(f)) == f,
{
}

/// Six steps to the next tab come back to where they started, and fewer do not.
pub proof fn law_filter_cycle(f: CommandFilter)
    ensures
        next_filter_n(f, 6) == f,
        forall|n: nat| 0 < n < 6 ==> next_filter_n(f, n) != f,
{
    reveal_with_fuel(next_filter_n, 7);
}

/// Each filter stands exactly once in the tab order, and stepping to the next
/// tab follows that order.
pub proof fn law_filter_order(f: CommandFilter)
    ensures
        filter_order().len() == 6,
        filter_order().contains(f),
        forall|i: int, j: int| 0 <= i < j < 6 ==> filter_order()[i] != filter_order()[j],
        forall|i: int| 0 <= i < 5 ==> next_filter(#[trigger] filter_order()[i]) == filter_order()[i + 1],
        next_filter(filter_order()[5]) == filter_order()[0],
{
    let o = filter_order();
    match f {
        CommandFilter::All => assert(o[0] == f),
        CommandFilter::Build => assert(o[1] == f),
        CommandFilter::Lint => assert(o[2] == f),
        CommandFilter::Git => assert(o[3] == f),
        CommandFilter::Test => assert(o[4] == f),
        CommandFilter::Other => assert(o[5] == f),
    }
}

/// What the interface is doing with typed text.
#[derive(Clone, Copy, Debug, PartialEq, Eq, Structural)]
pub enum InputMode {
    Normal,
    AddingDirectory,
    EditingCommand,
}

/// The views of the interface.
#[derive(Clone, Copy, Debug, PartialEq, Eq, Structural)]
pub enum View {
    ProjectBrowser,
    CommandPalette,
    Detail,
    WorkspaceManager,
    Form,
}

/// What a command run in the background reports.
#[derive(Clone, Debug)]
pub struct CommandResult {
    pub success: bool,
    pub command: String,
    pub working_dir: String,
    pub is_build_cmd: bool,
    pub task_name: Option<String>,
    pub stdout: String,
    pub stderr: String,
}

/// A key press, as far as the interface tells keys apart.
#[derive(Clone, Copy, Debug, PartialEq, Eq, Structural)]
pub enum Key {
    Char(char),
    Esc,
    Backspace,
    Tab,
    BackTab,
    Up,
    Down,
    PageUp,
    PageDown,
    Left,
    Right,
    Enter,
    Other,
}

} // verus!
