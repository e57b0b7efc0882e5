//! The commands the palette offers, and the tab each command falls under.
use vstd::prelude::*;
use vstd::view::View as ViewTrait;

use super::app::{target_workspace, AppState, AppView};
use super::{Command, CommandFilter, CommandResult};
use crate::path::{expand_tilde, tilde_expansion_of};
use crate::state::build_status::{finished_build, BuildState, BuildStatus};
use crate::text::{deep_chars, split_words, string_from_chars, words};
use crate::logger::{has, has_exec, match_lower, match_lower_chars};
use crate::text::{
    chars_of, find, find_chars, leading_space, lemma_find_from_bounds, starts_with,
    starts_with_at, sub_chars, trim_start,
};

verus! {

pub struct CommandView {
    pub name: Seq<char>,
    pub description: Seq<char>,
    pub command: Seq<char>,
}

impl View for Command {
    type V = CommandView;

    open spec fn view(&self) -> CommandView {
        CommandView { name: self.name@, description: self.description@, command: self.command@ }
    }
}

pub open spec fn commands_view(v: Seq<Command>) -> Seq<CommandView> {
    v.map_values(|c: Command| c@)
}

// ---------------------------------------------------------------------------
// Which tab a command falls under
// ---------------------------------------------------------------------------
/// The part of a lower-cased command that names what it runs: after a leading
/// `cd <dir> && `, the rest; otherwise all of it.
pub open spec fn command_body(l: Seq<char>) -> Seq<char> {
    match find(l, " && "@) {
        Some(i) => if starts_with(trim_start(l), "cd "@) {
            l.subrange(i + 4, l.len() as int)
        } else {
            l
        },
        None => l,
    }
}

pub open spec fn is_test_command(b: Seq<char>) -> bool {
    has(b, "test"@) || has(b, "spec"@) || has(b, "coverage"@) || has(b, "bench"@)
}

pub open spec fn is_lint_command(b: Seq<char>) -> bool {
    has(b, "lint"@) || has(b, "fmt"@) || has(b, "format"@) || has(b, "clippy"@) || has(
        b,
        "check"@,
    ) || has(b, "prettier"@) || has(b, "eslint"@)
}

pub open spec fn is_build_keyword_command(b: Seq<char>) -> bool {
    has(b, "build"@) || has(b, "compile"@) || has(b, "bundle"@) || has(b, "dev"@) || has(
        b,
        "run"@,
    ) || has(b, "start"@) || has(b, "watch"@) || has(b, "serve"@)
}

/// The tab a command falls under, ignoring case: `Git` when it runs `git `;
/// else the first of `Test`, `Lint`, `Build` whose keywords it holds; else `Other`.
pub open spec fn filter_of_command(command: Seq<char>) -> CommandFilter {
    let b = command_body(match_lower(command));
    if starts_with(trim_start(b), "git "@) {
        CommandFilter::Git
    } else if is_test_command(b) {
        CommandFilter::Test
    } else if is_lint_command(b) {
        CommandFilter::Lint
    } else if is_build_keyword_command(b) {
        CommandFilter::Build
    } else {
        CommandFilter::Other
    }
}

fn body_of(l: Vec<char>) -> (r: Vec<char>)
    ensures
        r@ == command_body(l@),
{
    let sep = chars_of(" && ");
    match find_chars(&l, &sep) {
        Some(i) => {
            proof {
                reveal_strlit(" && ");
                lemma_find_from_bounds(l@, sep@, 0);
                assert(l@.len() == l.len());
                assert(i + 4 <= l@.len());
            }
            let a = leading_space(&l);
            let cd = chars_of("cd ");
            if starts_with_at(&l, a, &cd) {
                sub_chars(&l, i + 4, l.len())
            } else {
                l
            }
        },
        None => l,
    }
}

/// Categorize a command by keyword (what the palette's tabs go by).
pub fn categorize_command(command: &str) -> (r: CommandFilter)
    ensures
        r == filter_of_command(command@),
{
    let chars = chars_of(command);
    let b = body_of(match_lower_chars(&chars));
    let a = leading_space(&b);
    let git = chars_of("git ");
    if starts_with_at(&b, a, &git) {
        CommandFilter::Git
    } else if has_exec(&b, "test") || has_exec(&b, "spec") || has_exec(&b, "coverage") || has_exec(
        &b,
        "bench",
    ) {
        CommandFilter::Test
    } else if has_exec(&b, "lint") || has_exec(&b, "fmt") || has_exec(&b, "format") || has_exec(
        &b,
        "clippy",
    ) || has_exec(&b, "check") || has_exec(&b, "prettier") || has_exec(&b, "eslint") {
        CommandFilter::Lint
    } else if has_exec(&b, "build") || has_exec(&b, "compile") || has_exec(&b, "bundle")
        || has_exec(&b, "dev") || has_exec(&b, "run") || has_exec(&b, "start") || has_exec(
        &b,
        "watch",
    ) || has_exec(&b, "serve") {
        CommandFilter::Build
    } else {
        CommandFilter::Other
    }
}

// ---------------------------------------------------------------------------
// The commands on offer
// ---------------------------------------------------------------------------
pub open spec fn command_of(name: Seq<char>, description: Seq<char>, command: Seq<char>) -> CommandView {
    CommandView { name, description, command }
}

/// The commands offered when no project is selected: creating a project.
pub open spec fn init_commands_view() -> Seq<CommandView> {
    seq![
        command_of("init go cli <name>"@, "Initialize Go CLI project"@, "byte init go cli my-project"@),
        command_of(
            "init bun web <name>"@,
            "Initialize Bun web application"@,
            "byte init bun web my-app"@,
        ),
        command_of("init rust cli <name>"@, "Initialize Rust CLI project"@, "byte init rust cli my-tool"@),
    ]
}

fn make_command(name: &str, description: &str, command: &str) -> (r: Command)
    ensures
        r@ == command_of(name@, description@, command@),
{
    Command {
        name: String::from_str(name),
        description: String::from_str(description),
        command: String::from_str(command),
    }
}

pub fn init_commands() -> (r: Vec<Command>)
    ensures
        commands_view(r@) == init_commands_view(),
{
    let mut v: Vec<Command> = Vec::new();
    v.push(make_command("init go cli <name>", "Initialize Go CLI project", "byte init go cli my-project"));
    v.push(make_command("init bun web <name>", "Initialize Bun web application", "byte init bun web my-app"));
    v.push(make_command("init rust cli <name>", "Initialize Rust CLI project", "byte init rust cli my-tool"));
    assert(commands_view(v@) =~= init_commands_view());
    v
}

pub open spec fn pairs_view(v: Seq<(String, String)>) -> Seq<(Seq<char>, Seq<char>)> {
    v.map_values(|p: (String, String)| (p.0@, p.1@))
}

/// The palette entry of a build task of `byte.toml`.
pub open spec fn build_command_view(task: (Seq<char>, Seq<char>)) -> CommandView {
    command_of("build: "@ + task.0, "Run build task: "@ + task.0, task.1)
}

/// The palette entry of a custom command of `byte.toml`.
pub open spec fn custom_command_view(cmd: (Seq<char>, Seq<char>)) -> CommandView {
    command_of(cmd.0, "Run: "@ + cmd.0, cmd.1)
}

/// The git commands every project offers.
pub open spec fn git_commands_view() -> Seq<CommandView> {
    seq![
        command_of("git status"@, "Show git status"@, "git status"@),
        command_of("git diff"@, "Show uncommitted changes"@, "git diff"@),
    ]
}

/// The commands a project offers: its build tasks, then its custom commands,
/// then the git commands.
pub open spec fn project_commands_view(
    build: Seq<(Seq<char>, Seq<char>)>,
    custom: Seq<(Seq<char>, Seq<char>)>,
) -> Seq<CommandView> {
    build.map_values(|t: (Seq<char>, Seq<char>)| build_command_view(t)) + custom.map_values(
        |c: (Seq<char>, Seq<char>)| custom_command_view(c),
    ) + git_commands_view()
}

fn prefixed(prefix: &str, s: &str) -> (r: String)
    ensures
        r@ == prefix@ + s@,
{
    let mut out = String::from_str(prefix);
    out.append(s);
    out
}

pub open spec fn entries_view(v: Seq<(String, Option<String>)>) -> Seq<(Seq<char>, Option<Seq<char>>)> {
    v.map_values(
        |e: (String, Option<String>)|
            (
                e.0@,
                match e.1 {
                    Some(t) => Some(t@),
                    None => None,
                },
            ),
    )
}

/// The entries of a table whose value is text, in order (entries holding
/// another kind of value are skipped).
pub open spec fn text_entries_of(v: Seq<(Seq<char>, Option<Seq<char>>)>) -> Seq<(Seq<char>, Seq<char>)>
    decreases v.len(),
{
    if v.len() == 0 {
        seq![]
    } else {
        let rest = text_entries_of(v.drop_last());
        match v.last().1 {
            Some(t) => rest.push((v.last().0, t)),
            None => rest,
        }
    }
}

/// The name and command line of each entry of a command table whose value is
/// text (`None` stands for a value of another kind), in order.
pub fn text_entries(entries: &Vec<(String, Option<String>)>) -> (r: Vec<(String, String)>)
    ensures
        pairs_view(r@) == text_entries_of(entries_view(entries@)),
{
    let mut out: Vec<(String, String)> = Vec::new();
    let mut i: usize = 0;
    while i < entries.len()
        invariant
            i <= entries@.len(),
            pairs_view(out@) == text_entries_of(entries_view(entries@).subrange(0, i as int)),
        decreases entries.len() - i,
    {
        let ghost before = pairs_view(out@);
        assert(entries_view(entries@).subrange(0, i + 1).drop_last() =~= entries_view(entries@).subrange(
            0,
            i as int,
        ));
        match &entries[i].1 {
            Some(t) => {
                out.push((entries[i].0.clone(), t.clone()));
                assert(pairs_view(out@) =~= before.push((entries@[i as int].0@, t@)));
            },
            None => {},
        }
        i = i + 1;
    }
    assert(entries_view(entries@).subrange(0, entries@.len() as int) =~= entries_view(entries@));
    out
}

/// The commands of a project, from the build tasks and custom commands of its
/// `byte.toml` (each a name and a command line, in the order given).
pub fn project_commands(build: &Vec<(String, String)>, custom: &Vec<(String, String)>) -> (r: Vec<
    Command,
>)
    ensures
        commands_view(r@) == project_commands_view(pairs_view(build@), pairs_view(custom@)),
{
    let ghost bv = pairs_view(build@).map_values(|t: (Seq<char>, Seq<char>)| build_command_view(t));
    let ghost cv = pairs_view(custom@).map_values(|c: (Seq<char>, Seq<char>)| custom_command_view(c));
    let mut out: Vec<Command> = Vec::new();
    let mut i: usize = 0;
    while i < build.len()
        invariant
            i <= build@.len(),
            bv == pairs_view(build@).map_values(|t: (Seq<char>, Seq<char>)| build_command_view(t)),
            commands_view(out@) == bv.subrange(0, i as int),
        decreases build.len() - i,
    {
        let name = build[i].0.as_str();
        let cmd = build[i].1.as_str();
        let c = Command {
            name: prefixed("build: ", name),
            description: prefixed("Run build task: ", name),
            command: String::from_str(cmd),
        };
        assert(c@ == bv[i as int]);
        let ghost old_out = out@;
        out.push(c);
        assert(commands_view(out@) =~= commands_view(old_out).push(c@));
        assert(bv.subrange(0, i + 1) =~= bv.subrange(0, i as int).push(c@));
        i = i + 1;
    }
    let mut j: usize = 0;
    while j < custom.len()
        invariant
            j <= custom@.len(),
            bv.len() == build@.len(),
            cv == pairs_view(custom@).map_values(|c: (Seq<char>, Seq<char>)| custom_command_view(c)),
            commands_view(out@) == bv + cv.subrange(0, j as int),
        decreases custom.len() - j,
    {
        let name = custom[j].0.as_str();
        let cmd = custom[j].1.as_str();
        let c = Command {
            name: String::from_str(name),
            description: prefixed("Run: ", name),
            command: String::from_str(cmd),
        };
        assert(c@ == cv[j as int]);
        let ghost old_out = out@;
        out.push(c);
        assert(commands_view(out@) =~= commands_view(old_out).push(c@));
        assert(bv + cv.subrange(0, j + 1) =~= (bv + cv.subrange(0, j as int)).push(c@));
        j = j + 1;
    }
    out.push(make_command("git status", "Show git status", "git status"));
    out.push(make_command("git diff", "Show uncommitted changes", "git diff"));
    assert(bv.subrange(0, bv.len() as int) =~= bv);
    assert(cv.subrange(0, cv.len() as int) =~= cv);
    assert(commands_view(out@) =~= bv + cv + git_commands_view());
    out
}

/// A copy of a command, field by field.
pub fn copy_command(c: &Command) -> (r: Command)
    ensures
        r@ == c@,
{
    Command { name: c.name.clone(), description: c.description.clone(), command: c.command.clone() }
}

// ---------------------------------------------------------------------------
// Filtering by tab
// ---------------------------------------------------------------------------
/// The commands under tab `f`, in their order (all of them for `All`).
pub open spec fn filtered_commands(cmds: Seq<CommandView>, f: CommandFilter) -> Seq<CommandView>
    decreases cmds.len(),
{
    if f == CommandFilter::All || cmds.len() == 0 {
        cmds
    } else {
        let rest = filtered_commands(cmds.drop_last(), f);
        if filter_of_command(cmds.last().command) == f {
            rest.push(cmds.last())
        } else {
            rest
        }
    }
}

/// Every command kept under a tab falls under it; the `All` tab keeps every
/// command; filtering never adds commands.
pub proof fn law_filtered_commands_fall_under_tab(cmds: Seq<CommandView>, f: CommandFilter)
    ensures
        f == CommandFilter::All ==> filtered_commands(cmds, f) == cmds,
        f != CommandFilter::All ==> forall|i: int|
            0 <= i < filtered_commands(cmds, f).len() ==> filter_of_command(
                #[trigger] filtered_commands(cmds, f)[i].command,
            ) == f,
        filtered_commands(cmds, f).len() <= cmds.len(),
    decreases cmds.len(),
{
    if f != CommandFilter::All && cmds.len() > 0 {
        law_filtered_commands_fall_under_tab(cmds.drop_last(), f);
    }
}

/// The commands of `cmds` under tab `f`, in their order.
pub fn filter_commands(cmds: Vec<Command>, f: CommandFilter) -> (r: Vec<Command>)
    ensures
        commands_view(r@) == filtered_commands(commands_view(cmds@), f),
{
    if f == CommandFilter::All {
        return cmds;
    }
    let mut out: Vec<Command> = Vec::new();
    let mut i: usize = 0;
    while i < cmds.len()
        invariant
            i <= cmds@.len(),
            f != CommandFilter::All,
            commands_view(out@) == filtered_commands(commands_view(cmds@.subrange(0, i as int)), f),
        decreases cmds.len() - i,
    {
        assert(commands_view(cmds@.subrange(0, i + 1)).drop_last() =~= commands_view(
            cmds@.subrange(0, i as int),
        ));
        assert(commands_view(cmds@.subrange(0, i + 1)).last() == cmds@[i as int]@);
        if categorize_command(cmds[i].command.as_str()) == f {
            out.push(copy_command(&cmds[i]));
            assert(commands_view(out@) =~= filtered_commands(
                commands_view(cmds@.subrange(0, i as int)),
                f,
            ).push(cmds@[i as int]@));
        }
        i = i + 1;
    }
    assert(cmds@.subrange(0, cmds@.len() as int) =~= cmds@);
    out
}

// ---------------------------------------------------------------------------
// Build tasks among the commands
// ---------------------------------------------------------------------------
/// The build task that `command` runs, if a palette entry named `build: <task>`
/// has it as its command line (the first such entry decides).
pub open spec fn build_task_of(cmds: Seq<CommandView>, command: Seq<char>) -> Option<Seq<char>>
    decreases cmds.len(),
{
    if cmds.len() == 0 {
        None
    } else if cmds[0].command == command && starts_with(cmds[0].name, "build: "@) {
        Some(cmds[0].name.subrange(7, cmds[0].name.len() as int))
    } else {
        build_task_of(cmds.drop_first(), command)
    }
}

/// Whether `command` is the command line of a build task of the palette.
pub fn is_build_command(cmds: &Vec<Command>, command: &str) -> (r: bool)
    ensures
        r == build_task_of(commands_view(cmds@), command@) is Some,
{
    extract_task_name(cmds, command).is_some()
}

/// The task name of the build entry whose command line is `command`.
pub fn extract_task_name(cmds: &Vec<Command>, command: &str) -> (r: Option<String>)
    ensures
        match r {
            Some(t) => build_task_of(commands_view(cmds@), command@) == Some(t@),
            None => build_task_of(commands_view(cmds@), command@) is None,
        },
{
    let prefix = chars_of("build: ");
    let mut i: usize = 0;
    assert(commands_view(cmds@).subrange(0, cmds@.len() as int) =~= commands_view(cmds@));
    while i < cmds.len()
        invariant
            i <= cmds@.len(),
            prefix@ == "build: "@,
            build_task_of(commands_view(cmds@), command@) == build_task_of(
                commands_view(cmds@).subrange(i as int, cmds@.len() as int),
                command@,
            ),
        decreases cmds.len() - i,
    {
        let ghost rest = commands_view(cmds@).subrange(i as int, cmds@.len() as int);
        assert(rest.drop_first() =~= commands_view(cmds@).subrange(i + 1, cmds@.len() as int));
        assert(rest[0] == cmds@[i as int]@);
        let name = chars_of(cmds[i].name.as_str());
        if crate::text::str_eq(cmds[i].command.as_str(), command) && starts_with_at(&name, 0, &prefix) {
            proof {
                reveal_strlit("build: ");
                assert(name@.subrange(0, name@.len() as int) =~= name@);
            }
            let task = sub_chars(&name, 7, name.len());
            return Some(crate::text::string_from_chars(&task));
        }
        proof {
            assert(name@.subrange(0, name@.len() as int) =~= name@);
        }
        i = i + 1;
    }
    None
}

// ---------------------------------------------------------------------------
// Reloading the palette
// ---------------------------------------------------------------------------
/// The palette after its commands are reloaded: the project's commands when
/// a project is selected (the ones that create a project otherwise), under the
/// current tab; the selection stays where it is still within the list, goes
/// to the first command otherwise, and is left alone when the list is empty.
pub open spec fn with_commands(s: AppView, project_commands: Seq<CommandView>) -> AppView {
    let available = if s.selected_project < s.projects.len() {
        project_commands
    } else {
        init_commands_view()
    };
    let cmds = filtered_commands(available, s.filter);
    AppView {
        commands: cmds,
        selected_command: if cmds.len() > 0 && s.selected_command >= cmds.len() {
            0
        } else {
            s.selected_command
        },
        ..s
    }
}

impl AppState {
    /// Reload the palette, given the commands of the selected project (read
    /// from its `byte.toml`; ignored when no project is selected).
    pub fn update_commands(&mut self, project_commands: Vec<Command>)
        requires
            old(self).wf(),
        ensures
            final(self).wf(),
            final(self)@ == with_commands(old(self)@, commands_view(project_commands@)),
    {
        let available = if self.selected_project < self.projects.len() {
            project_commands
        } else {
            init_commands()
        };
        let cmds = filter_commands(available, self.command_filter);
        let n = cmds.len();
        self.commands = cmds;
        if n > 0 && self.selected_command >= n {
            self.selected_command = 0;
        }
    }
}

// ---------------------------------------------------------------------------
// Running a command
// ---------------------------------------------------------------------------
/// How a command line of the palette is run: in which directory, and whether
/// it is a build task (whose state is recorded).
#[derive(Debug)]
pub struct ExecutionPlan {
    pub command: String,
    pub working_dir: String,
    pub is_build_cmd: bool,
    pub task_name: Option<String>,
}

impl AppState {
    /// Plan the run of a command line: in the selected project's directory,
    /// or else in the target workspace (its `~` expanded); a build task where
    /// a `build: <task>` entry of the palette has this command line.
    pub fn plan_execution(&self, command: &str) -> (r: ExecutionPlan)
        ensures
            r.command@ == command@,
            self.selected_project < self.projects@.len() ==> r.working_dir@
                == self.projects@[self.selected_project as int].path@,
            self.selected_project >= self.projects@.len() ==> tilde_expansion_of(
                target_workspace(self@),
                r.working_dir@,
            ),
            r.is_build_cmd == build_task_of(self@.commands, command@) is Some,
            match r.task_name {
                Some(t) => build_task_of(self@.commands, command@) == Some(t@),
                None => build_task_of(self@.commands, command@) is None,
            },
    {
        let working_dir = if self.selected_project < self.projects.len() {
            self.projects[self.selected_project].path.clone()
        } else {
            let t = self.get_target_workspace();
            expand_tilde(t.as_str())
        };
        let task_name = extract_task_name(&self.commands, command);
        ExecutionPlan {
            command: String::from_str(command),
            working_dir,
            is_build_cmd: task_name.is_some(),
            task_name,
        }
    }
}

/// What a background run does with a command line: create a project for
/// `byte init <ecosystem> <type> [<name>]` (the name defaults to
/// `my-project`), run it through the shell otherwise.
#[derive(Debug)]
pub enum Job {
    Init { ecosystem: String, project_type: String, name: String },
    Shell,
}

pub open spec fn job_of(command: Seq<char>) -> Option<(Seq<char>, Seq<char>, Seq<char>)> {
    let parts = words(command);
    if parts.len() >= 4 && parts[0] == "byte"@ && parts[1] == "init"@ {
        Some((parts[2], parts[3], if parts.len() > 4 { parts[4] } else { "my-project"@ }))
    } else {
        None
    }
}

/// Which job a command line is.
pub fn job_for(command: &str) -> (r: Job)
    ensures
        match r {
            Job::Init { ecosystem, project_type, name } => job_of(command@) == Some(
                (ecosystem@, project_type@, name@),
            ),
            Job::Shell => job_of(command@) is None,
        },
{
    let parts = split_words(&chars_of(command));
    let byte = chars_of("byte");
    let init = chars_of("init");
    if parts.len() >= 4 && crate::text::same_chars(&parts[0], &byte) && crate::text::same_chars(
        &parts[1],
        &init,
    ) {
        assert(deep_chars(parts@)[0] == parts@[0]@);
        assert(deep_chars(parts@)[1] == parts@[1]@);
        assert(deep_chars(parts@)[2] == parts@[2]@);
        assert(deep_chars(parts@)[3] == parts@[3]@);
        let name = if parts.len() > 4 {
            assert(deep_chars(parts@)[4] == parts@[4]@);
            string_from_chars(&parts[4])
        } else {
            String::from_str("my-project")
        };
        Job::Init {
            ecosystem: string_from_chars(&parts[2]),
            project_type: string_from_chars(&parts[3]),
            name,
        }
    } else {
        proof {
            if parts@.len() >= 4 {
                assert(deep_chars(parts@)[0] == parts@[0]@);
                assert(deep_chars(parts@)[1] == parts@[1]@);
            }
        }
        Job::Shell
    }
}

/// What follows a finished run: the build state to record (for a build
/// task), and whether to reload everything from disk (after a success).
#[derive(Debug)]
pub struct CommandFollowUp {
    pub save: Option<BuildState>,
    pub reload: bool,
}

impl AppState {
    /// Take in the result of a background run, finished at `timestamp`: the
    /// status tells success (`✓ <command>`) or failure (`✗ Command failed`).
    pub fn finish_command(&mut self, result: &CommandResult, timestamp: i64) -> (r: CommandFollowUp)
        ensures
            final(self)@ == (AppView {
                status: if result.success {
                    "✓ "@ + result.command@
                } else {
                    "✗ Command failed"@
                },
                ..old(self)@
            }),
            r.reload == result.success,
            match r.save {
                Some(b) => result.is_build_cmd && result.task_name == Some(b.task) && b.timestamp
                    == timestamp && b.status == (if result.success {
                    BuildStatus::Success
                } else {
                    BuildStatus::Failed
                }),
                None => !result.is_build_cmd || result.task_name is None,
            },
    {
        let save = if result.is_build_cmd {
            match &result.task_name {
                Some(t) => Some(finished_build(t.clone(), result.success, timestamp)),
                None => None,
            }
        } else {
            None
        };
        if result.success {
            let mut msg = String::from_str("✓ ");
            msg.append(result.command.as_str());
            self.status_message = msg;
        } else {
            self.status_message = String::from_str("✗ Command failed");
        }
        CommandFollowUp { save, reload: result.success }
    }
}

/// Which tab a command falls under, read from its lower-cased body (what
/// follows a leading `cd <dir> && `): `Git` for one that runs `git `; else
/// `Test` for one naming test, spec, coverage or bench; else `Lint` for lint,
/// fmt, format, clippy, check, prettier or eslint; else `Build` for build,
/// compile, bundle, dev, run, start, watch or serve; else `Other`.
pub proof fn law_command_tabs(command: Seq<char>)
    ensures
        ({
            let b = command_body(match_lower(command));
            let git = starts_with(trim_start(b), "git "@);
            let test = has(b, "test"@) || has(b, "spec"@) || has(b, "coverage"@) || has(b, "bench"@);
            let lint = has(b, "lint"@) || has(b, "fmt"@) || has(b, "format"@) || has(b, "clippy"@)
                || has(b, "check"@) || has(b, "prettier"@) || has(b, "eslint"@);
            let build = has(b, "build"@) || has(b, "compile"@) || has(b, "bundle"@) || has(b, "dev"@)
                || has(b, "run"@) || has(b, "start"@) || has(b, "watch"@) || has(b, "serve"@);
            &&& (filter_of_command(command) == CommandFilter::Git <==> git)
            &&& (filter_of_command(command) == CommandFilter::Test <==> !git && test)
            &&& (filter_of_command(command) == CommandFilter::Lint <==> !git && !test && lint)
            &&& (filter_of_command(command) == CommandFilter::Build <==> !git && !test && !lint
                && build)
            &&& (filter_of_command(command) == CommandFilter::Other <==> !git && !test && !lint
                && !build)
        }),
{
}

} // verus!
