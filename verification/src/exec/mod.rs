//! Command execution abstraction: a builder for commands, and the whitelist
//! that every command must pass before it runs.
use vstd::prelude::*;

use crate::text::{chars_of, concat3, same_chars};

verus! {

#[verifier::external_type_specification]
#[verifier::external_body]
pub struct ExSystemTime(std::time::SystemTime);

/// `Clone` of `std::time::Duration`, a `Copy` type: claimed to give back the same value.
pub assume_specification[ <std::time::Duration as Clone>::clone ](d: &std::time::Duration) -> (r:
    std::time::Duration)
    ensures
        r == *d,
;

/// `Clone` of `std::time::SystemTime`, a `Copy` type: claimed to give back the same value.
pub assume_specification[ <std::time::SystemTime as Clone>::clone ](t: &std::time::SystemTime) -> (r:
    std::time::SystemTime)
    ensures
        r == *t,
;

/// Execution target (local or remote)
#[derive(Clone, Debug)]
pub enum ExecutionTarget {
    Local,
    Remote { host: String, user: String },
}

/// Command execution result with metadata
#[derive(Debug, Clone)]
pub struct CommandResult {
    pub stdout: String,
    pub stderr: String,
    pub exit_code: i32,
    pub success: bool,
    pub duration: std::time::Duration,
    pub timestamp: std::time::SystemTime,
}

/// Execution progress for UI updates
pub struct ExecutionProgress {
    pub phase: ExecutionPhase,
    pub bytes_read: usize,
}

/// Execution phases for progress tracking
#[derive(Debug, Clone, Copy, PartialEq, Eq, Structural)]
pub enum ExecutionPhase {
    Starting,
    Running,
    Complete,
}

/// Why a command was refused before it ran.
#[derive(Debug, Clone, Copy, PartialEq, Eq, Structural)]
pub enum CommandError {
    /// The program is not on the whitelist.
    NotWhitelisted,
}

/// The whitelist as the refusal lists it.
pub open spec fn whitelist_text() -> Seq<char> {
    "[\"cargo\", \"rustc\", \"rustfmt\", \"clippy-driver\", \"go\", \"gofmt\", \"bun\", \"npm\", \"node\", \"npx\", \"git\", \"make\", \"cmake\", \"python\", \"python3\", \"sh\", \"bash\", \"which\", \"vim\", \"nano\", \"vi\", \"emacs\"]"@
}

/// How the refusal of the program `command` reads to the user.
pub open spec fn command_error_text(e: CommandError, command: Seq<char>) -> Seq<char> {
    match e {
        CommandError::NotWhitelisted => "Command '"@ + command + "' not in whitelist. Allowed: "@
            + whitelist_text(),
    }
}

impl CommandError {
    /// The message of the refusal of the program `command`.
    pub fn message(&self, command: &str) -> (r: String)
        ensures
            r@ == command_error_text(*self, command@),
    {
        match self {
            CommandError::NotWhitelisted => {
                let mut out = concat3("Command '", command, "' not in whitelist. Allowed: ");
                out.append(
                    "[\"cargo\", \"rustc\", \"rustfmt\", \"clippy-driver\", \"go\", \"gofmt\", \"bun\", \"npm\", \"node\", \"npx\", \"git\", \"make\", \"cmake\", \"python\", \"python3\", \"sh\", \"bash\", \"which\", \"vim\", \"nano\", \"vi\", \"emacs\"]",
                );
                out
            },
        }
    }
}

/// The programs that may be run: build tools, git, interpreters, the shells
/// (for shell mode), `which`, and terminal editors.
pub open spec fn is_allowed_command(c: Seq<char>) -> bool {
    ||| c == seq!['c', 'a', 'r', 'g', 'o']
    ||| c == seq!['r', 'u', 's', 't', 'c']
    ||| c == seq!['r', 'u', 's', 't', 'f', 'm', 't']
    ||| c == seq!['c', 'l', 'i', 'p', 'p', 'y', '-', 'd', 'r', 'i', 'v', 'e', 'r']
    ||| c == seq!['g', 'o']
    ||| c == seq!['g', 'o', 'f', 'm', 't']
    ||| c == seq!['b', 'u', 'n']
    ||| c == seq!['n', 'p', 'm']
    ||| c == seq!['n', 'o', 'd', 'e']
    ||| c == seq!['n', 'p', 'x']
    ||| c == seq!['g', 'i', 't']
    ||| c == seq!['m', 'a', 'k', 'e']
    ||| c == seq!['c', 'm', 'a', 'k', 'e']
    ||| c == seq!['p', 'y', 't', 'h', 'o', 'n']
    ||| c == seq!['p', 'y', 't', 'h', 'o', 'n', '3']
    ||| c == seq!['s', 'h']
    ||| c == seq!['b', 'a', 's', 'h']
    ||| c == seq!['w', 'h', 'i', 'c', 'h']
    ||| c == seq!['v', 'i', 'm']
    ||| c == seq!['n', 'a', 'n', 'o']
    ||| c == seq!['v', 'i']
    ||| c == seq!['e', 'm', 'a', 'c', 's']
}

fn allowed(command: &str) -> (r: bool)
    ensures
        r == is_allowed_command(command@),
{
    let c = chars_of(command);
    let lit = vec!['c', 'a', 'r', 'g', 'o'];
    assert(lit@ == seq!['c', 'a', 'r', 'g', 'o']);
    if same_chars(&c, &lit) {
        return true;
    }
    let lit = vec!['r', 'u', 's', 't', 'c'];
    assert(lit@ == seq!['r', 'u', 's', 't', 'c']);
    if same_chars(&c, &lit) {
        return true;
    }
    let lit = vec!['r', 'u', 's', 't', 'f', 'm', 't'];
    assert(lit@ == seq!['r', 'u', 's', 't', 'f', 'm', 't']);
    if same_chars(&c, &lit) {
        return true;
    }
    let lit = vec!['c', 'l', 'i', 'p', 'p', 'y', '-', 'd', 'r', 'i', 'v', 'e', 'r'];
    assert(lit@ == seq!['c', 'l', 'i', 'p', 'p', 'y', '-', 'd', 'r', 'i', 'v', 'e', 'r']);
    if same_chars(&c, &lit) {
        return true;
    }
    let lit = vec!['g', 'o'];
    assert(lit@ == seq!['g', 'o']);
    if same_chars(&c, &lit) {
        return true;
    }
    let lit = vec!['g', 'o', 'f', 'm', 't'];
    assert(lit@ == seq!['g', 'o', 'f', 'm', 't']);
    if same_chars(&c, &lit) {
        return true;
    }
    let lit = vec!['b', 'u', 'n'];
    assert(lit@ == seq!['b', 'u', 'n']);
    if same_chars(&c, &lit) {
        return true;
    }
    let lit = vec!['n', 'p', 'm'];
    assert(lit@ == seq!['n', 'p', 'm']);
    if same_chars(&c, &lit) {
        return true;
    }
    let lit = vec!['n', 'o', 'd', 'e'];
    assert(lit@ == seq!['n', 'o', 'd', 'e']);
    if same_chars(&c, &lit) {
        return true;
    }
    let lit = vec!['n', 'p', 'x'];
    assert(lit@ == seq!['n', 'p', 'x']);
    if same_chars(&c, &lit) {
        return true;
    }
    let lit = vec!['g', 'i', 't'];
    assert(lit@ == seq!['g', 'i', 't']);
    if same_chars(&c, &lit) {
        return true;
    }
    let lit = vec!['m', 'a', 'k', 'e'];
    assert(lit@ == seq!['m', 'a', 'k', 'e']);
    if same_chars(&c, &lit) {
        return true;
    }
    let lit = vec!['c', 'm', 'a', 'k', 'e'];
    assert(lit@ == seq!['c', 'm', 'a', 'k', 'e']);
    if same_chars(&c, &lit) {
        return true;
    }
    let lit = vec!['p', 'y', 't', 'h', 'o', 'n'];
    assert(lit@ == seq!['p', 'y', 't', 'h', 'o', 'n']);
    if same_chars(&c, &lit) {
        return true;
    }
    let lit = vec!['p', 'y', 't', 'h', 'o', 'n', '3'];
    assert(lit@ == seq!['p', 'y', 't', 'h', 'o', 'n', '3']);
    if same_chars(&c, &lit) {
        return true;
    }
    let lit = vec!['s', 'h'];
    assert(lit@ == seq!['s', 'h']);
    if same_chars(&c, &lit) {
        return true;
    }
    let lit = vec!['b', 'a', 's', 'h'];
    assert(lit@ == seq!['b', 'a', 's', 'h']);
    if same_chars(&c, &lit) {
        return true;
    }
    let lit = vec!['w', 'h', 'i', 'c', 'h'];
    assert(lit@ == seq!['w', 'h', 'i', 'c', 'h']);
    if same_chars(&c, &lit) {
        return true;
    }
    let lit = vec!['v', 'i', 'm'];
    assert(lit@ == seq!['v', 'i', 'm']);
    if same_chars(&c, &lit) {
        return true;
    }
    let lit = vec!['n', 'a', 'n', 'o'];
    assert(lit@ == seq!['n', 'a', 'n', 'o']);
    if same_chars(&c, &lit) {
        return true;
    }
    let lit = vec!['v', 'i'];
    assert(lit@ == seq!['v', 'i']);
    if same_chars(&c, &lit) {
        return true;
    }
    let lit = vec!['e', 'm', 'a', 'c', 's'];
    assert(lit@ == seq!['e', 'm', 'a', 'c', 's']);
    if same_chars(&c, &lit) {
        return true;
    }
    false
}

/// Safe command builder with validation
#[derive(Clone)]
pub struct CommandBuilder {
    command: String,
    args: Vec<String>,
    working_dir: Option<String>,
    timeout: Option<std::time::Duration>,
    log_category: Option<String>,
    target: ExecutionTarget,
}

pub struct CommandBuilderView {
    pub command: Seq<char>,
    pub args: Seq<Seq<char>>,
    pub working_dir: Option<Seq<char>>,
    pub timeout: Option<std::time::Duration>,
    pub log_category: Option<Seq<char>>,
    pub is_local: bool,
}

pub open spec fn opt_view(o: Option<String>) -> Option<Seq<char>> {
    match o {
        Some(s) => Some(s@),
        None => None,
    }
}

impl View for CommandBuilder {
    type V = CommandBuilderView;

    closed spec fn view(&self) -> CommandBuilderView {
        CommandBuilderView {
            command: self.command@,
            args: self.args@.map_values(|a: String| a@),
            working_dir: opt_view(self.working_dir),
            timeout: self.timeout,
            log_category: opt_view(self.log_category),
            is_local: self.target is Local,
        }
    }
}

/// A fresh builder for `command`: no arguments, no working directory, no
/// timeout, no log category, run locally.
pub open spec fn fresh_builder(command: Seq<char>, args: Seq<Seq<char>>) -> CommandBuilderView {
    CommandBuilderView {
        command,
        args,
        working_dir: None,
        timeout: None,
        log_category: None,
        is_local: true,
    }
}

impl CommandBuilder {
    /// Create a new command builder for a binary
    pub fn new(command: &str) -> (r: Self)
        ensures
            r@ == fresh_builder(command@, seq![]),
    {
        let r = CommandBuilder {
            command: command.to_string(),
            args: Vec::new(),
            working_dir: None,
            timeout: None,
            log_category: None,
            target: ExecutionTarget::Local,
        };
        assert(r@.args =~= Seq::<Seq<char>>::empty());
        r
    }

    /// Create a shell command: `sh -c <command>`.
    pub fn shell(command: &str) -> (r: Self)
        ensures
            r@ == fresh_builder(seq!['s', 'h'], seq![seq!['-', 'c'], command@]),
    {
        proof {
            reveal_strlit("sh");
            reveal_strlit("-c");
            assert("sh"@ =~= seq!['s', 'h']);
            assert("-c"@ =~= seq!['-', 'c']);
        }
        let mut args: Vec<String> = Vec::new();
        args.push(String::from_str("-c"));
        args.push(command.to_string());
        let r = CommandBuilder {
            command: String::from_str("sh"),
            args,
            working_dir: None,
            timeout: None,
            log_category: None,
            target: ExecutionTarget::Local,
        };
        assert(r@.args =~= seq![seq!['-', 'c'], command@]);
        assert(r@.command =~= seq!['s', 'h']);
        r
    }

    /// Add a command argument
    pub fn arg(self, arg: &str) -> (r: Self)
        ensures
            r@ == (CommandBuilderView { args: self@.args.push(arg@), ..self@ }),
    {
        let mut s = self;
        s.args.push(arg.to_string());
        assert(s@.args =~= self@.args.push(arg@));
        s
    }

    /// Set working directory
    pub fn working_dir(self, dir: &str) -> (r: Self)
        ensures
            r@ == (CommandBuilderView { working_dir: Some(dir@), ..self@ }),
    {
        let mut s = self;
        s.working_dir = Some(dir.to_string());
        s
    }

    /// Set execution timeout
    pub fn timeout(self, duration: std::time::Duration) -> (r: Self)
        ensures
            r@ == (CommandBuilderView { timeout: Some(duration), ..self@ }),
    {
        let mut s = self;
        s.timeout = Some(duration);
        s
    }

    /// Set log category for file-system logging
    pub fn log_as(self, category: &str) -> (r: Self)
        ensures
            r@ == (CommandBuilderView { log_category: Some(category@), ..self@ }),
    {
        let mut s = self;
        s.log_category = Some(category.to_string());
        s
    }

    /// Get the log category
    pub fn log_category(&self) -> (r: Option<&str>)
        ensures
            r matches Some(c) ==> self@.log_category == Some(c@),
            r is None ==> self@.log_category is None,
    {
        match &self.log_category {
            Some(c) => Some(c.as_str()),
            None => None,
        }
    }

    /// Get the working directory path
    pub fn get_working_dir(&self) -> (r: Option<&str>)
        ensures
            r matches Some(c) ==> self@.working_dir == Some(c@),
            r is None ==> self@.working_dir is None,
    {
        match &self.working_dir {
            Some(c) => Some(c.as_str()),
            None => None,
        }
    }

    /// The program to run.
    pub fn command(&self) -> (r: &str)
        ensures
            r@ == self@.command,
    {
        self.command.as_str()
    }

    /// The arguments, in order.
    pub fn args(&self) -> (r: &Vec<String>)
        ensures
            r@.map_values(|a: String| a@) == self@.args,
    {
        &self.args
    }

    /// Validate command for security issues: the program must be on the
    /// whitelist. In shell mode (`sh`, `bash`) the shell command itself comes
    /// from trusted project configuration and is accepted as it is.
    pub fn validate(&self) -> (r: Result<(), CommandError>)
        ensures
            r is Ok <==> is_allowed_command(self@.command),
            r matches Err(e) ==> e == CommandError::NotWhitelisted,
    {
        if !allowed(self.command.as_str()) {
            return Err(CommandError::NotWhitelisted);
        }
        if self.command.as_str() == "sh" || self.command.as_str() == "bash" {
            if self.args.len() > 1 {
                self.validate_shell_command(self.args[1].as_str())?;
            }
        }
        Ok(())
    }

    /// Validate a shell command. Shell commands come from trusted `byte.toml`
    /// configuration, so pipes, logical operators and redirection are allowed.
    pub fn validate_shell_command(&self, cmd: &str) -> (r: Result<(), CommandError>)
        ensures
            r is Ok,
    {
        Ok(())
    }

    /// Register a progress callback (progress is not reported yet): the builder is unchanged.
    pub fn with_progress<F>(self, callback: F) -> (r: Self) where F: Fn(ExecutionProgress)
        ensures
            r@ == self@,
    {
        self
    }

    /// Create a git command: `git <subcommand>`.
    pub fn git(subcommand: &str) -> (r: Self)
        ensures
            r@ == fresh_builder(seq!['g', 'i', 't'], seq![subcommand@]),
    {
        proof {
            reveal_strlit("git");
            assert("git"@ =~= seq!['g', 'i', 't']);
        }
        let r = Self::new("git").arg(subcommand);
        assert(r@.args =~= seq![subcommand@]);
        r
    }
}

/// The editors tried, in order, when neither `$EDITOR` nor `$VISUAL` names one.
pub open spec fn fallback_editor_names() -> Seq<Seq<char>> {
    seq!["vim"@, "nano"@, "vi"@, "emacs"@]
}

pub fn fallback_editors() -> (r: Vec<&'static str>)
    ensures
        r@.len() == fallback_editor_names().len(),
        forall|i: int| 0 <= i < r@.len() ==> #[trigger] r@[i]@ == fallback_editor_names()[i],
{
    let r = vec!["vim", "nano", "vi", "emacs"];
    assert(r@.len() == 4);
    r
}

/// The first of `names` that was found (`found[i]` tells whether `names[i]`
/// was), if any.
pub open spec fn first_found(names: Seq<Seq<char>>, found: Seq<bool>) -> Option<Seq<char>>
    decreases found.len(),
{
    if found.len() == 0 || names.len() == 0 {
        None
    } else if found[0] {
        Some(names[0])
    } else {
        first_found(names.drop_first(), found.drop_first())
    }
}

/// The editor to open files in: `$EDITOR`, else `$VISUAL`, else the first
/// fallback editor found on the system, else `vi`.
pub open spec fn editor_choice_of(
    editor: Option<Seq<char>>,
    visual: Option<Seq<char>>,
    found: Seq<bool>,
) -> Seq<char> {
    match editor {
        Some(e) => e,
        None => match visual {
            Some(v) => v,
            None => match first_found(fallback_editor_names(), found) {
                Some(n) => n,
                None => "vi"@,
            },
        },
    }
}

/// Pick the editor from the two variables and which fallback editors were
/// found, in order (`found[i]` for the `i`-th fallback editor; the search may
/// stop at the first one found).
pub fn choose_editor(editor: Option<&str>, visual: Option<&str>, found: &Vec<bool>) -> (r: String)
    ensures
        r@ == editor_choice_of(
            match editor {
                Some(e) => Some(e@),
                None => None,
            },
            match visual {
                Some(v) => Some(v@),
                None => None,
            },
            found@,
        ),
{
    if let Some(e) = editor {
        return e.to_string();
    }
    if let Some(v) = visual {
        return v.to_string();
    }
    let names = fallback_editors();
    let mut i: usize = 0;
    assert(fallback_editor_names().subrange(0, 4) =~= fallback_editor_names());
    assert(found@.subrange(0, found@.len() as int) =~= found@);
    while i < found.len() && i < names.len()
        invariant
            editor is None && visual is None,
            i <= found@.len(),
            i <= names@.len(),
            names@.len() == fallback_editor_names().len(),
            forall|k: int| 0 <= k < names@.len() ==> #[trigger] names@[k]@ == fallback_editor_names()[k],
            first_found(fallback_editor_names(), found@) == first_found(
                fallback_editor_names().subrange(i as int, 4),
                found@.subrange(i as int, found@.len() as int),
            ),
        decreases found.len() - i,
    {
        let ghost ns = fallback_editor_names().subrange(i as int, 4);
        let ghost fs = found@.subrange(i as int, found@.len() as int);
        assert(ns.drop_first() =~= fallback_editor_names().subrange(i + 1, 4));
        assert(fs.drop_first() =~= found@.subrange(i + 1, found@.len() as int));
        if found[i] {
            assert(fs.len() > 0 && ns.len() > 0 && fs[0]);
            assert(ns[0] == names@[i as int]@);
            let chosen: &str = names[i];
            assert(first_found(ns, fs) == Some(ns[0]));
            return String::from_str(chosen);
        }
        i = i + 1;
    }
    proof {
        let ns = fallback_editor_names().subrange(i as int, 4);
        let fs = found@.subrange(i as int, found@.len() as int);
        assert(fs.len() == 0 || ns.len() == 0);
    }
    String::from_str("vi")
}

/// The programs that `validate` lets run are exactly the ones the refusal
/// message lists: the Rust, Go and JavaScript tool chains (cargo, rustc,
/// rustfmt, clippy-driver, go, gofmt, bun, npm, node, npx), git, make and
/// cmake, python and python3, the shells sh and bash, which, and the editors
/// vim, nano, vi and emacs.
pub proof fn law_whitelist(c: Seq<char>)
    ensures
        is_allowed_command(c) <==> {
            ||| c == "cargo"@
            ||| c == "rustc"@
            ||| c == "rustfmt"@
            ||| c == "clippy-driver"@
            ||| c == "go"@
            ||| c == "gofmt"@
            ||| c == "bun"@
            ||| c == "npm"@
            ||| c == "node"@
            ||| c == "npx"@
            ||| c == "git"@
            ||| c == "make"@
            ||| c == "cmake"@
            ||| c == "python"@
            ||| c == "python3"@
            ||| c == "sh"@
            ||| c == "bash"@
            ||| c == "which"@
            ||| c == "vim"@
            ||| c == "nano"@
            ||| c == "vi"@
            ||| c == "emacs"@
        },
{
    reveal_strlit("cargo");
    assert("cargo"@ =~= seq!['c', 'a', 'r', 'g', 'o']);
    reveal_strlit("rustc");
    assert("rustc"@ =~= seq!['r', 'u', 's', 't', 'c']);
    reveal_strlit("rustfmt");
    assert("rustfmt"@ =~= seq!['r', 'u', 's', 't', 'f', 'm', 't']);
    reveal_strlit("clippy-driver");
    assert("clippy-driver"@ =~= seq!['c', 'l', 'i', 'p', 'p', 'y', '-', 'd', 'r', 'i', 'v', 'e', 'r']);
    reveal_strlit("go");
    assert("go"@ =~= seq!['g', 'o']);
    reveal_strlit("gofmt");
    assert("gofmt"@ =~= seq!['g', 'o', 'f', 'm', 't']);
    reveal_strlit("bun");
    assert("bun"@ =~= seq!['b', 'u', 'n']);
    reveal_strlit("npm");
    assert("npm"@ =~= seq!['n', 'p', 'm']);
    reveal_strlit("node");
    assert("node"@ =~= seq!['n', 'o', 'd', 'e']);
    reveal_strlit("npx");
    assert("npx"@ =~= seq!['n', 'p', 'x']);
    reveal_strlit("git");
    assert("git"@ =~= seq!['g', 'i', 't']);
    reveal_strlit("make");
    assert("make"@ =~= seq!['m', 'a', 'k', 'e']);
    reveal_strlit("cmake");
    assert("cmake"@ =~= seq!['c', 'm', 'a', 'k', 'e']);
    reveal_strlit("python");
    assert("python"@ =~= seq!['p', 'y', 't', 'h', 'o', 'n']);
    reveal_strlit("python3");
    assert("python3"@ =~= seq!['p', 'y', 't', 'h', 'o', 'n', '3']);
    reveal_strlit("sh");
    assert("sh"@ =~= seq!['s', 'h']);
    reveal_strlit("bash");
    assert("bash"@ =~= seq!['b', 'a', 's', 'h']);
    reveal_strlit("which");
    assert("which"@ =~= seq!['w', 'h', 'i', 'c', 'h']);
    reveal_strlit("vim");
    assert("vim"@ =~= seq!['v', 'i', 'm']);
    reveal_strlit("nano");
    assert("nano"@ =~= seq!['n', 'a', 'n', 'o']);
    reveal_strlit("vi");
    assert("vi"@ =~= seq!['v', 'i']);
    reveal_strlit("emacs");
    assert("emacs"@ =~= seq!['e', 'm', 'a', 'c', 's']);
}

} // verus!
