//! Project names, discovery of projects, and the report of a discovery.
use vstd::prelude::*;

use crate::config::{GlobalConfig, ProjectConfig};
use crate::exec::{fresh_builder, CommandBuilder, CommandBuilderView};
use crate::path::{input_verdict, PathError, SafePath};
use crate::text::{
    all_white_space, all_whitespace, ascii_lower, chars_of, contains_char, is_alphanumeric_ascii,
    concat3, decimal_text, is_ascii_alphanumeric, lower_chars, same_chars, u64_to_text,
};

verus! {

/// A project found on disk: its directory and its `byte.toml`.
#[derive(Debug, Clone)]
pub struct DiscoveredProject {
    pub path: String,
    pub config: ProjectConfig,
}

/// A directory to look for projects in, as the configuration names it, and
/// the checked path or why it was refused.
#[derive(Debug)]
pub struct ScanRoot {
    pub configured: String,
    pub path: Result<SafePath, PathError>,
}

/// The directories to scan, in order: the primary workspace if it is scanned
/// automatically, then each registered directory.
pub open spec fn scan_roots_of(g: GlobalConfig) -> Seq<Seq<char>> {
    let reg = g.workspace.registered@.map_values(|r: String| r@);
    if g.workspace.auto_scan {
        seq![g.workspace.path@] + reg
    } else {
        reg
    }
}

/// The directories to scan for projects, each checked as a path given by the
/// user (a refused one is reported and skipped by the scan).
pub fn discovery_roots(global_config: &GlobalConfig) -> (r: Vec<ScanRoot>)
    ensures
        r@.len() == scan_roots_of(*global_config).len(),
        forall|i: int|
            0 <= i < r@.len() ==> {
                &&& #[trigger] r@[i].configured@ == scan_roots_of(*global_config)[i]
                &&& (r@[i].path is Ok <==> input_verdict(r@[i].configured@) is Ok)
                &&& (r@[i].path matches Ok(p) ==> p@.original == r@[i].configured@)
                &&& (r@[i].path matches Err(e) ==> input_verdict(r@[i].configured@) == Err::<(), PathError>(e))
            },
{
    let ghost roots = scan_roots_of(*global_config);
    let ghost reg = global_config.workspace.registered@.map_values(|r: String| r@);
    let mut out: Vec<ScanRoot> = Vec::new();
    let ghost offset: int = 0;
    if global_config.workspace.auto_scan {
        let c = global_config.workspace.path.clone();
        let p = SafePath::from_user_input(c.as_str());
        out.push(ScanRoot { configured: c, path: p });
        proof {
            offset = 1;
        }
    }
    let mut i: usize = 0;
    while i < global_config.workspace.registered.len()
        invariant
            i <= global_config.workspace.registered@.len(),
            roots == scan_roots_of(*global_config),
            reg == global_config.workspace.registered@.map_values(|r: String| r@),
            offset == (if global_config.workspace.auto_scan { 1int } else { 0int }),
            out@.len() == offset + i,
            forall|k: int|
                0 <= k < out@.len() ==> {
                    &&& #[trigger] out@[k].configured@ == roots[k]
                    &&& (out@[k].path is Ok <==> input_verdict(out@[k].configured@) is Ok)
                    &&& (out@[k].path matches Ok(p) ==> p@.original == out@[k].configured@)
                    &&& (out@[k].path matches Err(e) ==> input_verdict(out@[k].configured@) == Err::<(), PathError>(e))
                },
        decreases global_config.workspace.registered.len() - i,
    {
        let c = global_config.workspace.registered[i].clone();
        assert(roots[offset + i] == reg[i as int]);
        let p = SafePath::from_user_input(c.as_str());
        out.push(ScanRoot { configured: c, path: p });
        i = i + 1;
    }
    out
}

/// The projects of all scans, in order: `None` stands for a directory that
/// was skipped or whose scan failed.
pub open spec fn all_found(found: Seq<Option<Vec<DiscoveredProject>>>) -> Seq<DiscoveredProject>
    decreases found.len(),
{
    if found.len() == 0 {
        seq![]
    } else {
        (match found[0] {
            Some(v) => v@,
            None => seq![],
        }) + all_found(found.drop_first())
    }
}

/// All projects found, in the order of the directories scanned: `found`
/// holds what the scan of each directory gave (`None` where it was skipped or failed).
pub fn discover_projects(found: Vec<Option<Vec<DiscoveredProject>>>) -> (r: Vec<DiscoveredProject>)
    ensures
        r@ == all_found(found@),
{
    let mut out: Vec<DiscoveredProject> = Vec::new();
    let mut rest = found;
    let ghost all = rest@;
    while rest.len() > 0
        invariant
            all_found(all) == out@ + all_found(rest@),
        decreases rest.len(),
    {
        let ghost before = rest@;
        let item = rest.remove(0);
        assert(rest@ =~= before.drop_first());
        let ghost got = match &item {
            Some(v) => v@,
            None => Seq::<DiscoveredProject>::empty(),
        };
        match item {
            Some(mut v) => {
                out.append(&mut v);
            },
            None => {},
        }
        assert(out@ + all_found(rest@) =~= (out@ + all_found(rest@)));
        assert(all_found(before) == got + all_found(rest@));
        assert(out@ + all_found(rest@) =~= all_found(all));
    }
    assert(out@ + all_found(rest@) =~= out@);
    out
}

/// Why a project name was refused, in the order in which the checks are made.
#[derive(Debug, Clone, Copy, PartialEq, Eq, Structural)]
pub enum ProjectNameError {
    /// Empty, or nothing but white space.
    Empty,
    /// Holds `/`, `\` or a NUL character.
    PathSeparator,
    /// A reserved name (compared without regard to ASCII case).
    Reserved,
    /// More than 255 bytes in UTF-8.
    TooLong,
    /// Holds a character other than an ASCII letter or digit, `-`, `_` or `.`.
    InvalidCharacter,
    /// Starts with `.`.
    LeadingDot,
    /// Starts with `-`.
    LeadingHyphen,
    /// Ends with `.`.
    TrailingDot,
}

/// How a refusal of the project name `name` reads to the user (`bytes` is the
/// name's length in bytes).
pub open spec fn name_error_text(e: ProjectNameError, name: Seq<char>, bytes: nat) -> Seq<char> {
    match e {
        ProjectNameError::Empty => "Project name cannot be empty"@,
        ProjectNameError::PathSeparator => "Project name cannot contain path separators (/, \\, or null bytes)"@,
        ProjectNameError::Reserved => "Project name '"@ + name + "' is reserved and cannot be used"@,
        ProjectNameError::TooLong => "Project name too long ("@ + decimal_text(bytes as int)
            + " characters). Maximum is 255."@,
        ProjectNameError::InvalidCharacter => "Project name can only contain ASCII letters, numbers, hyphens (-), underscores (_), and dots (.). Got: '"@
            + name + "'"@,
        ProjectNameError::LeadingDot => "Project name cannot start with '.' (would create hidden directory)"@,
        ProjectNameError::LeadingHyphen => "Project name cannot start with '-' (conflicts with command flags)"@,
        ProjectNameError::TrailingDot => "Project name cannot end with '.'"@,
    }
}

impl ProjectNameError {
    /// The message of the refusal of the project name `name`.
    pub fn message(&self, name: &str) -> (r: String)
        ensures
            r@ == name_error_text(*self, name@, name.len() as nat),
    {
        match self {
            ProjectNameError::Empty => String::from_str("Project name cannot be empty"),
            ProjectNameError::PathSeparator => String::from_str(
                "Project name cannot contain path separators (/, \\, or null bytes)",
            ),
            ProjectNameError::Reserved => concat3("Project name '", name, "' is reserved and cannot be used"),
            ProjectNameError::TooLong => {
                let n = u64_to_text(name.len() as u64);
                concat3("Project name too long (", n.as_str(), " characters). Maximum is 255.")
            },
            ProjectNameError::InvalidCharacter => concat3(
                "Project name can only contain ASCII letters, numbers, hyphens (-), underscores (_), and dots (.). Got: '",
                name,
                "'",
            ),
            ProjectNameError::LeadingDot => String::from_str(
                "Project name cannot start with '.' (would create hidden directory)",
            ),
            ProjectNameError::LeadingHyphen => String::from_str(
                "Project name cannot start with '-' (conflicts with command flags)",
            ),
            ProjectNameError::TrailingDot => String::from_str("Project name cannot end with '.'"),
        }
    }
}

/// Names that a project may not take: directory names that tools give a
/// meaning to, and the device names of Windows. All are in lower case.
pub open spec fn is_reserved_name(s: Seq<char>) -> bool {
    ||| s == seq!['.']
    ||| s == seq!['.', '.']
    ||| s == seq!['.', 'g', 'i', 't']
    ||| s == seq!['.', 'b', 'y', 't', 'e']
    ||| s == seq!['t', 'a', 'r', 'g', 'e', 't']
    ||| s == seq!['n', 'o', 'd', 'e', '_', 'm', 'o', 'd', 'u', 'l', 'e', 's']
    ||| s == seq!['d', 'i', 's', 't']
    ||| s == seq!['b', 'u', 'i', 'l', 'd']
    ||| s == seq!['o', 'u', 't']
    ||| s == seq!['.', 'v', 's', 'c', 'o', 'd', 'e']
    ||| s == seq!['.', 'i', 'd', 'e', 'a']
    ||| s == seq!['.', 'v', 's']
    ||| s == seq!['.', 'f', 'l', 'e', 'e', 't']
    ||| s == seq!['c', 'o', 'n']
    ||| s == seq!['p', 'r', 'n']
    ||| s == seq!['a', 'u', 'x']
    ||| s == seq!['n', 'u', 'l']
    ||| (s.len() == 4 && s[0] == 'c' && s[1] == 'o' && s[2] == 'm' && '1' <= s[3] && s[3] <= '9')
    ||| (s.len() == 4 && s[0] == 'l' && s[1] == 'p' && s[2] == 't' && '1' <= s[3] && s[3] <= '9')
}

/// The characters a project name may hold.
pub open spec fn is_name_char(c: char) -> bool {
    is_ascii_alphanumeric(c) || c == '-' || c == '_' || c == '.'
}

/// The outcome of validating a project name, given its characters and its
/// length in UTF-8 bytes. The checks come in this order, and the first that
/// fails decides the error.
pub open spec fn project_name_verdict(name: Seq<char>, byte_len: nat) -> Result<
    (),
    ProjectNameError,
> {
    if all_white_space(name) {
        Err(ProjectNameError::Empty)
    } else if name.contains('/') || name.contains('\\') || name.contains('\0') {
        Err(ProjectNameError::PathSeparator)
    } else if is_reserved_name(ascii_lower(name)) {
        Err(ProjectNameError::Reserved)
    } else if byte_len > 255 {
        Err(ProjectNameError::TooLong)
    } else if !(forall|i: int| 0 <= i < name.len() ==> is_name_char(#[trigger] name[i])) {
        Err(ProjectNameError::InvalidCharacter)
    } else if name[0] == '.' {
        Err(ProjectNameError::LeadingDot)
    } else if name[0] == '-' {
        Err(ProjectNameError::LeadingHyphen)
    } else if name[name.len() - 1] == '.' {
        Err(ProjectNameError::TrailingDot)
    } else {
        Ok(())
    }
}

fn is_reserved(s: &Vec<char>) -> (r: bool)
    ensures
        r == is_reserved_name(s@),
{
    let n = s.len();
    if n == 4 && ((s[0] == 'c' && s[1] == 'o' && s[2] == 'm') || (s[0] == 'l' && s[1] == 'p'
        && s[2] == 't')) && '1' <= s[3] && s[3] <= '9' {
        return true;
    }
    let lit = vec!['.'];
    assert(lit@ == seq!['.']);
    if same_chars(s, &lit) {
        return true;
    }
    let lit = vec!['.', '.'];
    assert(lit@ == seq!['.', '.']);
    if same_chars(s, &lit) {
        return true;
    }
    let lit = vec!['.', 'g', 'i', 't'];
    assert(lit@ == seq!['.', 'g', 'i', 't']);
    if same_chars(s, &lit) {
        return true;
    }
    let lit = vec!['.', 'b', 'y', 't', 'e'];
    assert(lit@ == seq!['.', 'b', 'y', 't', 'e']);
    if same_chars(s, &lit) {
        return true;
    }
    let lit = vec!['t', 'a', 'r', 'g', 'e', 't'];
    assert(lit@ == seq!['t', 'a', 'r', 'g', 'e', 't']);
    if same_chars(s, &lit) {
        return true;
    }
    let lit = vec!['n', 'o', 'd', 'e', '_', 'm', 'o', 'd', 'u', 'l', 'e', 's'];
    assert(lit@ == seq!['n', 'o', 'd', 'e', '_', 'm', 'o', 'd', 'u', 'l', 'e', 's']);
    if same_chars(s, &lit) {
        return true;
    }
    let lit = vec!['d', 'i', 's', 't'];
    assert(lit@ == seq!['d', 'i', 's', 't']);
    if same_chars(s, &lit) {
        return true;
    }
    let lit = vec!['b', 'u', 'i', 'l', 'd'];
    assert(lit@ == seq!['b', 'u', 'i', 'l', 'd']);
    if same_chars(s, &lit) {
        return true;
    }
    let lit = vec!['o', 'u', 't'];
    assert(lit@ == seq!['o', 'u', 't']);
    if same_chars(s, &lit) {
        return true;
    }
    let lit = vec!['.', 'v', 's', 'c', 'o', 'd', 'e'];
    assert(lit@ == seq!['.', 'v', 's', 'c', 'o', 'd', 'e']);
    if same_chars(s, &lit) {
        return true;
    }
    let lit = vec!['.', 'i', 'd', 'e', 'a'];
    assert(lit@ == seq!['.', 'i', 'd', 'e', 'a']);
    if same_chars(s, &lit) {
        return true;
    }
    let lit = vec!['.', 'v', 's'];
    assert(lit@ == seq!['.', 'v', 's']);
    if same_chars(s, &lit) {
        return true;
    }
    let lit = vec!['.', 'f', 'l', 'e', 'e', 't'];
    assert(lit@ == seq!['.', 'f', 'l', 'e', 'e', 't']);
    if same_chars(s, &lit) {
        return true;
    }
    let lit = vec!['c', 'o', 'n'];
    assert(lit@ == seq!['c', 'o', 'n']);
    if same_chars(s, &lit) {
        return true;
    }
    let lit = vec!['p', 'r', 'n'];
    assert(lit@ == seq!['p', 'r', 'n']);
    if same_chars(s, &lit) {
        return true;
    }
    let lit = vec!['a', 'u', 'x'];
    assert(lit@ == seq!['a', 'u', 'x']);
    if same_chars(s, &lit) {
        return true;
    }
    let lit = vec!['n', 'u', 'l'];
    assert(lit@ == seq!['n', 'u', 'l']);
    if same_chars(s, &lit) {
        return true;
    }
    false
}

fn all_name_chars(s: &Vec<char>) -> (r: bool)
    ensures
        r == (forall|i: int| 0 <= i < s@.len() ==> is_name_char(#[trigger] s@[i])),
{
    let mut i: usize = 0;
    while i < s.len()
        invariant
            i <= s.len(),
            forall|j: int| 0 <= j < i ==> is_name_char(#[trigger] s@[j]),
        decreases s.len() - i,
    {
        let c = s[i];
        if !(is_alphanumeric_ascii(c) || c == '-' || c == '_' || c == '.') {
            assert(!is_name_char(s@[i as int]));
            return false;
        }
        i = i + 1;
    }
    true
}

/// Validates a project name for safety and filesystem compatibility: no path
/// traversal, no reserved name, at most 255 bytes, only ASCII letters, digits,
/// `-`, `_` and `.`, not starting with `.` or `-`, not ending with `.`.
pub fn validate_project_name(name: &str) -> (r: Result<(), ProjectNameError>)
    ensures
        r == project_name_verdict(name@, name.len() as nat),
{
    let chars = chars_of(name);
    if all_whitespace(&chars) {
        return Err(ProjectNameError::Empty);
    }
    if contains_char(&chars, '/') || contains_char(&chars, '\\') || contains_char(&chars, '\0') {
        return Err(ProjectNameError::PathSeparator);
    }
    let lower = lower_chars(&chars);
    if is_reserved(&lower) {
        return Err(ProjectNameError::Reserved);
    }
    if name.len() > 255 {
        return Err(ProjectNameError::TooLong);
    }
    if !all_name_chars(&chars) {
        return Err(ProjectNameError::InvalidCharacter);
    }
    let n = chars.len();
    if chars[0] == '.' {
        return Err(ProjectNameError::LeadingDot);
    }
    if chars[0] == '-' {
        return Err(ProjectNameError::LeadingHyphen);
    }
    if chars[n - 1] == '.' {
        return Err(ProjectNameError::TrailingDot);
    }
    Ok(())
}

/// The commands that make a new project a git repository with a first
/// commit, run in `dir`: `git init`, `git add .`, and
/// `git commit -m "Initial commit: <name> project"`.
pub open spec fn git_init_plan(dir: Seq<char>, name: Seq<char>) -> Seq<CommandBuilderView> {
    let git = seq!['g', 'i', 't'];
    seq![
        CommandBuilderView { working_dir: Some(dir), ..fresh_builder(git, seq!["init"@]) },
        CommandBuilderView { working_dir: Some(dir), ..fresh_builder(git, seq!["add"@, "."@]) },
        CommandBuilderView {
            working_dir: Some(dir),
            ..fresh_builder(
                git,
                seq!["commit"@, "-m"@, "Initial commit: "@ + name + " project"@],
            )
        },
    ]
}

pub fn git_init_commands(dir: &str, name: &str) -> (r: Vec<CommandBuilder>)
    ensures
        r@.len() == 3,
        forall|i: int| 0 <= i < 3 ==> #[trigger] r@[i]@ == git_init_plan(dir@, name@)[i],
{
    let init = CommandBuilder::git("init").working_dir(dir);
    let add = CommandBuilder::git("add").arg(".").working_dir(dir);
    let mut message = String::from_str("Initial commit: ");
    message.append(name);
    message.append(" project");
    let commit = CommandBuilder::git("commit").arg("-m").arg(message.as_str()).working_dir(dir);
    let mut v: Vec<CommandBuilder> = Vec::new();
    v.push(init);
    v.push(add);
    v.push(commit);
    assert(add@.args =~= seq!["add"@, "."@]);
    assert(commit@.args =~= seq!["commit"@, "-m"@, "Initial commit: "@ + name@ + " project"@]);
    v
}

/// An accepted project name is one plain path component: not empty, no
/// separator or NUL, not `.` or `..`, not hidden, not a flag, and no longer
/// than 255 bytes.
pub proof fn law_accepted_names_are_plain_components(name: Seq<char>, byte_len: nat)
    requires
        project_name_verdict(name, byte_len) is Ok,
    ensures
        name.len() > 0,
        !name.contains('/') && !name.contains('\\') && !name.contains('\0'),
        name != seq!['.'] && name != seq!['.', '.'],
        name[0] != '.' && name[0] != '-',
        byte_len <= 255,
        forall|i: int| 0 <= i < name.len() ==> is_name_char(#[trigger] name[i]),
{
    if name.len() == 0 {
        assert(all_white_space(name));
    }
}

/// Whether a name is reserved does not depend on its ASCII case.
pub proof fn law_reserved_ignores_case(a: Seq<char>, b: Seq<char>)
    requires
        ascii_lower(a) == ascii_lower(b),
    ensures
        is_reserved_name(ascii_lower(a)) == is_reserved_name(ascii_lower(b)),
{
}

/// The reserved project names (compared in lower case) are exactly these:
/// `.`, `..`, `.git` and `.byte`; the build output directories `target`,
/// `node_modules`, `dist`, `build` and `out`; the editor directories
/// `.vscode`, `.idea`, `.vs` and `.fleet`; and the device names of Windows,
/// `con`, `prn`, `aux`, `nul`, `com1` to `com9` and `lpt1` to `lpt9`.
pub proof fn law_reserved_names(s: Seq<char>)
    ensures
        is_reserved_name(s) <==> {
            ||| s == "."@
            ||| s == ".."@
            ||| s == ".git"@
            ||| s == ".byte"@
            ||| s == "target"@
            ||| s == "node_modules"@
            ||| s == "dist"@
            ||| s == "build"@
            ||| s == "out"@
            ||| s == ".vscode"@
            ||| s == ".idea"@
            ||| s == ".vs"@
            ||| s == ".fleet"@
            ||| s == "con"@
            ||| s == "prn"@
            ||| s == "aux"@
            ||| s == "nul"@
            ||| s == "com1"@
            ||| s == "com2"@
            ||| s == "com3"@
            ||| s == "com4"@
            ||| s == "com5"@
            ||| s == "com6"@
            ||| s == "com7"@
            ||| s == "com8"@
            ||| s == "com9"@
            ||| s == "lpt1"@
            ||| s == "lpt2"@
            ||| s == "lpt3"@
            ||| s == "lpt4"@
            ||| s == "lpt5"@
            ||| s == "lpt6"@
            ||| s == "lpt7"@
            ||| s == "lpt8"@
            ||| s == "lpt9"@
        },
{
    reveal_strlit(".");
    assert("."@ =~= seq!['.']);
    reveal_strlit("..");
    assert(".."@ =~= seq!['.', '.']);
    reveal_strlit(".git");
    assert(".git"@ =~= seq!['.', 'g', 'i', 't']);
    reveal_strlit(".byte");
    assert(".byte"@ =~= seq!['.', 'b', 'y', 't', 'e']);
    reveal_strlit("target");
    assert("target"@ =~= seq!['t', 'a', 'r', 'g', 'e', 't']);
    reveal_strlit("node_modules");
    assert("node_modules"@ =~= seq!['n', 'o', 'd', 'e', '_', 'm', 'o', 'd', 'u', 'l', 'e', 's']);
    reveal_strlit("dist");
    assert("dist"@ =~= seq!['d', 'i', 's', 't']);
    reveal_strlit("build");
    assert("build"@ =~= seq!['b', 'u', 'i', 'l', 'd']);
    reveal_strlit("out");
    assert("out"@ =~= seq!['o', 'u', 't']);
    reveal_strlit(".vscode");
    assert(".vscode"@ =~= seq!['.', 'v', 's', 'c', 'o', 'd', 'e']);
    reveal_strlit(".idea");
    assert(".idea"@ =~= seq!['.', 'i', 'd', 'e', 'a']);
    reveal_strlit(".vs");
    assert(".vs"@ =~= seq!['.', 'v', 's']);
    reveal_strlit(".fleet");
    assert(".fleet"@ =~= seq!['.', 'f', 'l', 'e', 'e', 't']);
    reveal_strlit("con");
    assert("con"@ =~= seq!['c', 'o', 'n']);
    reveal_strlit("prn");
    assert("prn"@ =~= seq!['p', 'r', 'n']);
    reveal_strlit("aux");
    assert("aux"@ =~= seq!['a', 'u', 'x']);
    reveal_strlit("nul");
    assert("nul"@ =~= seq!['n', 'u', 'l']);
    reveal_strlit("com1");
    assert("com1"@ =~= seq!['c', 'o', 'm', '1']);
    reveal_strlit("com2");
    assert("com2"@ =~= seq!['c', 'o', 'm', '2']);
    reveal_strlit("com3");
    assert("com3"@ =~= seq!['c', 'o', 'm', '3']);
    reveal_strlit("com4");
    assert("com4"@ =~= seq!['c', 'o', 'm', '4']);
    reveal_strlit("com5");
    assert("com5"@ =~= seq!['c', 'o', 'm', '5']);
    reveal_strlit("com6");
    assert("com6"@ =~= seq!['c', 'o', 'm', '6']);
    reveal_strlit("com7");
    assert("com7"@ =~= seq!['c', 'o', 'm', '7']);
    reveal_strlit("com8");
    assert("com8"@ =~= seq!['c', 'o', 'm', '8']);
    reveal_strlit("com9");
    assert("com9"@ =~= seq!['c', 'o', 'm', '9']);
    reveal_strlit("lpt1");
    assert("lpt1"@ =~= seq!['l', 'p', 't', '1']);
    reveal_strlit("lpt2");
    assert("lpt2"@ =~= seq!['l', 'p', 't', '2']);
    reveal_strlit("lpt3");
    assert("lpt3"@ =~= seq!['l', 'p', 't', '3']);
    reveal_strlit("lpt4");
    assert("lpt4"@ =~= seq!['l', 'p', 't', '4']);
    reveal_strlit("lpt5");
    assert("lpt5"@ =~= seq!['l', 'p', 't', '5']);
    reveal_strlit("lpt6");
    assert("lpt6"@ =~= seq!['l', 'p', 't', '6']);
    reveal_strlit("lpt7");
    assert("lpt7"@ =~= seq!['l', 'p', 't', '7']);
    reveal_strlit("lpt8");
    assert("lpt8"@ =~= seq!['l', 'p', 't', '8']);
    reveal_strlit("lpt9");
    assert("lpt9"@ =~= seq!['l', 'p', 't', '9']);
    if s.len() == 4 && (s[0] == 'c' || s[0] == 'l') && '1' <= s[3] && s[3] <= '9' {
        assert(s =~= seq![s[0], s[1], s[2], s[3]]);
    }
}

} // verus!
