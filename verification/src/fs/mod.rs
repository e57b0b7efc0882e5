//! The file layout of a Byte project: its `.byte/` runtime directories, the
//! starter files of each ecosystem, its `.gitignore`, and where command logs go.
use vstd::prelude::*;

use crate::logger::{beyond_newest, has, newest, newest_first};
use crate::path::{extension_of, file_name_of, join_path, joined, path_extension, path_file_name};
use crate::text::{concat2, lemma_find_from_bounds, occurs_at, str_eq};

verus! {

/// Something to create in a project: a directory, or a file with its content.
#[derive(Debug, Clone)]
pub enum FsEntry {
    Dir { path: String },
    File { path: String, content: String },
}

pub enum EntryView {
    Dir(Seq<char>),
    File(Seq<char>, Seq<char>),
}

impl View for FsEntry {
    type V = EntryView;

    open spec fn view(&self) -> EntryView {
        match self {
            FsEntry::Dir { path } => EntryView::Dir(path@),
            FsEntry::File { path, content } => EntryView::File(path@, content@),
        }
    }
}

pub open spec fn entries_view(v: Seq<FsEntry>) -> Seq<EntryView> {
    v.map_values(|e: FsEntry| e@)
}

/// Why a project structure could not be made.
#[derive(Debug, Clone)]
pub enum FsError {
    UnsupportedEcosystem { ecosystem: String },
    UnsupportedRustType { project_type: String },
    UnsupportedGoType { project_type: String },
}

/// How a failure to make a project structure reads to the user.
pub open spec fn fs_error_text(e: FsError) -> Seq<char> {
    match e {
        FsError::UnsupportedEcosystem { ecosystem } => "Unsupported ecosystem: "@ + ecosystem@,
        FsError::UnsupportedRustType { project_type } => "Unsupported Rust project type: "@ + project_type@,
        FsError::UnsupportedGoType { project_type } => "Unsupported Go project type: "@ + project_type@,
    }
}

impl FsError {
    /// The message of the failure.
    pub fn message(&self) -> (r: String)
        ensures
            r@ == fs_error_text(*self),
    {
        match self {
            FsError::UnsupportedEcosystem { ecosystem } => concat2("Unsupported ecosystem: ", ecosystem.as_str()),
            FsError::UnsupportedRustType { project_type } => concat2(
                "Unsupported Rust project type: ",
                project_type.as_str(),
            ),
            FsError::UnsupportedGoType { project_type } => concat2(
                "Unsupported Go project type: ",
                project_type.as_str(),
            ),
        }
    }
}

/// What initialising a project does: the entries to create, in order, and
/// the error it stops with, if any (after the entries before it were made).
pub struct InitPlan {
    pub entries: Vec<FsEntry>,
    pub error: Option<FsError>,
}

/// Metadata about a command log file. `timestamp` is when it was last
/// modified, in nanoseconds since the Unix epoch.
#[derive(Debug, Clone)]
pub struct LogFile {
    pub path: String,
    pub category: String,
    pub timestamp: i128,
    pub filename: String,
}

pub struct LogFileView {
    pub path: Seq<char>,
    pub category: Seq<char>,
    pub timestamp: i128,
    pub filename: Seq<char>,
}

impl View for LogFile {
    type V = LogFileView;

    open spec fn view(&self) -> LogFileView {
        LogFileView {
            path: self.path@,
            category: self.category@,
            timestamp: self.timestamp,
            filename: self.filename@,
        }
    }
}

pub open spec fn logs_view(v: Seq<LogFile>) -> Seq<LogFileView> {
    v.map_values(|l: LogFile| l@)
}

/// File system manager for a Byte project
pub struct ProjectFileSystem {
    project_root: String,
}

pub open spec fn byte_dir_of(root: Seq<char>) -> Seq<char> {
    joined(root, ".byte"@)
}

pub open spec fn log_dir_of(root: Seq<char>, category: Seq<char>) -> Seq<char> {
    joined(joined(joined(byte_dir_of(root), "logs"@), "commands"@), category)
}

/// The runtime structure: a log directory per log category, and the state directory.
pub open spec fn byte_structure_of(root: Seq<char>) -> Seq<EntryView> {
    seq![
        EntryView::Dir(log_dir_of(root, "build"@)),
        EntryView::Dir(log_dir_of(root, "lint"@)),
        EntryView::Dir(log_dir_of(root, "git"@)),
        EntryView::Dir(log_dir_of(root, "other"@)),
        EntryView::Dir(joined(byte_dir_of(root), "state"@)),
    ]
}

pub open spec fn rust_main() -> Seq<char> {
    "fn main() {\n    println!(\"Hello, world!\");\n}\n"@
}

pub open spec fn rust_lib() -> Seq<char> {
    "pub fn add(left: u64, right: u64) -> u64 {\n    left + right\n}\n\n#[cfg(test)]\nmod tests {\n    use super::*;\n\n    #[test]\n    fn it_works() {\n        let result = add(2, 2);\n        assert_eq!(result, 4);\n    }\n}\n"@
}

pub open spec fn go_main() -> Seq<char> {
    "package main\n\nimport \"fmt\"\n\nfunc main() {\n\tfmt.Println(\"Hello, world!\")\n}\n"@
}

pub open spec fn go_server() -> Seq<char> {
    "package main\n\nimport (\n\t\"fmt\"\n\t\"net/http\"\n)\n\nfunc main() {\n\thttp.HandleFunc(\"/\", func(w http.ResponseWriter, r *http.Request) {\n\t\tfmt.Fprintf(w, \"Hello, world!\")\n\t})\n\thttp.ListenAndServe(\":8080\", nil)\n}\n"@
}

pub open spec fn bun_index() -> Seq<char> {
    "console.log(\"Hello, world!\");\n"@
}

pub open spec fn gitignore_text() -> Seq<char> {
    "# Byte runtime data\n.byte/\n\n# Build artifacts\ntarget/\nnode_modules/\ndist/\nbuild/\n\n# IDE\n.vscode/\n.idea/\n*.swp\n*.swo\n\n# OS\n.DS_Store\nThumbs.db\n"@
}

/// The project's `byte.toml`: its name, type and ecosystem.
pub open spec fn byte_toml_text(name: Seq<char>, project_type: Seq<char>, ecosystem: Seq<char>) -> Seq<char> {
    "[project]\nname = \""@ + name + "\"\ntype = \""@ + project_type + "\"\necosystem = \""@ + ecosystem
        + "\"\n"@
}

/// A Rust project's `Cargo.toml`.
pub open spec fn cargo_toml_text(name: Seq<char>) -> Seq<char> {
    "[package]\nname = \""@ + name + "\"\nversion = \"0.1.0\"\nedition = \"2021\"\n\n[dependencies]\n"@
}

/// A Go project's `go.mod`.
pub open spec fn go_mod_text(name: Seq<char>) -> Seq<char> {
    "module "@ + name + "\n\ngo 1.21\n"@
}

/// A Bun project's `package.json`.
pub open spec fn package_json_text(name: Seq<char>) -> Seq<char> {
    "{\n  \"name\": \""@ + name + "\",\n  \"version\": \"0.1.0\",\n  \"module\": \"src/index.ts\",\n  \"type\": \"module\"\n}\n"@
}

fn between(before: &str, middle: &str, after: &str) -> (r: String)
    ensures
        r@ == before@ + middle@ + after@,
{
    let mut out = String::from_str(before);
    out.append(middle);
    out.append(after);
    out
}

fn byte_toml(name: &str, project_type: &str, ecosystem: &str) -> (r: String)
    ensures
        r@ == byte_toml_text(name@, project_type@, ecosystem@),
{
    let mut out = between("[project]\nname = \"", name, "\"\ntype = \"");
    out.append(project_type);
    out.append("\"\necosystem = \"");
    out.append(ecosystem);
    out.append("\"\n");
    out
}

/// What the ecosystem part of initialisation creates, and whether it
/// succeeds (`Some(kind)` names the failure: 0 ecosystem, 1 Rust type, 2 Go type).
pub open spec fn ecosystem_plan_of(
    root: Seq<char>,
    ecosystem: Seq<char>,
    project_type: Seq<char>,
    name: Seq<char>,
) -> (Seq<EntryView>, Option<int>) {
    if ecosystem == "rust"@ {
        let src = joined(root, "src"@);
        let manifest = EntryView::File(joined(root, "Cargo.toml"@), cargo_toml_text(name));
        if project_type == "cli"@ || project_type == "bin"@ {
            (
                seq![EntryView::Dir(src), EntryView::File(joined(src, "main.rs"@), rust_main()), manifest],
                None,
            )
        } else if project_type == "lib"@ {
            (
                seq![EntryView::Dir(src), EntryView::File(joined(src, "lib.rs"@), rust_lib()), manifest],
                None,
            )
        } else {
            (seq![EntryView::Dir(src)], Some(1))
        }
    } else if ecosystem == "go"@ {
        let tail = seq![
            EntryView::Dir(joined(root, "pkg"@)),
            EntryView::Dir(joined(root, "internal"@)),
            EntryView::File(joined(root, "go.mod"@), go_mod_text(name)),
        ];
        if project_type == "cli"@ || project_type == "bin"@ {
            let cmd = joined(joined(root, "cmd"@), name);
            (
                seq![EntryView::Dir(cmd), EntryView::File(joined(cmd, "main.go"@), go_main())]
                    + tail,
                None,
            )
        } else if project_type == "api"@ || project_type == "web"@ {
            let cmd = joined(joined(root, "cmd"@), "server"@);
            (
                seq![EntryView::Dir(cmd), EntryView::File(joined(cmd, "main.go"@), go_server())]
                    + tail,
                None,
            )
        } else {
            (seq![], Some(2))
        }
    } else if ecosystem == "bun"@ {
        let src = joined(root, "src"@);
        (
            seq![
                EntryView::Dir(src),
                EntryView::File(joined(src, "index.ts"@), bun_index()),
                EntryView::File(joined(root, "package.json"@), package_json_text(name)),
            ],
            None,
        )
    } else {
        (seq![], Some(0))
    }
}

/// Everything that initialising a project creates: the runtime structure,
/// the ecosystem's files (its manifest among them), then, unless the
/// ecosystem part failed, the `byte.toml` and the `.gitignore`.
pub open spec fn init_entries_of(
    root: Seq<char>,
    ecosystem: Seq<char>,
    project_type: Seq<char>,
    name: Seq<char>,
) -> Seq<EntryView> {
    let (eco, failure) = ecosystem_plan_of(root, ecosystem, project_type, name);
    if failure is None {
        byte_structure_of(root) + eco + seq![
            EntryView::File(joined(root, "byte.toml"@), byte_toml_text(name, project_type, ecosystem)),
            EntryView::File(joined(root, ".gitignore"@), gitignore_text()),
        ]
    } else {
        byte_structure_of(root) + eco
    }
}

fn dir(path: String) -> (r: FsEntry)
    ensures
        r@ == EntryView::Dir(path@),
{
    FsEntry::Dir { path }
}

fn file(path: String, content: &str) -> (r: FsEntry)
    ensures
        r@ == EntryView::File(path@, content@),
{
    FsEntry::File { path, content: content.to_string() }
}

impl ProjectFileSystem {
    /// A file system manager for the project at `root` (which the caller makes sure exists).
    pub fn new(root: &str) -> (r: Self)
        ensures
            r.root()@ == root@,
    {
        ProjectFileSystem { project_root: root.to_string() }
    }

    pub closed spec fn root(&self) -> String {
        self.project_root
    }

    /// The project root
    pub fn project_root(&self) -> (r: &str)
        ensures
            r@ == self.root()@,
    {
        self.project_root.as_str()
    }

    /// Get the .byte directory path
    pub fn byte_dir(&self) -> (r: String)
        ensures
            r@ == byte_dir_of(self.root()@),
    {
        join_path(self.project_root.as_str(), ".byte")
    }

    /// The directory of the command logs of a category: `.byte/logs/commands/<category>`.
    pub fn log_dir(&self, category: &str) -> (r: String)
        ensures
            r@ == log_dir_of(self.root()@, category@),
    {
        let b = self.byte_dir();
        let l = join_path(b.as_str(), "logs");
        let c = join_path(l.as_str(), "commands");
        join_path(c.as_str(), category)
    }

    /// The directories of the `.byte/` runtime structure.
    pub fn init_byte_structure(&self) -> (r: Vec<FsEntry>)
        ensures
            entries_view(r@) == byte_structure_of(self.root()@),
    {
        let mut v: Vec<FsEntry> = Vec::new();
        v.push(dir(self.log_dir("build")));
        v.push(dir(self.log_dir("lint")));
        v.push(dir(self.log_dir("git")));
        v.push(dir(self.log_dir("other")));
        let b = self.byte_dir();
        v.push(dir(join_path(b.as_str(), "state")));
        assert(entries_view(v@) =~= byte_structure_of(self.root()@));
        v
    }

    /// The `.gitignore` file, which keeps `.byte/`, build artifacts, IDE and OS files out of git.
    pub fn create_gitignore(&self) -> (r: FsEntry)
        ensures
            r@ == EntryView::File(joined(self.root()@, ".gitignore"@), gitignore_text()),
    {
        file(
            join_path(self.project_root.as_str(), ".gitignore"),
            "# Byte runtime data\n.byte/\n\n# Build artifacts\ntarget/\nnode_modules/\ndist/\nbuild/\n\n# IDE\n.vscode/\n.idea/\n*.swp\n*.swo\n\n# OS\n.DS_Store\nThumbs.db\n",
        )
    }

    /// The project's `byte.toml`, which makes it found by discovery.
    pub fn create_byte_toml(&self, name: &str, project_type: &str, ecosystem: &str) -> (r: FsEntry)
        ensures
            r@ == EntryView::File(joined(self.root()@, "byte.toml"@), byte_toml_text(name@, project_type@, ecosystem@)),
    {
        FsEntry::File { path: join_path(self.project_root.as_str(), "byte.toml"), content: byte_toml(name, project_type, ecosystem) }
    }

    /// Create ecosystem-specific project structure
    pub fn init_ecosystem_structure(
        &self,
        entries: &mut Vec<FsEntry>,
        ecosystem: &str,
        project_type: &str,
        project_name: &str,
    ) -> (r: Result<(), FsError>)
        ensures
            entries_view(final(entries)@) == entries_view(old(entries)@) + ecosystem_plan_of(
                self.root()@,
                ecosystem@,
                project_type@,
                project_name@,
            ).0,
            r is Ok <==> ecosystem_plan_of(self.root()@, ecosystem@, project_type@, project_name@).1 is None,
            r matches Err(FsError::UnsupportedEcosystem { ecosystem: e }) ==> e@ == ecosystem@
                && ecosystem_plan_of(self.root()@, ecosystem@, project_type@, project_name@).1 == Some(0int),
            r matches Err(FsError::UnsupportedRustType { project_type: t }) ==> t@ == project_type@
                && ecosystem_plan_of(self.root()@, ecosystem@, project_type@, project_name@).1 == Some(1int),
            r matches Err(FsError::UnsupportedGoType { project_type: t }) ==> t@ == project_type@
                && ecosystem_plan_of(self.root()@, ecosystem@, project_type@, project_name@).1 == Some(2int),
    {
        let ghost before = entries_view(entries@);
        let root = self.project_root.as_str();
        if str_eq(ecosystem, "rust") {
            let src = join_path(root, "src");
            entries.push(dir(src.clone()));
            if str_eq(project_type, "cli") || str_eq(project_type, "bin") {
                entries.push(file(join_path(src.as_str(), "main.rs"), "fn main() {\n    println!(\"Hello, world!\");\n}\n"));
            } else if str_eq(project_type, "lib") {
                entries.push(file(join_path(src.as_str(), "lib.rs"), "pub fn add(left: u64, right: u64) -> u64 {\n    left + right\n}\n\n#[cfg(test)]\nmod tests {\n    use super::*;\n\n    #[test]\n    fn it_works() {\n        let result = add(2, 2);\n        assert_eq!(result, 4);\n    }\n}\n"));
            } else {
                assert(entries_view(entries@) =~= before + ecosystem_plan_of(self.root()@, ecosystem@, project_type@, project_name@).0);
                return Err(FsError::UnsupportedRustType { project_type: project_type.to_string() });
            }
            entries.push(FsEntry::File {
                path: join_path(root, "Cargo.toml"),
                content: between("[package]\nname = \"", project_name, "\"\nversion = \"0.1.0\"\nedition = \"2021\"\n\n[dependencies]\n"),
            });
            assert(entries_view(entries@) =~= before + ecosystem_plan_of(self.root()@, ecosystem@, project_type@, project_name@).0);
            Ok(())
        } else if str_eq(ecosystem, "go") {
            let cmd_dir = if str_eq(project_type, "cli") || str_eq(project_type, "bin") {
                let c = join_path(root, "cmd");
                let d = join_path(c.as_str(), project_name);
                entries.push(dir(d.clone()));
                entries.push(file(join_path(d.as_str(), "main.go"), "package main\n\nimport \"fmt\"\n\nfunc main() {\n\tfmt.Println(\"Hello, world!\")\n}\n"));
            } else if str_eq(project_type, "api") || str_eq(project_type, "web") {
                let c = join_path(root, "cmd");
                let d = join_path(c.as_str(), "server");
                entries.push(dir(d.clone()));
                entries.push(file(join_path(d.as_str(), "main.go"), "package main\n\nimport (\n\t\"fmt\"\n\t\"net/http\"\n)\n\nfunc main() {\n\thttp.HandleFunc(\"/\", func(w http.ResponseWriter, r *http.Request) {\n\t\tfmt.Fprintf(w, \"Hello, world!\")\n\t})\n\thttp.ListenAndServe(\":8080\", nil)\n}\n"));
            } else {
                assert(entries_view(entries@) =~= before + ecosystem_plan_of(self.root()@, ecosystem@, project_type@, project_name@).0);
                return Err(FsError::UnsupportedGoType { project_type: project_type.to_string() });
            };
            entries.push(dir(join_path(root, "pkg")));
            entries.push(dir(join_path(root, "internal")));
            entries.push(FsEntry::File { path: join_path(root, "go.mod"), content: between("module ", project_name, "\n\ngo 1.21\n") });
            assert(entries_view(entries@) =~= before + ecosystem_plan_of(self.root()@, ecosystem@, project_type@, project_name@).0);
            Ok(())
        } else if str_eq(ecosystem, "bun") {
            let src = join_path(root, "src");
            entries.push(dir(src.clone()));
            entries.push(file(join_path(src.as_str(), "index.ts"), "console.log(\"Hello, world!\");\n"));
            entries.push(FsEntry::File {
                path: join_path(root, "package.json"),
                content: between("{\n  \"name\": \"", project_name, "\",\n  \"version\": \"0.1.0\",\n  \"module\": \"src/index.ts\",\n  \"type\": \"module\"\n}\n"),
            });
            assert(entries_view(entries@) =~= before + ecosystem_plan_of(self.root()@, ecosystem@, project_type@, project_name@).0);
            Ok(())
        } else {
            assert(entries_view(entries@) =~= before + ecosystem_plan_of(self.root()@, ecosystem@, project_type@, project_name@).0);
            Err(FsError::UnsupportedEcosystem { ecosystem: ecosystem.to_string() })
        }
    }

    /// Initialize complete project structure: the `.byte/` runtime structure,
    /// the ecosystem's files, then the `.gitignore` (the caller creates them in order).
    pub fn init_project(&self, ecosystem: &str, project_type: &str, project_name: &str) -> (r: InitPlan)
        ensures
            entries_view(r.entries@) == init_entries_of(self.root()@, ecosystem@, project_type@, project_name@),
            r.error is None <==> ecosystem_plan_of(self.root()@, ecosystem@, project_type@, project_name@).1 is None,
    {
        let mut entries = self.init_byte_structure();
        match self.init_ecosystem_structure(&mut entries, ecosystem, project_type, project_name) {
            Ok(()) => {
                let ghost before = entries_view(entries@);
                entries.push(self.create_byte_toml(project_name, project_type, ecosystem));
                entries.push(self.create_gitignore());
                assert(entries_view(entries@) =~= before.push(
                    EntryView::File(joined(self.root()@, "byte.toml"@), byte_toml_text(project_name@, project_type@, ecosystem@)),
                ).push(EntryView::File(joined(self.root()@, ".gitignore"@), gitignore_text())));
                InitPlan { entries, error: None }
            },
            Err(e) => InitPlan { entries, error: Some(e) },
        }
    }

    /// The path of a command's log: in the directory of its category, named
    /// after the time stamp and the command.
    pub fn command_log_path(&self, category: &str, timestamp: &str, command: &str) -> (r: String)
        ensures
            r@ == joined(log_dir_of(self.root()@, category@), crate::logger::log_file_name_of(timestamp@, command@)),
    {
        let d = self.log_dir(category);
        let name = crate::logger::log_file_name(timestamp, command);
        join_path(d.as_str(), name.as_str())
    }

    /// The text of a command's log, with this project's root as working directory.
    pub fn command_log_text(&self, command: &str, timestamp: &str, stdout: &str, stderr: &str, exit_code: i32) -> (r: String)
        ensures
            r@ == crate::logger::command_log_text_of(command@, timestamp@, exit_code, self.root()@, stdout@, stderr@),
    {
        crate::logger::command_log_text(command, timestamp, exit_code, self.project_root.as_str(), stdout, stderr)
    }

    /// Extract command name for log filename
    pub fn extract_command_name(command: &str) -> (r: String)
        ensures
            r@ == crate::logger::command_name_of(command@),
    {
        crate::logger::extract_command_name(command)
    }
}

/// How many logs of a category are kept.
pub const KEPT_LOGS: usize = 20;

/// The record of a file found in a log directory, if it is a log (its
/// extension is `log`), modified at `timestamp` (nanoseconds since the epoch).
pub fn log_file_entry(path: &str, category: &str, timestamp: i128) -> (r: Option<LogFile>)
    ensures
        r is Some <==> extension_of(path@) == Some("log"@),
        r matches Some(l) ==> l@ == (LogFileView {
            path: path@,
            category: category@,
            timestamp,
            filename: match file_name_of(path@) {
                Some(f) => f,
                None => seq![],
            },
        }),
{
    match path_extension(path) {
        Some(e) => {
            if str_eq(e.as_str(), "log") {
                let filename = match path_file_name(path) {
                    Some(f) => f,
                    None => String::new(),
                };
                Some(
                    LogFile {
                        path: String::from_str(path),
                        category: String::from_str(category),
                        timestamp,
                        filename,
                    },
                )
            } else {
                None
            }
        },
        None => None,
    }
}

pub open spec fn keyed(logs: Seq<LogFile>) -> Seq<(i128, LogFile)> {
    logs.map_values(|l: LogFile| (l.timestamp, l))
}

pub open spec fn unkeyed(s: Seq<(i128, LogFile)>) -> Seq<LogFile> {
    s.map_values(|p: (i128, LogFile)| p.1)
}

/// The `limit` most recently modified logs, newest first (logs of the same
/// time in the order given).
pub fn newest_logs(logs: Vec<LogFile>, limit: usize) -> (r: Vec<LogFile>)
    ensures
        r@ == unkeyed(newest_first(keyed(logs@)).take(
            if limit < logs@.len() {
                limit as int
            } else {
                logs@.len() as int
            },
        )),
{
    let ghost all = logs@;
    assert(all.len() == logs.len());
    let mut pairs: Vec<(i128, LogFile)> = Vec::new();
    let mut rest = logs;
    let mut k: usize = 0;
    while rest.len() > 0
        invariant
            k + rest@.len() == all.len(),
            all.len() <= usize::MAX,
            rest@ == all.subrange(k as int, all.len() as int),
            pairs@ == keyed(all.subrange(0, k as int)),
        decreases rest.len(),
    {
        let l = rest.remove(0);
        let t = l.timestamp;
        pairs.push((t, l));
        k = k + 1;
        assert(pairs@ =~= keyed(all.subrange(0, k as int)));
        assert(rest@ =~= all.subrange(k as int, all.len() as int));
    }
    assert(all.subrange(0, all.len() as int) =~= all);
    let chosen = newest(pairs, limit);
    let ghost cv = chosen@;
    assert(cv.len() == chosen.len());
    let mut out: Vec<LogFile> = Vec::new();
    let mut rest2 = chosen;
    let mut j: usize = 0;
    while rest2.len() > 0
        invariant
            j + rest2@.len() == cv.len(),
            cv.len() <= usize::MAX,
            rest2@ == cv.subrange(j as int, cv.len() as int),
            out@ == unkeyed(cv.subrange(0, j as int)),
        decreases rest2.len(),
    {
        let (_, l) = rest2.remove(0);
        out.push(l);
        j = j + 1;
        assert(out@ =~= unkeyed(cv.subrange(0, j as int)));
        assert(rest2@ =~= cv.subrange(j as int, cv.len() as int));
    }
    assert(cv.subrange(0, cv.len() as int) =~= cv);
    out
}

/// Which log files to remove so that only the `keep` newest stay, given each
/// with its modification time (`i128::MIN` where it could not be read).
pub fn logs_to_remove(entries: Vec<(i128, String)>, keep: usize) -> (r: Vec<String>)
    ensures
        r@ == newest_first(entries@).skip(
            if keep < entries@.len() {
                keep as int
            } else {
                entries@.len() as int
            },
        ).map_values(|p: (i128, String)| p.1),
{
    let gone = beyond_newest(entries, keep);
    let ghost gv = gone@;
    assert(gv.len() == gone.len());
    let mut out: Vec<String> = Vec::new();
    let mut rest = gone;
    let mut j: usize = 0;
    while rest.len() > 0
        invariant
            j + rest@.len() == gv.len(),
            gv.len() <= usize::MAX,
            rest@ == gv.subrange(j as int, gv.len() as int),
            out@ == gv.subrange(0, j as int).map_values(|p: (i128, String)| p.1),
        decreases rest.len(),
    {
        let (_, path) = rest.remove(0);
        out.push(path);
        j = j + 1;
        assert(out@ =~= gv.subrange(0, j as int).map_values(|p: (i128, String)| p.1));
        assert(rest@ =~= gv.subrange(j as int, gv.len() as int));
    }
    assert(gv.subrange(0, gv.len() as int) =~= gv);
    out
}

/// A joined path ends with the component joined on (one that is not
/// absolute).
proof fn lemma_joined_ends_with(base: Seq<char>, c: Seq<char>)
    requires
        c.len() > 0,
        c[0] != '/',
    ensures
        joined(base, c).len() >= c.len(),
        joined(base, c).subrange(joined(base, c).len() - c.len(), joined(base, c).len() as int) == c,
{
    let j = joined(base, c);
    if base.len() == 0 || base.last() == '/' {
        assert(j.subrange(j.len() - c.len(), j.len() as int) =~= c);
    } else {
        assert(j.subrange(j.len() - c.len(), j.len() as int) =~= c);
    }
}

/// No file of the plan sits at `target`, a path ending with `end`, when every
/// file name the plan joins on ends otherwise.
proof fn lemma_last_differs(p: Seq<char>, name: Seq<char>, base: Seq<char>, target_name: Seq<char>, k: int)
    requires
        name.len() > 0,
        name[0] != '/',
        target_name.len() > 0,
        target_name[0] != '/',
        0 < k <= name.len(),
        k <= target_name.len(),
        name[name.len() - k] != target_name[target_name.len() - k],
        p == joined(base, name),
    ensures
        forall|b2: Seq<char>| p != #[trigger] joined(b2, target_name),
{
    lemma_joined_ends_with(base, name);
    assert forall|b2: Seq<char>| p != #[trigger] joined(b2, target_name) by {
        lemma_joined_ends_with(b2, target_name);
        if p == joined(b2, target_name) {
            let n = p.len();
            assert(p.subrange(n - k, n as int) =~= name.subrange(name.len() - k, name.len() as int));
            assert(p.subrange(n - k, n as int) =~= target_name.subrange(
                target_name.len() - k,
                target_name.len() as int,
            ));
            assert(p.subrange(n - k, n as int)[0] == name[name.len() - k]);
            assert(p.subrange(n - k, n as int)[0] == target_name[target_name.len() - k]);
        }
    }
}

/// A Rust library project gets `src/lib.rs` with the library template (an
/// `add` function and its test) and no `src/main.rs`; a Rust command-line
/// project (`cli` or `bin`) gets `src/main.rs` printing a greeting and no
/// `src/lib.rs`.
pub proof fn law_rust_source_files(root: Seq<char>, project_type: Seq<char>, name: Seq<char>)
    requires
        project_type == "lib"@ || project_type == "cli"@ || project_type == "bin"@,
    ensures
        ({
            let es = init_entries_of(root, "rust"@, project_type, name);
            let src = joined(root, "src"@);
            let lib = joined(src, "lib.rs"@);
            let main = joined(src, "main.rs"@);
            if project_type == "lib"@ {
                &&& es.contains(
                    EntryView::File(
                        lib,
                        "pub fn add(left: u64, right: u64) -> u64 {\n    left + right\n}\n\n#[cfg(test)]\nmod tests {\n    use super::*;\n\n    #[test]\n    fn it_works() {\n        let result = add(2, 2);\n        assert_eq!(result, 4);\n    }\n}\n"@,
                    ),
                )
                &&& forall|i: int|
                    0 <= i < es.len() ==> !(#[trigger] es[i] matches EntryView::File(p, _) && p == main)
            } else {
                &&& es.contains(
                    EntryView::File(main, "fn main() {\n    println!(\"Hello, world!\");\n}\n"@),
                )
                &&& forall|i: int|
                    0 <= i < es.len() ==> !(#[trigger] es[i] matches EntryView::File(p, _) && p == lib)
            }
        }),
{
    reveal_strlit("lib");
    reveal_strlit("cli");
    reveal_strlit("bin");
    reveal_strlit("rust");
    reveal_strlit("src");
    reveal_strlit("lib.rs");
    reveal_strlit("main.rs");
    reveal_strlit("Cargo.toml");
    reveal_strlit("byte.toml");
    reveal_strlit(".gitignore");
    assert("lib"@[0] == 'l' && "cli"@[0] == 'c' && "bin"@[0] == 'b');
    let es = init_entries_of(root, "rust"@, project_type, name);
    let src = joined(root, "src"@);
    let lib = joined(src, "lib.rs"@);
    let main = joined(src, "main.rs"@);
    let eco = ecosystem_plan_of(root, "rust"@, project_type, name);
    assert(eco.1 is None);
    let tail = seq![
        EntryView::File(joined(root, "byte.toml"@), byte_toml_text(name, project_type, "rust"@)),
        EntryView::File(joined(root, ".gitignore"@), gitignore_text()),
    ];
    assert(es == byte_structure_of(root) + eco.0 + tail);
    let other = if project_type == "lib"@ { "main.rs"@ } else { "lib.rs"@ };
    let mine = if project_type == "lib"@ { "lib.rs"@ } else { "main.rs"@ };
    lemma_last_differs(joined(root, "Cargo.toml"@), "Cargo.toml"@, root, other, 1);
    lemma_last_differs(joined(root, "byte.toml"@), "byte.toml"@, root, other, 1);
    lemma_last_differs(joined(root, ".gitignore"@), ".gitignore"@, root, other, 1);
    lemma_last_differs(joined(src, mine), mine, src, other, 6);
    assert forall|i: int|
        0 <= i < es.len() implies !(#[trigger] es[i] matches EntryView::File(p, _) && p == joined(
        src,
        other,
    )) by {
        let n0 = byte_structure_of(root).len();
        if i < n0 {
            assert(es[i] == byte_structure_of(root)[i]);
        } else if i < n0 + eco.0.len() {
            assert(es[i] == eco.0[i - n0]);
            assert(eco.0 == seq![
                EntryView::Dir(src),
                EntryView::File(joined(src, mine), if project_type == "lib"@ { rust_lib() } else { rust_main() }),
                EntryView::File(joined(root, "Cargo.toml"@), cargo_toml_text(name)),
            ]);
        } else {
            assert(es[i] == tail[i - n0 - eco.0.len()]);
        }
    }
    if project_type == "lib"@ {
        assert(es[byte_structure_of(root).len() + 1int] == EntryView::File(lib, rust_lib()));
    } else {
        assert(es[byte_structure_of(root).len() + 1int] == EntryView::File(main, rust_main()));
    }
}

/// The project types that initialisation knows: Rust `cli`, `bin` and `lib`;
/// Go `cli`, `bin`, `api` and `web`; any Bun project.
pub open spec fn known_project(ecosystem: Seq<char>, project_type: Seq<char>) -> bool {
    ||| ecosystem == "rust"@ && (project_type == "cli"@ || project_type == "bin"@ || project_type
        == "lib"@)
    ||| ecosystem == "go"@ && (project_type == "cli"@ || project_type == "bin"@ || project_type
        == "api"@ || project_type == "web"@)
    ||| ecosystem == "bun"@
}

/// Initialising a known kind of project succeeds and creates the runtime
/// directories (`.byte/logs/commands/{build,lint,git,other}` and
/// `.byte/state`), a `byte.toml` naming the project, its type and ecosystem
/// (so that discovery finds it), the ecosystem's manifest (`Cargo.toml`,
/// `go.mod` or `package.json`), and last a `.gitignore` that keeps `.byte/`
/// out of git. Any other kind fails, and then no file at all is planned.
pub proof fn law_init_plan(root: Seq<char>, ecosystem: Seq<char>, project_type: Seq<char>, name: Seq<char>)
    ensures
        ({
            let es = init_entries_of(root, ecosystem, project_type, name);
            let failed = ecosystem_plan_of(root, ecosystem, project_type, name).1 is Some;
            let commands = joined(joined(joined(root, ".byte"@), "logs"@), "commands"@);
            if known_project(ecosystem, project_type) {
                &&& !failed
                &&& es.contains(EntryView::Dir(joined(commands, "build"@)))
                &&& es.contains(EntryView::Dir(joined(commands, "lint"@)))
                &&& es.contains(EntryView::Dir(joined(commands, "git"@)))
                &&& es.contains(EntryView::Dir(joined(commands, "other"@)))
                &&& es.contains(EntryView::Dir(joined(joined(root, ".byte"@), "state"@)))
                &&& es.contains(
                    EntryView::File(
                        joined(root, "byte.toml"@),
                        "[project]\nname = \""@ + name + "\"\ntype = \""@ + project_type
                            + "\"\necosystem = \""@ + ecosystem + "\"\n"@,
                    ),
                )
                &&& exists|i: int|
                    0 <= i < es.len() && (#[trigger] es[i] matches EntryView::File(p, _) && p
                        == joined(
                        root,
                        if ecosystem == "rust"@ {
                            "Cargo.toml"@
                        } else if ecosystem == "go"@ {
                            "go.mod"@
                        } else {
                            "package.json"@
                        },
                    ))
                &&& es.last() matches EntryView::File(p, text) && p == joined(root, ".gitignore"@)
                    && has(text, "\n.byte/\n"@)
            } else {
                &&& failed
                &&& forall|i: int| 0 <= i < es.len() ==> (#[trigger] es[i]) is Dir
            }
        }),
{
    reveal_strlit("rust");
    reveal_strlit("go");
    reveal_strlit("bun");
    reveal_strlit("cli");
    reveal_strlit("bin");
    reveal_strlit("lib");
    reveal_strlit("api");
    reveal_strlit("web");
    assert("rust"@[0] == 'r' && "go"@[0] == 'g' && "bun"@[0] == 'b');
    assert("cli"@[0] == 'c' && "bin"@[0] == 'b' && "lib"@[0] == 'l' && "api"@[0] == 'a'
        && "web"@[0] == 'w');
    let es = init_entries_of(root, ecosystem, project_type, name);
    let eco = ecosystem_plan_of(root, ecosystem, project_type, name);
    let bs = byte_structure_of(root);
    if known_project(ecosystem, project_type) {
        assert(eco.1 is None);
        let tail = seq![
            EntryView::File(joined(root, "byte.toml"@), byte_toml_text(name, project_type, ecosystem)),
            EntryView::File(joined(root, ".gitignore"@), gitignore_text()),
        ];
        assert(es == bs + eco.0 + tail);
        assert(es[0] == bs[0] && es[1] == bs[1] && es[2] == bs[2] && es[3] == bs[3] && es[4] == bs[4]);
        assert(es[es.len() - 2] == tail[0]);
        assert(es.last() == tail[1]);
        reveal_strlit("\n.byte/\n");
        reveal_strlit(
            "# Byte runtime data\n.byte/\n\n# Build artifacts\ntarget/\nnode_modules/\ndist/\nbuild/\n\n# IDE\n.vscode/\n.idea/\n*.swp\n*.swo\n\n# OS\n.DS_Store\nThumbs.db\n",
        );
        let g = gitignore_text();
        assert(g.subrange(19, 27) =~= "\n.byte/\n"@);
        assert(occurs_at(g, "\n.byte/\n"@, 19));
        lemma_find_from_bounds(g, "\n.byte/\n"@, 0);
        let m = if ecosystem == "rust"@ {
            "Cargo.toml"@
        } else if ecosystem == "go"@ {
            "go.mod"@
        } else {
            "package.json"@
        };
        let k: int = if ecosystem == "go"@ { 4 } else { 2 };
        assert(eco.0[k] matches EntryView::File(p, _) && p == joined(root, m));
        assert(es[bs.len() + k] == eco.0[k]);
    } else {
        assert(eco.1 is Some);
        assert forall|i: int| 0 <= i < es.len() implies (#[trigger] es[i]) is Dir by {
            if i < bs.len() {
                assert(es[i] == bs[i]);
            } else {
                assert(es[i] == eco.0[i - bs.len()]);
            }
        }
    }
}

/// Where a new project's program starts: a Go command-line project (`cli`,
/// `bin`) in `cmd/<name>/main.go`, a Go server (`api`, `web`) in
/// `cmd/server/main.go` (serving on port 8080), a Bun project in
/// `src/index.ts`.
pub proof fn law_entry_points(root: Seq<char>, ecosystem: Seq<char>, project_type: Seq<char>, name: Seq<char>)
    ensures
        ({
            let es = init_entries_of(root, ecosystem, project_type, name);
            let cmd = joined(root, "cmd"@);
            &&& (ecosystem == "go"@ && (project_type == "cli"@ || project_type == "bin"@)) ==> exists|i: int|
                0 <= i < es.len() && (#[trigger] es[i] matches EntryView::File(p, _) && p == joined(
                    joined(cmd, name),
                    "main.go"@,
                ))
            &&& (ecosystem == "go"@ && (project_type == "api"@ || project_type == "web"@)) ==> exists|i: int|
                0 <= i < es.len() && (#[trigger] es[i] matches EntryView::File(p, text) && p == joined(
                    joined(cmd, "server"@),
                    "main.go"@,
                ) && has(text, "\":8080\""@))
            &&& ecosystem == "bun"@ ==> exists|i: int|
                0 <= i < es.len() && (#[trigger] es[i] matches EntryView::File(p, _) && p == joined(
                    joined(root, "src"@),
                    "index.ts"@,
                ))
        }),
{
    reveal_strlit("go");
    reveal_strlit("bun");
    reveal_strlit("rust");
    reveal_strlit("cli");
    reveal_strlit("bin");
    reveal_strlit("api");
    reveal_strlit("web");
    assert("rust"@[0] == 'r' && "go"@[0] == 'g' && "bun"@[0] == 'b');
    assert("cli"@[0] == 'c' && "bin"@[0] == 'b' && "api"@[0] == 'a' && "web"@[0] == 'w');
    let es = init_entries_of(root, ecosystem, project_type, name);
    let eco = ecosystem_plan_of(root, ecosystem, project_type, name);
    let bs = byte_structure_of(root);
    if ecosystem == "go"@ && (project_type == "cli"@ || project_type == "bin"@ || project_type
        == "api"@ || project_type == "web"@) || ecosystem == "bun"@ {
        assert(eco.1 is None);
        assert(es[bs.len() + 1int] == eco.0[1]);
        if ecosystem == "go"@ && (project_type == "api"@ || project_type == "web"@) {
            reveal_strlit("\":8080\"");
            reveal_strlit(
                "package main\n\nimport (\n\t\"fmt\"\n\t\"net/http\"\n)\n\nfunc main() {\n\thttp.HandleFunc(\"/\", func(w http.ResponseWriter, r *http.Request) {\n\t\tfmt.Fprintf(w, \"Hello, world!\")\n\t})\n\thttp.ListenAndServe(\":8080\", nil)\n}\n",
            );
            let t = go_server();
            let k = 187int;
            assert(t.subrange(k, k + 7) =~= "\":8080\""@);
            assert(occurs_at(t, "\":8080\""@, k));
            lemma_find_from_bounds(t, "\":8080\""@, 0);
        }
    }
}

} // verus!
