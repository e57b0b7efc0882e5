//! Command-output logging: which category a command's log goes to, the log
//! file's name and text, and which logs are the newest.
use vstd::prelude::*;

use crate::text::{
    chars_of, deep_chars, find, find_chars, same_chars, split_words, starts_with, starts_with_at,
    string_from_chars, words,
};

verus! {

/// Whether `char::is_alphanumeric` holds of a character (Unicode `Alphabetic` or `Numeric`).
pub uninterp spec fn unicode_alphanumeric(c: char) -> bool;

/// `char::is_alphanumeric`. Claimed: the result is `unicode_alphanumeric(c)`,
/// and for an ASCII character it holds exactly of letters and digits. Which
/// other characters are alphanumeric is not stated (Unicode tables).
#[verifier::external_body]
fn is_alphanumeric(c: char) -> (r: bool)
    ensures
        r == unicode_alphanumeric(c),
        (c as u32) < 128 ==> (r <==> crate::text::is_ascii_alphanumeric(c)),
{
    c.is_alphanumeric()
}

/// Lower-casing for matching ASCII patterns: ASCII capitals and the Kelvin sign
/// (U+212A) become the small ASCII letter; other characters stay. For finding
/// or testing a prefix made of ASCII characters, this agrees with
/// `str::to_lowercase`: no other character lower-cases to something that
/// holds an ASCII letter that could complete such a match.
pub open spec fn match_lower_char(c: char) -> char {
    if 'A' <= c && c <= 'Z' {
        ((c as u32) + 32) as char
    } else if c == '\u{212A}' {
        'k'
    } else {
        c
    }
}

pub open spec fn match_lower(s: Seq<char>) -> Seq<char> {
    s.map_values(|c: char| match_lower_char(c))
}

pub fn match_lower_chars(s: &Vec<char>) -> (r: Vec<char>)
    ensures
        r@ == match_lower(s@),
{
    let mut out: Vec<char> = Vec::new();
    let mut i: usize = 0;
    while i < s.len()
        invariant
            i <= s.len(),
            out@ == match_lower(s@.subrange(0, i as int)),
        decreases s.len() - i,
    {
        let c = s[i];
        let l = if 'A' <= c && c <= 'Z' {
            ((c as u8) + 32) as char
        } else if c == '\u{212A}' {
            'k'
        } else {
            c
        };
        out.push(l);
        i = i + 1;
        assert(out@ =~= match_lower(s@.subrange(0, i as int)));
    }
    assert(s@.subrange(0, s@.len() as int) =~= s@);
    out
}

pub open spec fn has(s: Seq<char>, p: Seq<char>) -> bool {
    find(s, p) is Some
}

/// The log category of a command (case is ignored): `test` for cargo test and
/// go test; `build` for cargo build/run/check, go build, bun build and make;
/// `lint` for cargo clippy/fmt, eslint and prettier; `git` for a command
/// starting with `git `; `other` otherwise.
pub open spec fn log_category_of(command: Seq<char>) -> Seq<char> {
    let l = match_lower(command);
    if has(l, "cargo test"@) || has(l, "go test"@) {
        "test"@
    } else if has(l, "cargo build"@) || has(l, "cargo run"@) || has(l, "cargo check"@) || has(
        l,
        "go build"@,
    ) || has(l, "bun build"@) || l == "make"@ || starts_with(l, "make "@) {
        "build"@
    } else if has(l, "cargo clippy"@) || has(l, "cargo fmt"@) || has(l, "eslint"@) || has(
        l,
        "prettier"@,
    ) {
        "lint"@
    } else if starts_with(l, "git "@) {
        "git"@
    } else {
        "other"@
    }
}

pub(crate) fn has_exec(l: &Vec<char>, p: &str) -> (r: bool)
    ensures
        r == has(l@, p@),
{
    let pc = chars_of(p);
    find_chars(l, &pc).is_some()
}

/// Categorize command into test/build/lint/git/other
pub fn categorize_command(command: &str) -> (r: &'static str)
    ensures
        r@ == log_category_of(command@),
{
    let chars = chars_of(command);
    let l = match_lower_chars(&chars);
    let make = vec!['m', 'a', 'k', 'e'];
    let make_sp = chars_of("make ");
    assert(make@ == "make"@) by {
        reveal_strlit("make");
    }
    assert(l@.subrange(0, l@.len() as int) =~= l@);
    let is_make = same_chars(&l, &make) || starts_with_at(&l, 0, &make_sp);
    if has_exec(&l, "cargo test") || has_exec(&l, "go test") {
        "test"
    } else if has_exec(&l, "cargo build") || has_exec(&l, "cargo run") || has_exec(&l, "cargo check")
        || has_exec(&l, "go build") || has_exec(&l, "bun build") || is_make {
        "build"
    } else if has_exec(&l, "cargo clippy") || has_exec(&l, "cargo fmt") || has_exec(&l, "eslint")
        || has_exec(&l, "prettier") {
        "lint"
    } else {
        let g = chars_of("git ");
        if starts_with_at(&l, 0, &g) {
            "git"
        } else {
            "other"
        }
    }
}

/// The characters of `w` that are alphanumeric or `-`, in order.
pub open spec fn name_chars(w: Seq<char>) -> Seq<char>
    decreases w.len(),
{
    if w.len() == 0 {
        seq![]
    } else {
        let rest = name_chars(w.drop_last());
        if unicode_alphanumeric(w.last()) || w.last() == '-' {
            rest.push(w.last())
        } else {
            rest
        }
    }
}

/// The short name of a command for a log file name: its second word (for
/// `cargo build`, `build`), or its only word, kept to alphanumeric characters
/// and `-`; `cmd` for a command without words.
pub open spec fn command_name_of(command: Seq<char>) -> Seq<char> {
    let ws = words(command);
    if ws.len() >= 2 {
        name_chars(ws[1])
    } else if ws.len() == 1 {
        name_chars(ws[0])
    } else {
        "cmd"@
    }
}

fn name_chars_exec(w: &Vec<char>) -> (r: Vec<char>)
    ensures
        r@ == name_chars(w@),
{
    let mut out: Vec<char> = Vec::new();
    let mut i: usize = 0;
    while i < w.len()
        invariant
            i <= w.len(),
            out@ == name_chars(w@.subrange(0, i as int)),
        decreases w.len() - i,
    {
        assert(w@.subrange(0, i + 1).drop_last() =~= w@.subrange(0, i as int));
        let c = w[i];
        if is_alphanumeric(c) || c == '-' {
            out.push(c);
        }
        i = i + 1;
    }
    assert(w@.subrange(0, w@.len() as int) =~= w@);
    out
}

/// Extract a short name from command for filename
pub fn extract_command_name(command: &str) -> (r: String)
    ensures
        r@ == command_name_of(command@),
{
    let chars = chars_of(command);
    let parts = split_words(&chars);
    if parts.len() >= 2 {
        assert(deep_chars(parts@)[1] == parts@[1]@);
        let n = name_chars_exec(&parts[1]);
        string_from_chars(&n)
    } else if parts.len() == 1 {
        assert(deep_chars(parts@)[0] == parts@[0]@);
        let n = name_chars_exec(&parts[0]);
        string_from_chars(&n)
    } else {
        String::from_str("cmd")
    }
}

/// The log category of a command, read from its lower-cased text: `test`
/// when it runs cargo test or go test; else `build` for cargo build, cargo
/// run, cargo check, go build, bun build, or make alone or with arguments;
/// else `lint` for cargo clippy, cargo fmt, eslint or prettier; else `git`
/// for one starting with `git `; else `other`.
pub proof fn law_log_categories(command: Seq<char>)
    ensures
        ({
            let l = match_lower(command);
            let test = has(l, "cargo test"@) || has(l, "go test"@);
            let build = has(l, "cargo build"@) || has(l, "cargo run"@) || has(l, "cargo check"@)
                || has(l, "go build"@) || has(l, "bun build"@) || l == "make"@ || starts_with(
                l,
                "make "@,
            );
            let lint = has(l, "cargo clippy"@) || has(l, "cargo fmt"@) || has(l, "eslint"@) || has(
                l,
                "prettier"@,
            );
            let git = starts_with(l, "git "@);
            &&& (log_category_of(command) == "test"@ <==> test)
            &&& (log_category_of(command) == "build"@ <==> !test && build)
            &&& (log_category_of(command) == "lint"@ <==> !test && !build && lint)
            &&& (log_category_of(command) == "git"@ <==> !test && !build && !lint && git)
            &&& (log_category_of(command) == "other"@ <==> !test && !build && !lint && !git)
        }),
{
    reveal_strlit("test");
    reveal_strlit("build");
    reveal_strlit("lint");
    reveal_strlit("git");
    reveal_strlit("other");
    assert("test"@[0] == 't' && "build"@[0] == 'b' && "lint"@[0] == 'l' && "git"@[0] == 'g'
        && "other"@[0] == 'o');
}

} // verus!

verus! {

/// The name of a command's log file: `<timestamp>-<command name>.log`.
pub open spec fn log_file_name_of(timestamp: Seq<char>, command: Seq<char>) -> Seq<char> {
    timestamp + "-"@ + command_name_of(command) + ".log"@
}

/// The name of a command's log file, from the time stamp of the run.
pub fn log_file_name(timestamp: &str, command: &str) -> (r: String)
    ensures
        r@ == log_file_name_of(timestamp@, command@),
{
    let name = extract_command_name(command);
    let mut out = timestamp.to_string();
    out.append("-");
    out.append(name.as_str());
    out.append(".log");
    out
}

/// The text of a command's log: the command, when it ran, its exit code and
/// working directory, then its standard output and error under headings.
pub open spec fn command_log_text_of(
    command: Seq<char>,
    timestamp: Seq<char>,
    exit_code: i32,
    working_dir: Seq<char>,
    stdout: Seq<char>,
    stderr: Seq<char>,
) -> Seq<char> {
    "Command: "@ + command + "\nTimestamp: "@ + timestamp + "\nExit Code: "@ + crate::text::decimal_text(
        exit_code as int,
    ) + "\nWorking Directory: "@ + working_dir + "\n\n--- STDOUT ---\n"@ + stdout
        + "\n--- STDERR ---\n"@ + stderr
}

pub fn command_log_text(
    command: &str,
    timestamp: &str,
    exit_code: i32,
    working_dir: &str,
    stdout: &str,
    stderr: &str,
) -> (r: String)
    ensures
        r@ == command_log_text_of(command@, timestamp@, exit_code, working_dir@, stdout@, stderr@),
{
    let code = crate::text::i64_to_text(exit_code as i64);
    let mut out = String::from_str("Command: ");
    out.append(command);
    out.append("\nTimestamp: ");
    out.append(timestamp);
    out.append("\nExit Code: ");
    out.append(code.as_str());
    out.append("\nWorking Directory: ");
    out.append(working_dir);
    out.append("\n\n--- STDOUT ---\n");
    out.append(stdout);
    out.append("\n--- STDERR ---\n");
    out.append(stderr);
    out
}

// ---------------------------------------------------------------------------
// Newest first
// ---------------------------------------------------------------------------
/// The first place in `s` (sorted newest first) holding an entry older than `t`.
pub open spec fn first_older<T>(s: Seq<(i128, T)>, t: i128) -> int
    decreases s.len(),
{
    if s.len() == 0 {
        0
    } else if s[0].0 < t {
        0
    } else {
        1 + first_older(s.drop_first(), t)
    }
}

/// `x` inserted into `s` after every entry at least as new.
pub open spec fn insert_newest_first<T>(s: Seq<(i128, T)>, x: (i128, T)) -> Seq<(i128, T)> {
    s.insert(first_older(s, x.0), x)
}

/// The entries ordered newest first by their time key; entries of equal time
/// keep their order (what a stable sort by `Reverse(time)` gives).
pub open spec fn newest_first<T>(s: Seq<(i128, T)>) -> Seq<(i128, T)>
    decreases s.len(),
{
    if s.len() == 0 {
        seq![]
    } else {
        insert_newest_first(newest_first(s.drop_last()), s.last())
    }
}

pub proof fn lemma_first_older_bound<T>(s: Seq<(i128, T)>, t: i128)
    ensures
        0 <= first_older(s, t) <= s.len(),
        forall|i: int| 0 <= i < first_older(s, t) ==> s[i].0 >= t,
        first_older(s, t) < s.len() ==> s[first_older(s, t)].0 < t,
    decreases s.len(),
{
    if s.len() > 0 && s[0].0 >= t {
        lemma_first_older_bound(s.drop_first(), t);
        assert forall|i: int| 0 <= i < first_older(s, t) implies s[i].0 >= t by {
            if i > 0 {
                assert(s[i] == s.drop_first()[i - 1]);
            }
        }
    }
}

pub proof fn lemma_newest_first_len<T>(s: Seq<(i128, T)>)
    ensures
        newest_first(s).len() == s.len(),
    decreases s.len(),
{
    if s.len() > 0 {
        lemma_newest_first_len(s.drop_last());
        lemma_first_older_bound(newest_first(s.drop_last()), s.last().0);
    }
}

/// The entries, newest first.
pub fn sort_newest_first<T>(entries: Vec<(i128, T)>) -> (r: Vec<(i128, T)>)
    ensures
        r@ == newest_first(entries@),
{
    let ghost all = entries@;
    assert(all.len() == entries.len());
    let mut rest = entries;
    let mut out: Vec<(i128, T)> = Vec::new();
    let mut k: usize = 0;
    while rest.len() > 0
        invariant
            k + rest@.len() == all.len(),
            all.len() <= usize::MAX,
            rest@ == all.subrange(k as int, all.len() as int),
            out@ == newest_first(all.subrange(0, k as int)),
        decreases rest.len(),
    {
        let x = rest.remove(0);
        let ghost pre = out@;
        proof {
            lemma_first_older_bound(pre, x.0);
            lemma_newest_first_len(all.subrange(0, k as int));
        }
        let mut p: usize = 0;
        assert(pre.subrange(0, pre.len() as int) =~= pre);
        while p < out.len() && out[p].0 >= x.0
            invariant
                out@ == pre,
                p <= out@.len(),
                first_older(pre, x.0) == p + first_older(pre.subrange(p as int, pre.len() as int), x.0),
            decreases out.len() - p,
        {
            assert(pre.subrange(p as int, pre.len() as int).drop_first() =~= pre.subrange(
                p + 1,
                pre.len() as int,
            ));
            p = p + 1;
        }
        assert(first_older(pre, x.0) == p);
        out.insert(p, x);
        assert(all.subrange(0, k + 1).drop_last() =~= all.subrange(0, k as int));
        k = k + 1;
        assert(rest@ =~= all.subrange(k as int, all.len() as int));
    }
    assert(all.subrange(0, all.len() as int) =~= all);
    out
}

/// The `limit` newest entries, newest first.
pub fn newest<T>(entries: Vec<(i128, T)>, limit: usize) -> (r: Vec<(i128, T)>)
    ensures
        r@ == newest_first(entries@).take(
            if limit < entries@.len() {
                limit as int
            } else {
                entries@.len() as int
            },
        ),
{
    let ghost all = entries@;
    let mut v = sort_newest_first(entries);
    proof {
        lemma_newest_first_len(all);
    }
    v.truncate(limit);
    assert(v@ =~= newest_first(all).take(
        if limit < all.len() {
            limit as int
        } else {
            all.len() as int
        },
    ));
    v
}

/// The entries beyond the `keep` newest, newest first: the ones to remove
/// when only `keep` are kept.
pub fn beyond_newest<T>(entries: Vec<(i128, T)>, keep: usize) -> (r: Vec<(i128, T)>)
    ensures
        r@ == newest_first(entries@).skip(
            if keep < entries@.len() {
                keep as int
            } else {
                entries@.len() as int
            },
        ),
{
    let ghost all = entries@;
    let mut v = sort_newest_first(entries);
    proof {
        lemma_newest_first_len(all);
    }
    if keep >= v.len() {
        let e: Vec<(i128, T)> = Vec::new();
        assert(e@ =~= newest_first(all).skip(all.len() as int));
        return e;
    }
    let tail = v.split_off(keep);
    assert(tail@ =~= newest_first(all).skip(keep as int));
    tail
}

/// Ordering newest first gives the same entries, each time at least as new
/// as every later one.
pub proof fn law_newest_first_sorted<T>(s: Seq<(i128, T)>)
    ensures
        newest_first(s).len() == s.len(),
        newest_first(s).to_multiset() == s.to_multiset(),
        forall|i: int, j: int|
            0 <= i < j < newest_first(s).len() ==> newest_first(s)[i].0 >= newest_first(s)[j].0,
    decreases s.len(),
{
    broadcast use vstd::seq_lib::group_to_multiset_ensures;

    if s.len() == 0 {
        assert(newest_first(s) =~= s);
    } else {
        let p = newest_first(s.drop_last());
        let x = s.last();
        law_newest_first_sorted(s.drop_last());
        lemma_first_older_bound(p, x.0);
        let k = first_older(p, x.0);
        let r = p.insert(k, x);
        assert(newest_first(s) == r);
        assert forall|i: int, j: int| 0 <= i < j < r.len() implies r[i].0 >= r[j].0 by {
            if j < k {
                assert(r[i] == p[i] && r[j] == p[j]);
            } else if j == k {
                assert(r[i] == p[i]);
            } else if i < k {
                assert(r[i] == p[i] && r[j] == p[j - 1]);
                if k < p.len() {
                    assert(p[k].0 < x.0);
                }
            } else if i == k {
                assert(r[j] == p[j - 1]);
                assert(p[k].0 < x.0);
                if j - 1 > k {
                    assert(p[k].0 >= p[j - 1].0);
                }
            } else {
                assert(r[i] == p[i - 1] && r[j] == p[j - 1]);
            }
        }
        vstd::seq_lib::to_multiset_insert(p, k, x);
        assert(s =~= s.drop_last().push(x));
        vstd::seq_lib::to_multiset_build(s.drop_last(), x);
    }
}

/// Metadata about a command log: where it is, its category, when it was last
/// modified (nanoseconds since the Unix epoch) and its file name.
#[derive(Debug, Clone)]
pub struct LogEntry {
    pub path: String,
    pub category: String,
    pub timestamp: i128,
    pub filename: String,
}

impl LogEntry {
    /// The entry of a log file found in a project's log directories.
    pub fn of_log_file(log: &crate::fs::LogFile) -> (r: LogEntry)
        ensures
            r.path@ == log.path@,
            r.category@ == log.category@,
            r.timestamp == log.timestamp,
            r.filename@ == log.filename@,
    {
        LogEntry {
            path: log.path.clone(),
            category: log.category.clone(),
            timestamp: log.timestamp,
            filename: log.filename.clone(),
        }
    }
}

/// The command-output logger: the directory of its `byte.log`.
#[derive(Debug, Clone)]
pub struct Logger {
    log_dir: String,
}

impl Logger {
    /// A logger for the (absolute) directory `log_dir`.
    pub fn for_dir(log_dir: &str) -> (r: Logger)
        ensures
            r.dir()@ == log_dir@,
    {
        Logger { log_dir: String::from_str(log_dir) }
    }

    pub closed spec fn dir(&self) -> String {
        self.log_dir
    }

    /// The file the logger appends to: `byte.log` in its directory.
    pub fn log_file(&self) -> (r: String)
        ensures
            r@ == crate::path::joined(self.dir()@, "byte.log"@),
    {
        crate::path::join_path(self.log_dir.as_str(), "byte.log")
    }

    /// The text appended for an informational message.
    pub fn info(&self, message: &str) -> (r: String)
        ensures
            r@ == "INFO: "@ + message@ + "\n"@,
    {
        let mut s = String::from_str("INFO: ");
        s.append(message);
        s.append("\n");
        s
    }

    /// The text appended for an error.
    pub fn error(&self, message: &str) -> (r: String)
        ensures
            r@ == "ERROR: "@ + message@ + "\n"@,
    {
        let mut s = String::from_str("ERROR: ");
        s.append(message);
        s.append("\n");
        s
    }
}

} // verus!
