//! Git status of a project, read from the porcelain (v1) output of `git status --branch`.
use vstd::prelude::*;

use crate::text::{
    chars_of, find, find_chars, find_from, first_word, first_word_chars, lemma_find_from_bounds, occurs_at,
    parse_usize, parse_usize_chars, starts_with, starts_with_at, string_from_chars, sub_chars,
    trim, trim_chars, trim_start_matches, trim_start_matches_chars,
};

verus! {

/// Git repository status
#[derive(Debug, Clone)]
pub struct GitStatus {
    pub is_repo: bool,
    pub branch: Option<String>,
    pub is_clean: bool,
    pub modified: usize,
    pub staged: usize,
    pub untracked: usize,
    pub ahead: usize,
    pub behind: usize,
}

/// What a `GitStatus` says, with the branch name as its characters.
pub struct GitStatusView {
    pub is_repo: bool,
    pub branch: Option<Seq<char>>,
    pub is_clean: bool,
    pub modified: nat,
    pub staged: nat,
    pub untracked: nat,
    pub ahead: nat,
    pub behind: nat,
}

impl View for GitStatus {
    type V = GitStatusView;

    open spec fn view(&self) -> GitStatusView {
        GitStatusView {
            is_repo: self.is_repo,
            branch: match self.branch {
                Some(b) => Some(b@),
                None => None,
            },
            is_clean: self.is_clean,
            modified: self.modified as nat,
            staged: self.staged as nat,
            untracked: self.untracked as nat,
            ahead: self.ahead as nat,
            behind: self.behind as nat,
        }
    }
}

/// A repository with no branch known, nothing changed and nothing to push or pull.
pub open spec fn clean_status(is_repo: bool) -> GitStatusView {
    GitStatusView {
        is_repo,
        branch: None,
        is_clean: true,
        modified: 0,
        staged: 0,
        untracked: 0,
        ahead: 0,
        behind: 0,
    }
}

impl GitStatus {
    /// Create a status indicating the directory is not a git repository
    pub fn not_a_repo() -> (r: Self)
        ensures
            r@ == clean_status(false),
    {
        GitStatus {
            is_repo: false,
            branch: None,
            is_clean: true,
            modified: 0,
            staged: 0,
            untracked: 0,
            ahead: 0,
            behind: 0,
        }
    }

    /// Create a status indicating an error occurred
    pub fn error() -> (r: Self)
        ensures
            r@ == clean_status(true),
    {
        GitStatus {
            is_repo: true,
            branch: None,
            is_clean: true,
            modified: 0,
            staged: 0,
            untracked: 0,
            ahead: 0,
            behind: 0,
        }
    }

    /// The status of a repository before anything is known of it.
    pub fn new_default() -> (r: Self)
        ensures
            r@ == clean_status(true),
    {
        Self::error()
    }
}

// ---------------------------------------------------------------------------
// Lines of the output
// ---------------------------------------------------------------------------
/// `line` without one trailing carriage return.
pub open spec fn strip_cr(line: Seq<char>) -> Seq<char> {
    if line.len() > 0 && line.last() == '\r' {
        line.drop_last()
    } else {
        line
    }
}

/// Reading `s` from the left: the lines ended so far, and the line begun.
pub open spec fn scan_lines(s: Seq<char>) -> (Seq<Seq<char>>, Seq<char>)
    decreases s.len(),
{
    if s.len() == 0 {
        (seq![], seq![])
    } else {
        let (done, cur) = scan_lines(s.drop_last());
        if s.last() == '\n' {
            (done.push(strip_cr(cur)), seq![])
        } else {
            (done, cur.push(s.last()))
        }
    }
}

/// `str::lines`: the text split at each `\n`, a `\r` just before a `\n`
/// dropped, and no empty line after a final `\n`.
pub open spec fn lines(s: Seq<char>) -> Seq<Seq<char>> {
    let (done, cur) = scan_lines(s);
    if cur.len() == 0 {
        done
    } else {
        done.push(cur)
    }
}

pub open spec fn deep(v: Seq<Vec<char>>) -> Seq<Seq<char>> {
    v.map_values(|x: Vec<char>| x@)
}

fn strip_cr_chars(v: Vec<char>) -> (r: Vec<char>)
    ensures
        r@ == strip_cr(v@),
{
    let mut v = v;
    if v.len() > 0 && v[v.len() - 1] == '\r' {
        v.pop();
    }
    v
}

/// The lines of a text, as `str::lines` gives them.
pub fn split_lines(s: &Vec<char>) -> (r: Vec<Vec<char>>)
    ensures
        deep(r@) == lines(s@),
{
    let mut done: Vec<Vec<char>> = Vec::new();
    let mut cur: Vec<char> = Vec::new();
    let mut i: usize = 0;
    while i < s.len()
        invariant
            i <= s@.len(),
            (deep(done@), cur@) == scan_lines(s@.subrange(0, i as int)),
        decreases s.len() - i,
    {
        let c = s[i];
        let ghost pre = s@.subrange(0, i as int);
        assert(s@.subrange(0, i + 1).drop_last() =~= pre);
        if c == '\n' {
            let line = strip_cr_chars(cur);
            done.push(line);
            cur = Vec::new();
            assert(deep(done@) =~= scan_lines(pre).0.push(strip_cr(scan_lines(pre).1)));
        } else {
            cur.push(c);
        }
        i = i + 1;
    }
    assert(s@.subrange(0, s@.len() as int) =~= s@);
    if cur.len() > 0 {
        done.push(cur);
        assert(deep(done@) =~= scan_lines(s@).0.push(scan_lines(s@).1));
    }
    done
}

// ---------------------------------------------------------------------------
// The branch line: `## branch...remote [ahead X, behind Y]`
// ---------------------------------------------------------------------------
pub open spec fn pat_branch_prefix() -> Seq<char> {
    seq!['#', '#', ' ']
}

pub open spec fn pat_no_commits() -> Seq<char> {
    seq![
        'N', 'o', ' ', 'c', 'o', 'm', 'm', 'i', 't', 's', ' ', 'y', 'e', 't', ' ', 'o', 'n', ' ',
    ]
}

pub open spec fn pat_head_no_branch() -> Seq<char> {
    seq!['H', 'E', 'A', 'D', ' ', '(', 'n', 'o', ' ', 'b', 'r', 'a', 'n', 'c', 'h', ')']
}

pub open spec fn pat_head_detached() -> Seq<char> {
    seq!['H', 'E', 'A', 'D', ' ', 'd', 'e', 't', 'a', 'c', 'h', 'e', 'd']
}

pub open spec fn pat_dots() -> Seq<char> {
    seq!['.', '.', '.']
}

pub open spec fn pat_ahead() -> Seq<char> {
    seq!['a', 'h', 'e', 'a', 'd', ' ']
}

pub open spec fn pat_behind() -> Seq<char> {
    seq!['b', 'e', 'h', 'i', 'n', 'd', ' ']
}

/// In the tracking part `[ahead X, behind Y]`, the number that follows `key`,
/// up to the next comma or the end, white space trimmed; `None` where `key`
/// is absent or what follows it is no number.
pub open spec fn tracking_count(tracking: Seq<char>, key: Seq<char>) -> Option<usize> {
    match find(tracking, key) {
        None => None,
        Some(ap) => {
            let after = tracking.subrange(ap + key.len(), tracking.len() as int);
            let end = match find(after, seq![',']) {
                Some(c) => c,
                None => after.len() as int,
            };
            parse_usize(trim(after.subrange(0, end)))
        },
    }
}

/// The branch line after its `## ` prefixes.
pub open spec fn branch_body(line: Seq<char>) -> Seq<char> {
    trim_start_matches(line, pat_branch_prefix())
}

pub open spec fn is_detached(l: Seq<char>) -> bool {
    find(l, pat_head_no_branch()) is Some || starts_with(l, pat_head_detached())
}

/// A branch line that can be read: where a `[` and a `]` follow the `...`,
/// the first `]` does not come before the first `[`.
pub open spec fn branch_line_parsable(line: Seq<char>) -> bool {
    let l = branch_body(line);
    if starts_with(l, pat_no_commits()) || is_detached(l) {
        true
    } else {
        match find(l, pat_dots()) {
            None => true,
            Some(d) => {
                let rest = l.subrange(d + 3, l.len() as int);
                match (find(rest, seq!['[']), find(rest, seq![']'])) {
                    (Some(bs), Some(be)) => bs < be,
                    _ => true,
                }
            },
        }
    }
}

/// What a branch line tells of the status `st`.
pub open spec fn apply_branch_line(st: GitStatusView, line: Seq<char>) -> GitStatusView {
    let l = branch_body(line);
    if starts_with(l, pat_no_commits()) {
        GitStatusView { branch: Some(trim_start_matches(l, pat_no_commits())), ..st }
    } else if is_detached(l) {
        GitStatusView { branch: None, ..st }
    } else {
        match find(l, pat_dots()) {
            Some(d) => {
                let st1 = GitStatusView { branch: Some(l.subrange(0, d)), ..st };
                let rest = l.subrange(d + 3, l.len() as int);
                match (find(rest, seq!['[']), find(rest, seq![']'])) {
                    (Some(bs), Some(be)) => {
                        let tracking = rest.subrange(bs + 1, be);
                        let st2 = match tracking_count(tracking, pat_ahead()) {
                            Some(a) => GitStatusView { ahead: a as nat, ..st1 },
                            None => st1,
                        };
                        match tracking_count(tracking, pat_behind()) {
                            Some(b) => GitStatusView { behind: b as nat, ..st2 },
                            None => st2,
                        }
                    },
                    _ => st1,
                }
            },
            None => GitStatusView {
                branch: Some(
                    match first_word(l) {
                        Some(w) => w,
                        None => l,
                    },
                ),
                ..st
            },
        }
    }
}

// ---------------------------------------------------------------------------
// Whole output
// ---------------------------------------------------------------------------
/// At least two bytes in UTF-8.
pub open spec fn at_least_two_bytes(line: Seq<char>) -> bool {
    line.len() >= 2 || (line.len() == 1 && (line[0] as u32) >= 0x80)
}

/// A status code that marks a change (neither a blank nor `?`).
pub open spec fn marks_change(c: char) -> bool {
    c != ' ' && c != '?'
}

/// What one line of the porcelain output tells of the status `st`.
pub open spec fn apply_line(st: GitStatusView, line: Seq<char>) -> GitStatusView {
    if starts_with(line, seq!['#', '#']) {
        apply_branch_line(st, line)
    } else if starts_with(line, seq!['?', '?']) {
        GitStatusView { untracked: st.untracked + 1, ..st }
    } else if at_least_two_bytes(line) {
        GitStatusView {
            staged: if marks_change(line[0]) {
                st.staged + 1
            } else {
                st.staged
            },
            modified: if line.len() >= 2 && marks_change(line[1]) {
                st.modified + 1
            } else {
                st.modified
            },
            ..st
        }
    } else {
        st
    }
}

pub open spec fn apply_lines(st: GitStatusView, ls: Seq<Seq<char>>) -> GitStatusView
    decreases ls.len(),
{
    if ls.len() == 0 {
        st
    } else {
        apply_line(apply_lines(st, ls.drop_last()), ls.last())
    }
}

/// The status the porcelain output describes.
pub open spec fn status_of_output(output: Seq<char>) -> GitStatusView {
    let st = apply_lines(clean_status(true), lines(output));
    GitStatusView {
        is_clean: st.modified == 0 && st.staged == 0 && st.untracked == 0,
        ..st
    }
}

/// Every branch line of the output can be read.
pub open spec fn status_output_parsable(output: Seq<char>) -> bool {
    forall|i: int|
        0 <= i < lines(output).len() && starts_with(#[trigger] lines(output)[i], seq!['#', '#'])
            ==> branch_line_parsable(lines(output)[i])
}

fn tracking_count_chars(tracking: &Vec<char>, key: &Vec<char>) -> (r: Option<usize>)
    ensures
        r == tracking_count(tracking@, key@),
{
    match find_chars(tracking, key) {
        None => None,
        Some(ap) => {
            proof {
                lemma_find_from_bounds(tracking@, key@, 0);
                assert(find_from(tracking@, key@, 0) == Some(ap as int));
                assert(occurs_at(tracking@, key@, ap as int));
                assert(ap + key@.len() <= tracking@.len());
                assert(ap + key.len() <= tracking.len());
            }
            let after = sub_chars(tracking, ap + key.len(), tracking.len());
            let comma = vec![','];
            assert(comma@ == seq![',']);
            let end = match find_chars(&after, &comma) {
                Some(c) => {
                    proof {
                        lemma_find_from_bounds(after@, comma@, 0);
                        assert(find_from(after@, comma@, 0) == Some(c as int));
                        assert(c <= after@.len());
                    }
                    c
                },
                None => after.len(),
            };
            let field = sub_chars(&after, 0, end);
            let trimmed = trim_chars(&field);
            parse_usize_chars(&trimmed)
        },
    }
}

fn is_detached_chars(l: &Vec<char>) -> (r: bool)
    ensures
        r == is_detached(l@),
{
    let no_branch = vec!['H', 'E', 'A', 'D', ' ', '(', 'n', 'o', ' ', 'b', 'r', 'a', 'n', 'c', 'h', ')'];
    let detached = vec!['H', 'E', 'A', 'D', ' ', 'd', 'e', 't', 'a', 'c', 'h', 'e', 'd'];
    assert(no_branch@ == pat_head_no_branch());
    assert(detached@ == pat_head_detached());
    find_chars(l, &no_branch).is_some() || starts_with_at(l, 0, &detached)
}

/// Whether a branch line can be read (see `branch_line_parsable`).
pub fn branch_line_is_parsable(line: &Vec<char>) -> (r: bool)
    ensures
        r == branch_line_parsable(line@),
{
    let prefix = vec!['#', '#', ' '];
    assert(prefix@ == pat_branch_prefix());
    let l = trim_start_matches_chars(line, &prefix);
    let no_commits = vec![
        'N', 'o', ' ', 'c', 'o', 'm', 'm', 'i', 't', 's', ' ', 'y', 'e', 't', ' ', 'o', 'n', ' ',
    ];
    assert(no_commits@ == pat_no_commits());
    if starts_with_at(&l, 0, &no_commits) || is_detached_chars(&l) {
        return true;
    }
    let dots = vec!['.', '.', '.'];
    assert(dots@ == pat_dots());
    match find_chars(&l, &dots) {
        None => true,
        Some(d) => {
            proof {
                lemma_find_from_bounds(l@, dots@, 0);
                assert(find_from(l@, dots@, 0) == Some(d as int));
                assert(d + 3 <= l@.len());
                assert(d + 3 <= l.len());
            }
            let rest = sub_chars(&l, d + 3, l.len());
            let open = vec!['['];
            assert(open@ == seq!['[']);
            let close = vec![']'];
            assert(close@ == seq![']']);
            match (find_chars(&rest, &open), find_chars(&rest, &close)) {
                (Some(bs), Some(be)) => bs < be,
                _ => true,
            }
        },
    }
}

fn apply_branch_line_exec(st: &mut GitStatus, line: &Vec<char>)
    requires
        branch_line_parsable(line@),
    ensures
        final(st)@ == apply_branch_line(old(st)@, line@),
{
    let prefix = vec!['#', '#', ' '];
    assert(prefix@ == pat_branch_prefix());
    let l = trim_start_matches_chars(line, &prefix);
    let no_commits = vec![
        'N', 'o', ' ', 'c', 'o', 'm', 'm', 'i', 't', 's', ' ', 'y', 'e', 't', ' ', 'o', 'n', ' ',
    ];
    assert(no_commits@ == pat_no_commits());
    if starts_with_at(&l, 0, &no_commits) {
        let b = trim_start_matches_chars(&l, &no_commits);
        st.branch = Some(string_from_chars(&b));
        return ;
    }
    if is_detached_chars(&l) {
        st.branch = None;
        return ;
    }
    let dots = vec!['.', '.', '.'];
    assert(dots@ == pat_dots());
    match find_chars(&l, &dots) {
        Some(d) => {
            proof {
                lemma_find_from_bounds(l@, dots@, 0);
                assert(find_from(l@, dots@, 0) == Some(d as int));
                assert(d + 3 <= l@.len());
                assert(d + 3 <= l.len());
            }
            let b = sub_chars(&l, 0, d);
            st.branch = Some(string_from_chars(&b));
            let rest = sub_chars(&l, d + 3, l.len());
            let open = vec!['['];
            assert(open@ == seq!['[']);
            let close = vec![']'];
            assert(close@ == seq![']']);
            match (find_chars(&rest, &open), find_chars(&rest, &close)) {
                (Some(bs), Some(be)) => {
                    proof {
                        lemma_find_from_bounds(rest@, open@, 0);
                        lemma_find_from_bounds(rest@, close@, 0);
                        assert(find_from(rest@, open@, 0) == Some(bs as int));
                        assert(find_from(rest@, close@, 0) == Some(be as int));
                        assert(bs < be);
                        assert(be < rest@.len());
                    }
                    let tracking = sub_chars(&rest, bs + 1, be);
                    let ahead = vec!['a', 'h', 'e', 'a', 'd', ' '];
                    assert(ahead@ == pat_ahead());
                    if let Some(a) = tracking_count_chars(&tracking, &ahead) {
                        st.ahead = a;
                    }
                    let behind = vec!['b', 'e', 'h', 'i', 'n', 'd', ' '];
                    assert(behind@ == pat_behind());
                    if let Some(b) = tracking_count_chars(&tracking, &behind) {
                        st.behind = b;
                    }
                },
                _ => {},
            }
        },
        None => {
            let w = match first_word_chars(&l) {
                Some(w) => w,
                None => l,
            };
            st.branch = Some(string_from_chars(&w));
        },
    }
}

fn apply_line_exec(st: &mut GitStatus, line: &Vec<char>, bound: usize)
    requires
        starts_with(line@, seq!['#', '#']) ==> branch_line_parsable(line@),
        old(st).staged < bound,
        old(st).modified < bound,
        old(st).untracked < bound,
    ensures
        final(st)@ == apply_line(old(st)@, line@),
{
    let hh = vec!['#', '#'];
    let qq = vec!['?', '?'];
    if starts_with_at(line, 0, &hh) {
        assert(line@.subrange(0, line@.len() as int) =~= line@);
        apply_branch_line_exec(st, line);
    } else if starts_with_at(line, 0, &qq) {
        st.untracked = st.untracked + 1;
    } else if line.len() >= 2 || (line.len() == 1 && (line[0] as u32) >= 0x80) {
        if line[0] != ' ' && line[0] != '?' {
            st.staged = st.staged + 1;
        }
        if line.len() >= 2 && line[1] != ' ' && line[1] != '?' {
            st.modified = st.modified + 1;
        }
    }
    proof {
        assert(line@.subrange(0, line@.len() as int) =~= line@);
    }
}

/// Whether every branch line of a porcelain output can be read.
pub fn status_output_is_parsable(output: &str) -> (r: bool)
    ensures
        r == status_output_parsable(output@),
{
    let chars = chars_of(output);
    let ls = split_lines(&chars);
    let hh = vec!['#', '#'];
    let mut k: usize = 0;
    while k < ls.len()
        invariant
            k <= ls@.len(),
            deep(ls@) == lines(output@),
            hh@ == seq!['#', '#'],
            forall|i: int|
                0 <= i < k && starts_with(#[trigger] lines(output@)[i], seq!['#', '#'])
                    ==> branch_line_parsable(lines(output@)[i]),
        decreases ls.len() - k,
    {
        assert(deep(ls@)[k as int] == ls@[k as int]@);
        if starts_with_at(&ls[k], 0, &hh) && !branch_line_is_parsable(&ls[k]) {
            assert(ls@[k as int]@.subrange(0, ls@[k as int]@.len() as int) =~= ls@[k as int]@);
            return false;
        }
        assert(ls@[k as int]@.subrange(0, ls@[k as int]@.len() as int) =~= ls@[k as int]@);
        k = k + 1;
    }
    true
}

/// Parse git status porcelain output (`git status --porcelain=v1 --branch`):
/// the branch line gives the branch and how far it is ahead of and behind its
/// remote, `??` lines count untracked files, and of the other lines of two
/// bytes or more, the first status character counts a staged change and the
/// second an unstaged one.
pub fn parse_git_status(output: &str) -> (r: GitStatus)
    requires
        status_output_parsable(output@),
    ensures
        r@ == status_of_output(output@),
        r@.is_clean <==> (r@.modified == 0 && r@.staged == 0 && r@.untracked == 0),
{
    let chars = chars_of(output);
    let ls = split_lines(&chars);
    let mut st = GitStatus::new_default();
    let mut k: usize = 0;
    while k < ls.len()
        invariant
            k <= ls@.len(),
            deep(ls@) == lines(output@),
            status_output_parsable(output@),
            st@ == apply_lines(clean_status(true), deep(ls@).subrange(0, k as int)),
            st.staged <= k,
            st.modified <= k,
            st.untracked <= k,
        decreases ls.len() - k,
    {
        assert(deep(ls@)[k as int] == ls@[k as int]@);
        assert(deep(ls@).subrange(0, k + 1).drop_last() =~= deep(ls@).subrange(0, k as int));
        apply_line_exec(&mut st, &ls[k], k + 1);
        k = k + 1;
    }
    assert(deep(ls@).subrange(0, ls@.len() as int) =~= deep(ls@));
    st.is_clean = st.modified == 0 && st.staged == 0 && st.untracked == 0;
    st
}

/// The status of a project directory: `not_a_repo` without a `.git` entry,
/// `error` when running `git status` failed, and otherwise what its output says.
pub fn get_git_status(has_git_dir: bool, status_output: Option<&str>) -> (r: GitStatus)
    requires
        status_output matches Some(o) ==> status_output_parsable(o@),
    ensures
        !has_git_dir ==> r@ == clean_status(false),
        has_git_dir && status_output is None ==> r@ == clean_status(true),
        has_git_dir ==> (status_output matches Some(o) ==> r@ == status_of_output(o@)),
{
    if !has_git_dir {
        return GitStatus::not_a_repo();
    }
    match status_output {
        Some(o) => parse_git_status(o),
        None => GitStatus::error(),
    }
}

// ---------------------------------------------------------------------------
// What the counts count
// ---------------------------------------------------------------------------
/// A file line: neither the branch line (`##`) nor an untracked file (`??`).
pub open spec fn is_file_line(l: Seq<char>) -> bool {
    !starts_with(l, seq!['#', '#']) && !starts_with(l, seq!['?', '?'])
}

/// How many of the lines satisfy `p`.
pub open spec fn count_lines(ls: Seq<Seq<char>>, p: spec_fn(Seq<char>) -> bool) -> nat
    decreases ls.len(),
{
    if ls.len() == 0 {
        0
    } else {
        count_lines(ls.drop_last(), p) + if p(ls.last()) {
            1nat
        } else {
            0nat
        }
    }
}

proof fn lemma_counts(st: GitStatusView, ls: Seq<Seq<char>>)
    ensures
        apply_lines(st, ls).modified == st.modified + count_lines(
            ls,
            |l: Seq<char>| is_file_line(l) && l.len() >= 2 && l[1] != ' ' && l[1] != '?',
        ),
        apply_lines(st, ls).staged == st.staged + count_lines(
            ls,
            |l: Seq<char>|
                is_file_line(l) && (l.len() >= 2 || (l.len() == 1 && (l[0] as u32) >= 0x80))
                    && l[0] != ' ' && l[0] != '?',
        ),
        apply_lines(st, ls).untracked == st.untracked + count_lines(
            ls,
            |l: Seq<char>| starts_with(l, seq!['?', '?']),
        ),
    decreases ls.len(),
{
    if ls.len() > 0 {
        lemma_counts(st, ls.drop_last());
        let s0 = apply_lines(st, ls.drop_last());
        let l = ls.last();
        if starts_with(l, seq!['#', '#']) {
            let l2 = branch_body(l);
            assert(apply_branch_line(s0, l).modified == s0.modified);
            assert(apply_branch_line(s0, l).staged == s0.staged);
            assert(apply_branch_line(s0, l).untracked == s0.untracked);
            assert(!starts_with(l, seq!['?', '?'])) by {
                assert(l[0] == '#');
            }
        }
    }
}

/// The counts of a parsed status: each file line whose second status
/// character is neither a blank nor `?` counts one unstaged change (a deleted
/// file, `D`, among them); each file line of two bytes or more whose first
/// character is neither counts one staged change; each `??` line counts one
/// untracked file. The status is clean exactly when all three are zero, so a
/// single such line makes it unclean.
pub proof fn law_status_counts(output: Seq<char>)
    ensures
        status_of_output(output).modified == count_lines(
            lines(output),
            |l: Seq<char>| is_file_line(l) && l.len() >= 2 && l[1] != ' ' && l[1] != '?',
        ),
        status_of_output(output).staged == count_lines(
            lines(output),
            |l: Seq<char>|
                is_file_line(l) && (l.len() >= 2 || (l.len() == 1 && (l[0] as u32) >= 0x80))
                    && l[0] != ' ' && l[0] != '?',
        ),
        status_of_output(output).untracked == count_lines(
            lines(output),
            |l: Seq<char>| starts_with(l, seq!['?', '?']),
        ),
        status_of_output(output).is_clean <==> (status_of_output(output).modified == 0
            && status_of_output(output).staged == 0 && status_of_output(output).untracked == 0),
{
    lemma_counts(clean_status(true), lines(output));
}

/// One more line that changes a file in the working tree (its second status
/// character neither a blank nor `?`, as ` M` or ` D`) counts one more
/// unstaged change, whatever came before.
pub proof fn law_unstaged_line_counts(st: GitStatusView, ls: Seq<Seq<char>>, l: Seq<char>)
    requires
        is_file_line(l),
        l.len() >= 2,
        l[1] != ' ',
        l[1] != '?',
    ensures
        apply_lines(st, ls.push(l)).modified == apply_lines(st, ls).modified + 1,
{
    assert(ls.push(l).drop_last() =~= ls);
}

} // verus!
