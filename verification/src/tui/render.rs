//! What the screens say: the text of each part of the interface as lines of
//! styled spans, and the small computations of layout that do not depend on
//! the terminal's size. Drawing them is left to whoever runs the interface.
use vstd::prelude::*;
use vstd::view::View as ViewTrait;

use crate::forms::{FieldView, Form, FormField, PathKind};
use crate::fs::{logs_view, LogFile, LogFileView};
use crate::state::build_status::{BuildState, BuildStatus};
use crate::state::git::{deep, lines, split_lines, GitStatus, GitStatusView};
use crate::text::{chars_of, decimal_text, i64_to_text, str_eq, string_from_chars, strs, u64_to_text};
use crate::logger::{has, has_exec};

verus! {

/// The colours of the theme (made for black backgrounds).
#[derive(Clone, Copy, Debug, PartialEq, Eq, Structural)]
pub enum Tone {
    /// No colour of its own.
    Plain,
    /// The brand colour, for primary actions and the selection.
    Accent,
    Success,
    Error,
    /// Main text.
    Primary,
    /// Metadata, paths, help.
    Secondary,
    /// Lines and dividers.
    Separator,
    /// The git category of a log.
    Orange,
    /// The lint category of a log.
    Purple,
    /// Dark text on the brand colour, for the highlighted candidate.
    Badge,
    /// The unlit cells of the progress bar.
    Dim,
    /// The lit cells of the progress bar.
    Bright,
}

/// A piece of text in one style.
#[derive(Clone, Debug)]
pub struct StyledSpan {
    pub text: String,
    pub tone: Tone,
    pub bold: bool,
    pub underlined: bool,
}

pub struct SpanView {
    pub text: Seq<char>,
    pub tone: Tone,
    pub bold: bool,
    pub underlined: bool,
}

impl ViewTrait for StyledSpan {
    type V = SpanView;

    open spec fn view(&self) -> SpanView {
        SpanView { text: self.text@, tone: self.tone, bold: self.bold, underlined: self.underlined }
    }
}

pub open spec fn line_view(l: Seq<StyledSpan>) -> Seq<SpanView> {
    l.map_values(|s: StyledSpan| s@)
}

pub open spec fn lines_view(v: Seq<Vec<StyledSpan>>) -> Seq<Seq<SpanView>> {
    v.map_values(|l: Vec<StyledSpan>| line_view(l@))
}

pub open spec fn sv(text: Seq<char>, tone: Tone, bold: bool) -> SpanView {
    SpanView { text, tone, bold, underlined: false }
}

/// Unstyled text.
pub open spec fn raw(text: Seq<char>) -> SpanView {
    sv(text, Tone::Plain, false)
}

pub(crate) fn span(text: &str, tone: Tone, bold: bool) -> (r: StyledSpan)
    ensures
        r@ == sv(text@, tone, bold),
{
    StyledSpan { text: String::from_str(text), tone, bold, underlined: false }
}

pub(crate) fn span_of(text: String, tone: Tone, bold: bool) -> (r: StyledSpan)
    ensures
        r@ == sv(text@, tone, bold),
{
    StyledSpan { text, tone, bold, underlined: false }
}

/// Adds a span to a line.
pub(crate) fn put(line: &mut Vec<StyledSpan>, s: StyledSpan)
    ensures
        line_view(final(line)@) == line_view(old(line)@).push(s@),
{
    let ghost before = line@;
    line.push(s);
    assert(line_view(line@) =~= line_view(before).push(s@));
}

/// Adds a line.
pub(crate) fn put_line(out: &mut Vec<Vec<StyledSpan>>, l: Vec<StyledSpan>)
    ensures
        lines_view(final(out)@) == lines_view(old(out)@).push(line_view(l@)),
{
    let ghost before = out@;
    out.push(l);
    assert(lines_view(out@) =~~= lines_view(before).push(line_view(l@)));
}

/// Texts joined with a separator.
pub open spec fn join_with(parts: Seq<Seq<char>>, sep: Seq<char>) -> Seq<char>
    decreases parts.len(),
{
    if parts.len() == 0 {
        seq![]
    } else if parts.len() == 1 {
        parts[0]
    } else {
        join_with(parts.drop_last(), sep) + sep + parts.last()
    }
}

pub(crate) fn join_strings(v: &Vec<String>, sep: &str) -> (r: String)
    ensures
        r@ == join_with(strs(v@), sep@),
{
    let mut out = String::new();
    let mut i: usize = 0;
    while i < v.len()
        invariant
            i <= v@.len(),
            out@ == join_with(strs(v@).subrange(0, i as int), sep@),
        decreases v.len() - i,
    {
        assert(strs(v@).subrange(0, i + 1).drop_last() =~= strs(v@).subrange(0, i as int));
        if i > 0 {
            out.append(sep);
        }
        out.append(v[i].as_str());
        proof {
            if i == 0 {
                assert(out@ =~= strs(v@).subrange(0, 1)[0]);
            }
        }
        i = i + 1;
    }
    assert(strs(v@).subrange(0, v@.len() as int) =~= strs(v@));
    out
}

// ---------------------------------------------------------------------------
// Git status
// ---------------------------------------------------------------------------
pub open spec fn opt_part(keep: bool, text: Seq<char>) -> Seq<Seq<char>> {
    if keep {
        seq![text]
    } else {
        seq![]
    }
}

/// The changed-file counts that are not zero.
pub open spec fn count_parts(g: GitStatusView) -> Seq<Seq<char>> {
    opt_part(g.staged > 0, decimal_text(g.staged as int) + " staged"@) + opt_part(
        g.modified > 0,
        decimal_text(g.modified as int) + " modified"@,
    ) + opt_part(g.untracked > 0, decimal_text(g.untracked as int) + " untracked"@)
}

/// Commits to push and to pull, where there are any.
pub open spec fn tracking_parts(g: GitStatusView) -> Seq<Seq<char>> {
    opt_part(g.ahead > 0, "↑"@ + decimal_text(g.ahead as int)) + opt_part(
        g.behind > 0,
        "↓"@ + decimal_text(g.behind as int),
    )
}

/// The git part of the detail view: the branch and whether the tree is
/// clean; the counts of changed files when it is not; commits ahead and behind.
pub open spec fn git_status_lines_of(g: GitStatusView) -> Seq<Seq<SpanView>> {
    if !g.is_repo {
        seq![seq![sv("Not a git repository"@, Tone::Secondary, false)]]
    } else {
        let branch = match g.branch {
            Some(b) => "Branch: "@ + b,
            None => "Branch: (detached HEAD)"@,
        };
        let first = seq![
            sv(branch, Tone::Primary, false),
            if g.is_clean {
                sv(" ✓ Clean"@, Tone::Success, true)
            } else {
                sv(" ● Modified"@, Tone::Error, true)
            },
        ];
        let counts = count_parts(g);
        let tracking = tracking_parts(g);
        seq![first] + (if !g.is_clean && counts.len() > 0 {
            seq![seq![sv("  "@ + join_with(counts, ", "@), Tone::Secondary, false)]]
        } else {
            seq![]
        }) + (if g.ahead > 0 || g.behind > 0 {
            seq![seq![sv("  "@ + join_with(tracking, " "@), Tone::Accent, false)]]
        } else {
            seq![]
        })
    }
}

fn counted_text(n: usize, suffix: &str) -> (r: String)
    ensures
        r@ == decimal_text(n as int) + suffix@,
{
    let mut s = u64_to_text(n as u64);
    s.append(suffix);
    s
}

fn push_part(parts: &mut Vec<String>, s: String)
    ensures
        strs(final(parts)@) == strs(old(parts)@).push(s@),
{
    let ghost before = parts@;
    parts.push(s);
    assert(strs(parts@) =~= strs(before).push(s@));
}

pub fn git_status_lines(git: &GitStatus) -> (r: Vec<Vec<StyledSpan>>)
    ensures
        lines_view(r@) == git_status_lines_of(git@),
{
    let mut out: Vec<Vec<StyledSpan>> = Vec::new();
    if !git.is_repo {
        let mut l: Vec<StyledSpan> = Vec::new();
        put(&mut l, span("Not a git repository", Tone::Secondary, false));
        put_line(&mut out, l);
        assert(lines_view(out@) =~~= git_status_lines_of(git@));
        return out;
    }
    let branch = match &git.branch {
        Some(b) => {
            let mut s = String::from_str("Branch: ");
            s.append(b.as_str());
            s
        },
        None => String::from_str("Branch: (detached HEAD)"),
    };
    let mut first: Vec<StyledSpan> = Vec::new();
    put(&mut first, span_of(branch, Tone::Primary, false));
    if git.is_clean {
        put(&mut first, span(" ✓ Clean", Tone::Success, true));
    } else {
        put(&mut first, span(" ● Modified", Tone::Error, true));
    }
    put_line(&mut out, first);
    let mut parts: Vec<String> = Vec::new();
    if git.staged > 0 {
        push_part(&mut parts, counted_text(git.staged, " staged"));
    }
    if git.modified > 0 {
        push_part(&mut parts, counted_text(git.modified, " modified"));
    }
    if git.untracked > 0 {
        push_part(&mut parts, counted_text(git.untracked, " untracked"));
    }
    assert(strs(parts@) =~= count_parts(git@));
    if !git.is_clean && parts.len() > 0 {
        let mut t = String::from_str("  ");
        let j = join_strings(&parts, ", ");
        t.append(j.as_str());
        let mut l: Vec<StyledSpan> = Vec::new();
        put(&mut l, span_of(t, Tone::Secondary, false));
        put_line(&mut out, l);
    }
    let mut tracking: Vec<String> = Vec::new();
    if git.ahead > 0 {
        let mut s = String::from_str("↑");
        let n = u64_to_text(git.ahead as u64);
        s.append(n.as_str());
        push_part(&mut tracking, s);
    }
    if git.behind > 0 {
        let mut s = String::from_str("↓");
        let n = u64_to_text(git.behind as u64);
        s.append(n.as_str());
        push_part(&mut tracking, s);
    }
    assert(strs(tracking@) =~= tracking_parts(git@));
    if git.ahead > 0 || git.behind > 0 {
        let mut t = String::from_str("  ");
        let j = join_strings(&tracking, " ");
        t.append(j.as_str());
        let mut l: Vec<StyledSpan> = Vec::new();
        put(&mut l, span_of(t, Tone::Accent, false));
        put_line(&mut out, l);
    }
    assert(lines_view(out@) =~~= git_status_lines_of(git@));
    out
}

// ---------------------------------------------------------------------------
// Times
// ---------------------------------------------------------------------------
/// Whether `chrono::DateTime::<Utc>::from_timestamp` accepts a number of
/// seconds: the times from the start of January 1 of the year -262143 to the
/// end of December 31 of the year 262142, chrono's range of dates
/// (`MIN_YEAR` and `MAX_YEAR`).
pub open spec fn representable_time(secs: i64) -> bool {
    -8334601228800 <= secs <= 8210266876799
}

/// `chrono::DateTime::<Utc>::from_timestamp(secs, 0).is_some()`. Claimed: it
/// holds exactly of the seconds within chrono's range of dates
/// (`representable_time`).
#[verifier::external_body]
fn time_representable(secs: i64) -> (r: bool)
    ensures
        r == representable_time(secs),
{
    chrono::DateTime::<chrono::Utc>::from_timestamp(secs, 0).is_some()
}

/// How long ago, in the long form: `just now` under a minute, then whole
/// minutes, hours or days.
pub open spec fn ago_long(secs: int) -> Seq<char> {
    if secs < 60 {
        "just now"@
    } else if secs / 60 < 60 {
        decimal_text(secs / 60) + " minutes ago"@
    } else if secs / 3600 < 24 {
        decimal_text(secs / 3600) + " hours ago"@
    } else {
        decimal_text(secs / 86400) + " days ago"@
    }
}

/// How long ago, in the short form (`5m ago`).
pub open spec fn ago_short(secs: int) -> Seq<char> {
    if secs < 60 {
        "just now"@
    } else if secs / 60 < 60 {
        decimal_text(secs / 60) + "m ago"@
    } else if secs / 3600 < 24 {
        decimal_text(secs / 3600) + "h ago"@
    } else {
        decimal_text(secs / 86400) + "d ago"@
    }
}

fn ago(secs: i128, short: bool) -> (r: String)
    requires
        -0x1_0000_0000_0000_0000 < secs < 0x1_0000_0000_0000_0000,
    ensures
        r@ == (if short {
            ago_short(secs as int)
        } else {
            ago_long(secs as int)
        }),
{
    if secs < 60 {
        return String::from_str("just now");
    }
    let (n, unit) = if secs / 60 < 60 {
        ((secs / 60) as u64, if short { "m ago" } else { " minutes ago" })
    } else if secs / 3600 < 24 {
        ((secs / 3600) as u64, if short { "h ago" } else { " hours ago" })
    } else {
        ((secs / 86400) as u64, if short { "d ago" } else { " days ago" })
    };
    let mut s = u64_to_text(n);
    s.append(unit);
    s
}

// ---------------------------------------------------------------------------
// Build state
// ---------------------------------------------------------------------------
pub open spec fn build_status_span(s: BuildStatus) -> SpanView {
    match s {
        BuildStatus::Success => sv("✓ Success"@, Tone::Success, true),
        BuildStatus::Failed => sv("✗ Failed"@, Tone::Error, true),
        BuildStatus::Running => sv("⟳ Running"@, Tone::Accent, true),
    }
}

/// The build part of the detail view, at time `now` (seconds since the epoch):
/// the task and how it went, and when, where that time can be shown.
pub open spec fn build_state_lines_of(task: Seq<char>, status: BuildStatus, timestamp: i64, now: i64) -> Seq<
    Seq<SpanView>,
> {
    seq![seq![sv("Build: "@ + task, Tone::Primary, false), raw("  "@), build_status_span(status)]]
        + if representable_time(timestamp) {
        seq![seq![sv("  Last build: "@ + ago_long(now - timestamp), Tone::Secondary, false)]]
    } else {
        seq![]
    }
}

pub fn build_state_lines(build: &BuildState, now: i64) -> (r: Vec<Vec<StyledSpan>>)
    ensures
        lines_view(r@) == build_state_lines_of(build.task@, build.status, build.timestamp, now),
{
    let mut out: Vec<Vec<StyledSpan>> = Vec::new();
    let mut first: Vec<StyledSpan> = Vec::new();
    let mut t = String::from_str("Build: ");
    t.append(build.task.as_str());
    put(&mut first, span_of(t, Tone::Primary, false));
    put(&mut first, span("  ", Tone::Plain, false));
    match build.status {
        BuildStatus::Success => put(&mut first, span("✓ Success", Tone::Success, true)),
        BuildStatus::Failed => put(&mut first, span("✗ Failed", Tone::Error, true)),
        BuildStatus::Running => put(&mut first, span("⟳ Running", Tone::Accent, true)),
    }
    put_line(&mut out, first);
    if time_representable(build.timestamp) {
        let d = (now as i128) - (build.timestamp as i128);
        let mut s = String::from_str("  Last build: ");
        let a = ago(d, false);
        s.append(a.as_str());
        let mut l: Vec<StyledSpan> = Vec::new();
        put(&mut l, span_of(s, Tone::Secondary, false));
        put_line(&mut out, l);
    }
    assert(lines_view(out@) =~~= build_state_lines_of(build.task@, build.status, build.timestamp, now));
    out
}

// ---------------------------------------------------------------------------
// Recent logs
// ---------------------------------------------------------------------------
/// The colour of a log's category badge.
pub open spec fn category_tone(c: Seq<char>) -> Tone {
    if c == "build"@ {
        Tone::Accent
    } else if c == "git"@ {
        Tone::Orange
    } else if c == "lint"@ {
        Tone::Purple
    } else {
        Tone::Secondary
    }
}

/// When a log was last written, in the short form; `unknown` before the
/// epoch or where the time cannot be shown. `timestamp` is in nanoseconds.
pub open spec fn log_age(timestamp: i128, now: i64) -> Seq<char> {
    if timestamp < 0 {
        "unknown"@
    } else {
        let secs = timestamp / 1_000_000_000;
        if representable_time(secs as i64) {
            ago_short(now - secs)
        } else {
            "unknown"@
        }
    }
}

pub open spec fn log_line_of(log: LogFileView, selected: bool, now: i64) -> Seq<SpanView> {
    seq![
        sv(if selected { ">"@ } else { " "@ }, Tone::Accent, false),
        raw(" "@),
        sv("["@ + log.category + "]"@, category_tone(log.category), true),
        raw(" "@),
        sv(log.filename, Tone::Primary, selected),
        raw("  "@),
        sv(log_age(log.timestamp, now), Tone::Secondary, selected),
    ]
}

pub open spec fn log_lines_of(logs: Seq<LogFileView>, selected: usize, now: i64) -> Seq<Seq<SpanView>>
    decreases logs.len(),
{
    if logs.len() == 0 {
        seq![]
    } else {
        log_lines_of(logs.drop_last(), selected, now).push(
            log_line_of(logs.last(), (logs.len() - 1) == selected, now),
        )
    }
}

pub open spec fn log_help_line() -> Seq<SpanView> {
    seq![
        sv("  Use "@, Tone::Secondary, false),
        sv("↑↓"@, Tone::Accent, false),
        sv(" to navigate, "@, Tone::Secondary, false),
        sv("l"@, Tone::Accent, false),
        sv(" to preview, "@, Tone::Secondary, false),
        sv("o"@, Tone::Accent, false),
        sv(" to open in editor"@, Tone::Secondary, false),
    ]
}

/// The logs part of the detail view: a title, then each log (the selected one
/// marked) and how to use them, or a note that there are none.
pub open spec fn recent_logs_lines_of(logs: Seq<LogFileView>, selected: usize, now: i64) -> Seq<Seq<SpanView>> {
    seq![seq![sv("Recent Logs"@, Tone::Primary, true)]] + if logs.len() == 0 {
        seq![seq![sv("  No logs available"@, Tone::Secondary, false)]]
    } else {
        log_lines_of(logs, selected, now) + seq![seq![], log_help_line()]
    }
}

/// The timestamps of logs fit the seconds of a `std::time::SystemTime`.
pub open spec fn log_times_fit(logs: Seq<LogFileView>) -> bool {
    forall|i: int| 0 <= i < logs.len() ==> (#[trigger] logs[i]).timestamp / 1_000_000_000 <= i64::MAX
}

fn log_age_text(timestamp: i128, now: i64) -> (r: String)
    requires
        timestamp / 1_000_000_000 <= i64::MAX,
    ensures
        r@ == log_age(timestamp, now),
{
    if timestamp < 0 {
        return String::from_str("unknown");
    }
    let secs = (timestamp / 1_000_000_000) as i64;
    if time_representable(secs) {
        ago((now as i128) - (secs as i128), true)
    } else {
        String::from_str("unknown")
    }
}

fn category_tone_of(c: &str) -> (r: Tone)
    ensures
        r == category_tone(c@),
{
    if str_eq(c, "build") {
        Tone::Accent
    } else if str_eq(c, "git") {
        Tone::Orange
    } else if str_eq(c, "lint") {
        Tone::Purple
    } else {
        Tone::Secondary
    }
}

pub fn recent_logs_lines(logs: &Vec<LogFile>, selected: usize, now: i64) -> (r: Vec<Vec<StyledSpan>>)
    requires
        log_times_fit(logs_view(logs@)),
    ensures
        lines_view(r@) == recent_logs_lines_of(logs_view(logs@), selected, now),
{
    let mut out: Vec<Vec<StyledSpan>> = Vec::new();
    let mut title: Vec<StyledSpan> = Vec::new();
    put(&mut title, span("Recent Logs", Tone::Primary, true));
    put_line(&mut out, title);
    if logs.len() == 0 {
        let mut l: Vec<StyledSpan> = Vec::new();
        put(&mut l, span("  No logs available", Tone::Secondary, false));
        put_line(&mut out, l);
        assert(lines_view(out@) =~~= recent_logs_lines_of(logs_view(logs@), selected, now));
        return out;
    }
    let ghost head = lines_view(out@);
    let mut i: usize = 0;
    while i < logs.len()
        invariant
            i <= logs@.len(),
            log_times_fit(logs_view(logs@)),
            lines_view(out@) == head + log_lines_of(logs_view(logs@).subrange(0, i as int), selected, now),
        decreases logs.len() - i,
    {
        let log = &logs[i];
        assert(logs_view(logs@)[i as int] == log@);
        assert(logs_view(logs@).subrange(0, i + 1).drop_last() =~= logs_view(logs@).subrange(0, i as int));
        let sel = i == selected;
        let mut l: Vec<StyledSpan> = Vec::new();
        put(&mut l, span(if sel { ">" } else { " " }, Tone::Accent, false));
        put(&mut l, span(" ", Tone::Plain, false));
        let mut badge = String::from_str("[");
        badge.append(log.category.as_str());
        badge.append("]");
        put(&mut l, span_of(badge, category_tone_of(log.category.as_str()), true));
        put(&mut l, span(" ", Tone::Plain, false));
        put(&mut l, span_of(log.filename.clone(), Tone::Primary, sel));
        put(&mut l, span("  ", Tone::Plain, false));
        put(&mut l, span_of(log_age_text(log.timestamp, now), Tone::Secondary, sel));
        assert(line_view(l@) =~= log_line_of(log@, sel, now));
        put_line(&mut out, l);
        i = i + 1;
        assert(lines_view(out@) =~~= head + log_lines_of(logs_view(logs@).subrange(0, i as int), selected, now));
    }
    assert(logs_view(logs@).subrange(0, logs@.len() as int) =~= logs_view(logs@));
    let empty: Vec<StyledSpan> = Vec::new();
    assert(line_view(empty@) =~= seq![]);
    put_line(&mut out, empty);
    let mut help: Vec<StyledSpan> = Vec::new();
    put(&mut help, span("  Use ", Tone::Secondary, false));
    put(&mut help, span("↑↓", Tone::Accent, false));
    put(&mut help, span(" to navigate, ", Tone::Secondary, false));
    put(&mut help, span("l", Tone::Accent, false));
    put(&mut help, span(" to preview, ", Tone::Secondary, false));
    put(&mut help, span("o", Tone::Accent, false));
    put(&mut help, span(" to open in editor", Tone::Secondary, false));
    put_line(&mut out, help);
    assert(lines_view(out@) =~~= recent_logs_lines_of(logs_view(logs@), selected, now));
    out
}

// ---------------------------------------------------------------------------
// Small layout rules
// ---------------------------------------------------------------------------
/// How a workspace's project count reads.
pub open spec fn project_count_text(n: nat) -> Seq<char> {
    if n == 1 {
        "1 project"@
    } else {
        decimal_text(n as int) + " projects"@
    }
}

pub fn project_count_label(n: usize) -> (r: String)
    ensures
        r@ == project_count_text(n as nat),
{
    if n == 1 {
        String::from_str("1 project")
    } else {
        counted_text(n, " projects")
    }
}

/// The slice of the candidate list shown (eight at a time): from the top
/// until the selection passes the eighth, then keeping it at the bottom.
pub open spec fn match_window(selected: usize, total: usize) -> (usize, usize) {
    let start: int = if selected < 8 {
        0
    } else {
        let keep = selected - 8 + 1;
        let last = if total >= 8 { total - 8 } else { 0 };
        if keep < last { keep } else { last }
    };
    let end: int = if start + 8 < total { start + 8 } else { total as int };
    (start as usize, end as usize)
}

pub fn visible_matches(selected: usize, total: usize) -> (r: (usize, usize))
    ensures
        r == match_window(selected, total),
        r.0 <= r.1 || total < r.0,
{
    let start = if selected < 8 {
        0
    } else {
        let keep = selected - 8 + 1;
        let last = if total >= 8 { total - 8 } else { 0 };
        if keep < last { keep } else { last }
    };
    let end = if start < total && total - start > 8 { start + 8 } else { total };
    (start, end)
}

/// The note on candidates hidden above and below the window, if any.
pub open spec fn scroll_note(start: usize, end: usize, total: usize) -> Option<Seq<char>> {
    if total > 8 {
        let parts = opt_part(start > 0, "↑ "@ + decimal_text(start as int) + " more above"@) + opt_part(
            total > end,
            "↓ "@ + decimal_text(total - end) + " more below"@,
        );
        if parts.len() > 0 {
            Some("  "@ + join_with(parts, "  •  "@))
        } else {
            None
        }
    } else {
        None
    }
}

pub fn scroll_indicator(start: usize, end: usize, total: usize) -> (r: Option<String>)
    requires
        end <= total,
    ensures
        match r {
            Some(s) => scroll_note(start, end, total) == Some(s@),
            None => scroll_note(start, end, total) is None,
        },
{
    if total <= 8 {
        return None;
    }
    let mut parts: Vec<String> = Vec::new();
    if start > 0 {
        let mut s = String::from_str("↑ ");
        let n = u64_to_text(start as u64);
        s.append(n.as_str());
        s.append(" more above");
        push_part(&mut parts, s);
    }
    if total > end {
        let mut s = String::from_str("↓ ");
        let n = u64_to_text((total - end) as u64);
        s.append(n.as_str());
        s.append(" more below");
        push_part(&mut parts, s);
    }
    assert(strs(parts@) =~= opt_part(start > 0, "↑ "@ + decimal_text(start as int) + " more above"@)
        + opt_part(total > end, "↓ "@ + decimal_text(total - end) + " more below"@));
    if parts.len() > 0 {
        let mut s = String::from_str("  ");
        let j = join_strings(&parts, "  •  ");
        s.append(j.as_str());
        Some(s)
    } else {
        None
    }
}

/// The lines of a log shown in a preview pane `height` rows tall (borders and
/// the two-line header take four): from the scroll offset, held to the last
/// line, as many as fit, within the log.
pub open spec fn log_window_of(scroll_offset: usize, total: usize, height: u16) -> (usize, usize) {
    let visible: int = if height >= 4 { height - 4 } else { 0 };
    let last: int = if total >= 1 { total - 1 } else { 0 };
    let start: int = if scroll_offset < last { scroll_offset as int } else { last };
    let end: int = if start + visible < total { start + visible } else { total as int };
    (start as usize, end as usize)
}

pub fn log_window(scroll_offset: usize, total: usize, height: u16) -> (r: (usize, usize))
    ensures
        r == log_window_of(scroll_offset, total, height),
        r.0 <= r.1 <= total,
{
    let visible: usize = if height >= 4 { (height - 4) as usize } else { 0 };
    let last: usize = if total >= 1 { total - 1 } else { 0 };
    let start: usize = if scroll_offset < last { scroll_offset } else { last };
    let end: usize = if start < total && total - start > visible { start + visible } else { total };
    (start, end)
}

/// The scanner of the progress bar, `width` cells wide: how many dim cells,
/// bright cells (eight, cut at the end) and dim cells again, at `frame`.
pub open spec fn scanner_of(frame: usize, width: usize) -> (usize, usize, usize) {
    let position = ((frame / 2) % width) as usize;
    let bright_end: usize = if position + 8 < width { (position + 8) as usize } else { width };
    (position, (bright_end - position) as usize, (width - bright_end) as usize)
}

pub fn scanner(frame: usize, width: usize) -> (r: (usize, usize, usize))
    requires
        width > 0,
    ensures
        r == scanner_of(frame, width),
        r.0 + r.1 + r.2 == width,
{
    let position = (frame / 2) % width;
    let bright_end = if width - position > 8 { position + 8 } else { width };
    (position, bright_end - position, width - bright_end)
}

/// How long a command has run: whole seconds from one second on, else milliseconds.
pub open spec fn elapsed_text_of(ms: u64) -> Seq<char> {
    if ms >= 1000 {
        decimal_text((ms / 1000) as int) + "s"@
    } else {
        decimal_text(ms as int) + "ms"@
    }
}

pub fn elapsed_text(ms: u64) -> (r: String)
    ensures
        r@ == elapsed_text_of(ms),
{
    if ms >= 1000 {
        let mut s = u64_to_text(ms / 1000);
        s.append("s");
        s
    } else {
        let mut s = u64_to_text(ms);
        s.append("ms");
        s
    }
}

/// The status line is shown as an error when it mentions one.
pub fn status_is_error(status: &str) -> (r: bool)
    ensures
        r == has(status@, "Error"@),
{
    has_exec(&chars_of(status), "Error")
}

/// Which tab of the tab bar is active (the form is a modal, no tab).
pub open spec fn tab_of(v: super::View) -> Option<usize> {
    match v {
        super::View::ProjectBrowser => Some(0usize),
        super::View::CommandPalette => Some(1usize),
        super::View::Detail => Some(2usize),
        super::View::WorkspaceManager => Some(3usize),
        super::View::Form => None,
    }
}

pub fn active_tab(v: super::View) -> (r: Option<usize>)
    ensures
        r == tab_of(v),
{
    match v {
        super::View::ProjectBrowser => Some(0),
        super::View::CommandPalette => Some(1),
        super::View::Detail => Some(2),
        super::View::WorkspaceManager => Some(3),
        super::View::Form => None,
    }
}

// ---------------------------------------------------------------------------
// Forms
// ---------------------------------------------------------------------------
pub open spec fn su(text: Seq<char>, tone: Tone, bold: bool, underlined: bool) -> SpanView {
    SpanView { text, tone, bold, underlined }
}

/// The indent of a field's value.
pub open spec fn indent() -> SpanView {
    raw("     "@)
}

/// The cursor after the current field's value.
pub open spec fn cursor(cur: bool) -> SpanView {
    if cur {
        sv("█"@, Tone::Accent, false)
    } else {
        raw(""@)
    }
}

/// A typed value: the placeholder, dimmed, while it is empty; underlined in
/// the current field.
pub open spec fn value_span(value: Seq<char>, placeholder: Seq<char>, cur: bool) -> SpanView {
    if value.len() == 0 {
        sv(placeholder, Tone::Secondary, false)
    } else {
        su(value, Tone::Primary, false, cur)
    }
}

pub open spec fn label_line(label: Seq<char>, cur: bool) -> Seq<SpanView> {
    let tone = if cur { Tone::Accent } else { Tone::Primary };
    seq![raw("  "@), sv(if cur { "▶ "@ } else { "  "@ }, tone, cur), sv(label, tone, cur)]
}

/// What a number field shows after its value: its range, or its bound.
pub open spec fn bounds_text(min: Option<i64>, max: Option<i64>) -> Seq<char> {
    match (min, max) {
        (Some(a), Some(b)) => " (range: "@ + decimal_text(a as int) + "-"@ + decimal_text(b as int) + ")"@,
        (Some(a), None) => " (min: "@ + decimal_text(a as int) + ")"@,
        (None, Some(b)) => " (max: "@ + decimal_text(b as int) + ")"@,
        (None, None) => seq![],
    }
}

pub open spec fn path_prompt(kind: PathKind) -> Seq<char> {
    match kind {
        PathKind::File => "Select a file..."@,
        PathKind::Directory => "Select a directory..."@,
        PathKind::Any => "Select a path..."@,
    }
}

/// The lines of a select: each option with a filled or empty circle.
pub open spec fn select_lines(options: Seq<Seq<char>>, selected: usize, cur: bool) -> Seq<Seq<SpanView>>
    decreases options.len(),
{
    if options.len() == 0 {
        seq![]
    } else {
        let i = options.len() - 1;
        let on = i == selected;
        let tone = if on && cur {
            Tone::Accent
        } else if on {
            Tone::Success
        } else {
            Tone::Secondary
        };
        let b = on && cur;
        select_lines(options.drop_last(), selected, cur).push(
            seq![indent(), sv(if on { "●"@ } else { "○"@ }, tone, b), raw(" "@), sv(options.last(), tone, b)],
        )
    }
}

/// The lines of a multi-select: each option with a ticked or empty box.
pub open spec fn multi_lines(options: Seq<Seq<char>>, selected: Seq<usize>, cur: bool) -> Seq<Seq<SpanView>>
    decreases options.len(),
{
    if options.len() == 0 {
        seq![]
    } else {
        let i = options.len() - 1;
        let on = selected.contains(i as usize);
        let tone = if cur {
            Tone::Accent
        } else if on {
            Tone::Success
        } else {
            Tone::Secondary
        };
        let b = on && cur;
        multi_lines(options.drop_last(), selected, cur).push(
            seq![indent(), sv(if on { "☑"@ } else { "☐"@ }, tone, b), raw(" "@), sv(options.last(), tone, b)],
        )
    }
}

/// The lines of a text area: at most `height` lines of its text (or of its
/// placeholder while empty).
pub open spec fn area_lines(text_lines: Seq<Seq<char>>, tone: Tone, height: usize) -> Seq<Seq<SpanView>> {
    let shown = if text_lines.len() <= height { text_lines } else { text_lines.subrange(0, height as int) };
    shown.map_values(|l: Seq<char>| seq![indent(), sv(l, tone, false)])
}

/// The lines under a field's label, showing its value.
pub open spec fn value_lines(f: FieldView, cur: bool) -> Seq<Seq<SpanView>> {
    match f {
        FieldView::TextInput { placeholder, value, .. } => seq![
            seq![indent(), value_span(value, placeholder, cur), cursor(cur)],
        ],
        FieldView::Email { placeholder, value, .. } => seq![
            seq![indent(), value_span(value, placeholder, cur), cursor(cur)],
        ],
        FieldView::TextArea { placeholder, value, height, .. } => {
            let shown = if value.len() == 0 { placeholder } else { value };
            let tone = if value.len() == 0 { Tone::Secondary } else { Tone::Primary };
            area_lines(lines(shown), tone, height) + if cur {
                seq![seq![indent(), sv("█"@, Tone::Accent, false)]]
            } else {
                seq![]
            }
        },
        FieldView::Number { value, min, max, .. } => seq![
            seq![
                indent(),
                su(decimal_text(value as int) + bounds_text(min, max), Tone::Primary, false, cur),
                cursor(cur),
            ],
        ],
        FieldView::Select { options, selected, .. } => select_lines(options, selected, cur),
        FieldView::MultiSelect { options, selected, .. } => multi_lines(options, selected, cur),
        FieldView::Path { value, kind, .. } => seq![
            seq![indent(), value_span(value, path_prompt(kind), cur), cursor(cur)],
        ],
        FieldView::Checkbox { checked, .. } => seq![
            seq![
                indent(),
                sv(
                    if checked { "☑"@ } else { "☐"@ },
                    if cur {
                        Tone::Accent
                    } else if checked {
                        Tone::Success
                    } else {
                        Tone::Secondary
                    },
                    false,
                ),
            ],
        ],
    }
}

/// The lines of the fields of a form: each field's label (the current one
/// marked) and value, a blank line between fields.
pub open spec fn fields_lines(fields: Seq<FieldView>, current: usize) -> Seq<Seq<SpanView>>
    decreases fields.len(),
{
    if fields.len() == 0 {
        seq![]
    } else {
        let i = fields.len() - 1;
        let cur = i == current;
        fields_lines(fields.drop_last(), current) + (if i > 0 {
            seq![seq![]]
        } else {
            seq![]
        }) + seq![label_line(crate::forms::field_label(fields.last()), cur)] + value_lines(fields.last(), cur)
    }
}

/// The keys a form takes.
pub open spec fn form_help_lines() -> Seq<Seq<SpanView>> {
    seq![
        seq![],
        seq![
            raw("  "@),
            sv("Tab/Shift+Tab"@, Tone::Secondary, false),
            raw(" navigate  "@),
            sv("↑↓"@, Tone::Secondary, false),
            raw(" select  "@),
            sv("Space"@, Tone::Secondary, false),
            raw(" toggle  "@),
            sv("Enter"@, Tone::Secondary, false),
            raw(" submit  "@),
            sv("Esc"@, Tone::Secondary, false),
            raw(" cancel"@),
        ],
    ]
}

fn uspan(text: String, tone: Tone, bold: bool, underlined: bool) -> (r: StyledSpan)
    ensures
        r@ == su(text@, tone, bold, underlined),
{
    StyledSpan { text, tone, bold, underlined }
}

fn value_span_exec(value: &String, placeholder: &str, cur: bool) -> (r: StyledSpan)
    ensures
        r@ == value_span(value@, placeholder@, cur),
{
    if value.as_str().is_empty() {
        span(placeholder, Tone::Secondary, false)
    } else {
        uspan(value.clone(), Tone::Primary, false, cur)
    }
}

fn cursor_exec(cur: bool) -> (r: StyledSpan)
    ensures
        r@ == cursor(cur),
{
    if cur {
        span("█", Tone::Accent, false)
    } else {
        span("", Tone::Plain, false)
    }
}

fn append_lines(out: &mut Vec<Vec<StyledSpan>>, more: Vec<Vec<StyledSpan>>)
    ensures
        lines_view(final(out)@) == lines_view(old(out)@) + lines_view(more@),
{
    let ghost before = out@;
    let ghost added = more@;
    let mut more = more;
    out.append(&mut more);
    assert(lines_view(out@) =~= lines_view(before) + lines_view(added));
}

fn contains_index(v: &Vec<usize>, x: usize) -> (r: bool)
    ensures
        r == v@.contains(x),
{
    let mut i: usize = 0;
    while i < v.len()
        invariant
            i <= v@.len(),
            forall|k: int| 0 <= k < i ==> v@[k] != x,
        decreases v.len() - i,
    {
        if v[i] == x {
            assert(v@[i as int] == x);
            return true;
        }
        i = i + 1;
    }
    false
}

fn bounds_text_exec(min: Option<i64>, max: Option<i64>) -> (r: String)
    ensures
        r@ == bounds_text(min, max),
{
    match (min, max) {
        (Some(a), Some(b)) => {
            let mut s = String::from_str(" (range: ");
            s.append(i64_to_text(a).as_str());
            s.append("-");
            s.append(i64_to_text(b).as_str());
            s.append(")");
            s
        },
        (Some(a), None) => {
            let mut s = String::from_str(" (min: ");
            s.append(i64_to_text(a).as_str());
            s.append(")");
            s
        },
        (None, Some(b)) => {
            let mut s = String::from_str(" (max: ");
            s.append(i64_to_text(b).as_str());
            s.append(")");
            s
        },
        (None, None) => String::new(),
    }
}

fn option_lines(options: &Vec<String>, selected: usize, chosen: &Vec<usize>, multi: bool, cur: bool) -> (r: Vec<Vec<StyledSpan>>)
    ensures
        !multi ==> lines_view(r@) =~~= select_lines(strs(options@), selected, cur),
        multi ==> lines_view(r@) =~~= multi_lines(strs(options@), chosen@, cur),
{
    let mut out: Vec<Vec<StyledSpan>> = Vec::new();
    let mut i: usize = 0;
    while i < options.len()
        invariant
            i <= options@.len(),
            !multi ==> lines_view(out@) =~~= select_lines(strs(options@).subrange(0, i as int), selected, cur),
            multi ==> lines_view(out@) =~~= multi_lines(strs(options@).subrange(0, i as int), chosen@, cur),
        decreases options.len() - i,
    {
        assert(strs(options@).subrange(0, i + 1).drop_last() =~= strs(options@).subrange(0, i as int));
        assert(strs(options@).subrange(0, i + 1).last() == options@[i as int]@);
        let on = if multi { contains_index(chosen, i) } else { i == selected };
        let tone = if multi {
            if cur { Tone::Accent } else if on { Tone::Success } else { Tone::Secondary }
        } else {
            if on && cur { Tone::Accent } else if on { Tone::Success } else { Tone::Secondary }
        };
        let b = on && cur;
        let marker = if multi {
            if on { "☑" } else { "☐" }
        } else {
            if on { "●" } else { "○" }
        };
        let mut l: Vec<StyledSpan> = Vec::new();
        put(&mut l, span("     ", Tone::Plain, false));
        put(&mut l, span(marker, tone, b));
        put(&mut l, span(" ", Tone::Plain, false));
        put(&mut l, span_of(options[i].clone(), tone, b));
        put_line(&mut out, l);
        i = i + 1;
    }
    assert(strs(options@).subrange(0, options@.len() as int) =~= strs(options@));
    out
}

fn field_value_lines(f: &FormField, cur: bool) -> (r: Vec<Vec<StyledSpan>>)
    ensures
        lines_view(r@) =~~= value_lines(f@, cur),
{
    let mut out: Vec<Vec<StyledSpan>> = Vec::new();
    match f {
        FormField::TextInput { placeholder, value, .. } | FormField::Email { placeholder, value, .. } => {
            let mut l: Vec<StyledSpan> = Vec::new();
            put(&mut l, span("     ", Tone::Plain, false));
            put(&mut l, value_span_exec(value, placeholder.as_str(), cur));
            put(&mut l, cursor_exec(cur));
            put_line(&mut out, l);
        },
        FormField::TextArea { placeholder, value, height, .. } => {
            let empty = value.as_str().is_empty();
            let shown = if empty { placeholder } else { value };
            let tone = if empty { Tone::Secondary } else { Tone::Primary };
            let ls = split_lines(&chars_of(shown.as_str()));
            let n = if ls.len() <= *height { ls.len() } else { *height };
            let ghost all = deep(ls@);
            let mut k: usize = 0;
            while k < n
                invariant
                    k <= n <= ls@.len(),
                    all == deep(ls@),
                    n == (if ls@.len() <= *height { ls@.len() } else { *height as nat }),
                    lines_view(out@) =~~= all.subrange(0, k as int).map_values(
                        |l: Seq<char>| seq![indent(), sv(l, tone, false)],
                    ),
                decreases n - k,
            {
                let mut l: Vec<StyledSpan> = Vec::new();
                put(&mut l, span("     ", Tone::Plain, false));
                assert(all[k as int] == ls@[k as int]@);
                put(&mut l, span_of(string_from_chars(&ls[k]), tone, false));
                put_line(&mut out, l);
                k = k + 1;
                assert(all.subrange(0, k as int).map_values(|l: Seq<char>| seq![indent(), sv(l, tone, false)])
                    =~~= all.subrange(0, k - 1).map_values(|l: Seq<char>| seq![indent(), sv(l, tone, false)]).push(
                    seq![indent(), sv(all[k - 1], tone, false)],
                ));
            }
            proof {
                if ls@.len() <= *height {
                    assert(all.subrange(0, n as int) =~= all);
                }
            }
            if cur {
                let mut l: Vec<StyledSpan> = Vec::new();
                put(&mut l, span("     ", Tone::Plain, false));
                put(&mut l, span("█", Tone::Accent, false));
                put_line(&mut out, l);
            }
        },
        FormField::Number { value, min, max, .. } => {
            let mut t = i64_to_text(*value);
            t.append(bounds_text_exec(*min, *max).as_str());
            let mut l: Vec<StyledSpan> = Vec::new();
            put(&mut l, span("     ", Tone::Plain, false));
            put(&mut l, uspan(t, Tone::Primary, false, cur));
            put(&mut l, cursor_exec(cur));
            put_line(&mut out, l);
        },
        FormField::Select { options, selected, .. } => {
            let none: Vec<usize> = Vec::new();
            append_lines(&mut out, option_lines(options, *selected, &none, false, cur));
        },
        FormField::MultiSelect { options, selected, .. } => {
            append_lines(&mut out, option_lines(options, 0, selected, true, cur));
        },
        FormField::Path { value, kind, .. } => {
            let prompt = match kind {
                PathKind::File => "Select a file...",
                PathKind::Directory => "Select a directory...",
                PathKind::Any => "Select a path...",
            };
            let mut l: Vec<StyledSpan> = Vec::new();
            put(&mut l, span("     ", Tone::Plain, false));
            put(&mut l, value_span_exec(value, prompt, cur));
            put(&mut l, cursor_exec(cur));
            put_line(&mut out, l);
        },
        FormField::Checkbox { checked, .. } => {
            let tone = if cur { Tone::Accent } else if *checked { Tone::Success } else { Tone::Secondary };
            let mut l: Vec<StyledSpan> = Vec::new();
            put(&mut l, span("     ", Tone::Plain, false));
            put(&mut l, span(if *checked { "☑" } else { "☐" }, tone, false));
            put_line(&mut out, l);
        },
    }
    out
}

/// The lines of a form's fields, then the keys it takes.
pub fn form_lines(form: &Form) -> (r: Vec<Vec<StyledSpan>>)
    ensures
        lines_view(r@) =~~= fields_lines(form@.fields, form.current_field) + form_help_lines(),
{
    let mut out: Vec<Vec<StyledSpan>> = Vec::new();
    let ghost fv = form@.fields;
    let mut i: usize = 0;
    while i < form.fields.len()
        invariant
            i <= form.fields@.len(),
            fv == form@.fields,
            fv.len() == form.fields@.len(),
            lines_view(out@) =~~= fields_lines(fv.subrange(0, i as int), form.current_field),
        decreases form.fields.len() - i,
    {
        assert(fv.subrange(0, i + 1).drop_last() =~= fv.subrange(0, i as int));
        assert(fv.subrange(0, i + 1).last() == form.fields@[i as int]@);
        let cur = i == form.current_field;
        if i > 0 {
            let empty: Vec<StyledSpan> = Vec::new();
            assert(line_view(empty@) =~= seq![]);
            put_line(&mut out, empty);
        }
        let field = &form.fields[i];
        let tone = if cur { Tone::Accent } else { Tone::Primary };
        let mut l: Vec<StyledSpan> = Vec::new();
        put(&mut l, span("  ", Tone::Plain, false));
        put(&mut l, span(if cur { "▶ " } else { "  " }, tone, cur));
        put(&mut l, span(field.label(), tone, cur));
        put_line(&mut out, l);
        append_lines(&mut out, field_value_lines(field, cur));
        i = i + 1;
    }
    assert(fv.subrange(0, fv.len() as int) =~= fv);
    let empty: Vec<StyledSpan> = Vec::new();
    assert(line_view(empty@) =~= seq![]);
    put_line(&mut out, empty);
    let mut help: Vec<StyledSpan> = Vec::new();
    put(&mut help, span("  ", Tone::Plain, false));
    put(&mut help, span("Tab/Shift+Tab", Tone::Secondary, false));
    put(&mut help, span(" navigate  ", Tone::Plain, false));
    put(&mut help, span("↑↓", Tone::Secondary, false));
    put(&mut help, span(" select  ", Tone::Plain, false));
    put(&mut help, span("Space", Tone::Secondary, false));
    put(&mut help, span(" toggle  ", Tone::Plain, false));
    put(&mut help, span("Enter", Tone::Secondary, false));
    put(&mut help, span(" submit  ", Tone::Plain, false));
    put(&mut help, span("Esc", Tone::Secondary, false));
    put(&mut help, span(" cancel", Tone::Plain, false));
    put_line(&mut out, help);
    out
}

} // verus!
