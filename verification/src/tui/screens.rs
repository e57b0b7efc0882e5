//! The lists and panels of the screens: the entries of the project browser
//! and of the command palette, the palette's tabs and footer, and the
//! workspace manager. Widths come from whoever lays the screen out; texts are
//! measured in characters.
use vstd::prelude::*;
use vstd::view::View as ViewTrait;

use super::render::{
    join_strings, join_with, line_view, lines_view, match_window, project_count_label,
    elapsed_text, elapsed_text_of, project_count_text, put, put_line, raw, scanner, scanner_of,
    scroll_indicator, scroll_note, span, span_of, status_is_error, sv, visible_matches, StyledSpan,
    SpanView, Tone,
};
use crate::logger::has;
use super::{filter_name, filter_order, CommandFilter};
use crate::text::{chars_of, decimal_text, push_char, string_from_chars, strs, sub_chars, u64_to_text};

verus! {

// ---------------------------------------------------------------------------
// Texts cut and padded to a width
// ---------------------------------------------------------------------------
/// `text` cut to fit: past `limit` characters, an ellipsis and its last
/// `keep` characters.
pub open spec fn clipped(text: Seq<char>, limit: nat, keep: nat) -> Seq<char> {
    if text.len() > limit {
        "…"@ + text.subrange(text.len() - keep, text.len() as int)
    } else {
        text
    }
}

pub fn clip(text: &str, limit: usize, keep: usize) -> (r: String)
    requires
        keep <= limit,
    ensures
        r@ == clipped(text@, limit as nat, keep as nat),
{
    let chars = chars_of(text);
    if chars.len() > limit {
        let rest = sub_chars(&chars, chars.len() - keep, chars.len());
        let mut out = String::from_str("…");
        let tail = string_from_chars(&rest);
        out.append(tail.as_str());
        out
    } else {
        String::from_str(text)
    }
}

/// A path cut to `width` characters, the ellipsis included: what fits of its
/// end, which tells most about it.
pub open spec fn path_tail(text: Seq<char>, width: nat) -> Seq<char> {
    clipped(text, width, (width - 1) as nat)
}

/// Cut a path to `width` characters (a path with characters needs room for
/// at least the ellipsis).
pub fn tail(text: &str, width: usize) -> (r: String)
    requires
        width >= 1 || text@.len() == 0,
    ensures
        r@ == path_tail(text@, width as nat),
{
    if width == 0 {
        clip(text, 0, 0)
    } else {
        clip(text, width, width - 1)
    }
}

/// A path cut to a column of at least one character fits in it, and one
/// that fits already is shown whole.
pub proof fn law_path_tail_fits(text: Seq<char>, width: nat)
    requires
        width >= 1,
    ensures
        path_tail(text, width).len() <= width,
        text.len() <= width ==> path_tail(text, width) == text,
        text.len() > width ==> path_tail(text, width).len() == width,
{
    reveal_strlit("…");
}

/// `n` spaces.
pub open spec fn spaces(n: nat) -> Seq<char> {
    Seq::new(n, |i: int| ' ')
}

/// `text` padded with spaces to `width` characters.
pub open spec fn padded(text: Seq<char>, width: nat) -> Seq<char> {
    if text.len() < width {
        text + spaces((width - text.len()) as nat)
    } else {
        text
    }
}

pub fn pad(text: &str, width: usize) -> (r: String)
    ensures
        r@ == padded(text@, width as nat),
{
    let n = chars_of(text).len();
    let mut out = String::from_str(text);
    let mut k: usize = n;
    while k < width
        invariant
            n == text@.len(),
            n <= k,
            n < width ==> k <= width,
            n >= width ==> k == n,
            out@ == text@ + spaces((k - n) as nat),
        decreases width - k,
    {
        push_char(&mut out, ' ');
        k = k + 1;
        assert(out@ =~= text@ + spaces((k - n) as nat));
    }
    if n >= width {
        assert(out@ =~= text@);
    }
    out
}

/// The widths of two columns sharing a pane `width` cells wide (less two
/// cells of padding on each side): the left one takes `percent` of it.
pub open spec fn columns_of(width: u16, percent: u16) -> (usize, usize) {
    let total: int = if width >= 4 { width - 4 } else { 0 };
    let left: int = total * percent / 100;
    (left as usize, (if total >= left { total - left } else { 0 }) as usize)
}

pub fn columns(width: u16, percent: u16) -> (r: (usize, usize))
    requires
        percent <= 100,
    ensures
        r == columns_of(width, percent),
        r.0 + r.1 <= width,
{
    let total: u32 = if width >= 4 { (width - 4) as u32 } else { 0 };
    assert(total * percent <= 0xffff * 100) by (nonlinear_arith)
        requires
            total <= 0xffff,
            percent <= 100,
    ;
    let left: u32 = total * (percent as u32) / 100;
    assert(left <= total) by (nonlinear_arith)
        requires
            left == total * percent / 100,
            percent <= 100,
    ;
    (left as usize, (total - left) as usize)
}

// ---------------------------------------------------------------------------
// Spans and titles
// ---------------------------------------------------------------------------
/// Metadata, paths and help.
pub open spec fn secondary(text: Seq<char>) -> SpanView {
    sv(text, Tone::Secondary, false)
}

/// The text of a list entry: bold in the brand colour when it is selected.
pub open spec fn entry_span(text: Seq<char>, selected: bool) -> SpanView {
    if selected {
        sv(text, Tone::Accent, true)
    } else {
        sv(text, Tone::Primary, false)
    }
}

fn secondary_span(text: &str) -> (r: StyledSpan)
    ensures
        r@ == secondary(text@),
{
    span(text, Tone::Secondary, false)
}

fn secondary_of(text: String) -> (r: StyledSpan)
    ensures
        r@ == secondary(text@),
{
    span_of(text, Tone::Secondary, false)
}

fn entry_of(text: String, selected: bool) -> (r: StyledSpan)
    ensures
        r@ == entry_span(text@, selected),
{
    if selected {
        span_of(text, Tone::Accent, true)
    } else {
        span_of(text, Tone::Primary, false)
    }
}

/// The title of a list: its name in bold and how many entries it has.
pub open spec fn title_lines_of(text: Seq<char>, count: nat) -> Seq<Seq<SpanView>> {
    seq![
        seq![sv(text, Tone::Primary, true), raw("  "@), secondary(decimal_text(count as int))],
        seq![],
    ]
}

pub fn title_lines(text: &str, count: usize) -> (r: Vec<Vec<StyledSpan>>)
    ensures
        lines_view(r@) == title_lines_of(text@, count as nat),
{
    let mut first: Vec<StyledSpan> = Vec::new();
    put(&mut first, span(text, Tone::Primary, true));
    put(&mut first, span("  ", Tone::Plain, false));
    put(&mut first, secondary_of(u64_to_text(count as u64)));
    let mut out: Vec<Vec<StyledSpan>> = Vec::new();
    put_line(&mut out, first);
    put_line(&mut out, Vec::new());
    assert(lines_view(out@) =~~= title_lines_of(text@, count as nat));
    out
}

// ---------------------------------------------------------------------------
// Project browser
// ---------------------------------------------------------------------------
/// A project's drivers as tags: `#rust #go`.
pub open spec fn driver_tags(drivers: Seq<Seq<char>>) -> Seq<char> {
    join_with(drivers.map_values(|d: Seq<char>| "#"@ + d), " "@)
}

/// A project in the browser: its name padded to its column and the place it
/// lives in cut to the other, then its description, then its driver tags.
pub open spec fn project_item_of(
    name: Seq<char>,
    description: Seq<char>,
    drivers: Seq<Seq<char>>,
    selected: bool,
    name_width: nat,
    location: Seq<char>,
    location_width: nat,
) -> Seq<Seq<SpanView>> {
    seq![
        seq![
            raw("  "@),
            entry_span(padded(name, name_width), selected),
            secondary(path_tail(location, location_width)),
        ],
        seq![raw("  "@), secondary(description)],
        seq![raw("  "@), secondary(driver_tags(drivers))],
        seq![],
    ]
}

fn tags(drivers: &Vec<String>) -> (r: String)
    ensures
        r@ == driver_tags(strs(drivers@)),
{
    let mut tagged: Vec<String> = Vec::new();
    let mut i: usize = 0;
    while i < drivers.len()
        invariant
            i <= drivers@.len(),
            strs(tagged@) == strs(drivers@).subrange(0, i as int).map_values(
                |d: Seq<char>| "#"@ + d,
            ),
        decreases drivers.len() - i,
    {
        let mut t = String::from_str("#");
        t.append(drivers[i].as_str());
        let ghost before = tagged@;
        tagged.push(t);
        assert(strs(tagged@) =~= strs(drivers@).subrange(0, i + 1).map_values(
            |d: Seq<char>| "#"@ + d,
        )) by {
            assert(strs(tagged@) =~= strs(before).push(t@));
        }
        i = i + 1;
    }
    assert(strs(drivers@).subrange(0, drivers@.len() as int) =~= strs(drivers@));
    join_strings(&tagged, " ")
}

pub fn project_item(
    project: &super::Project,
    selected: bool,
    name_width: usize,
    location: &str,
    location_width: usize,
) -> (r: Vec<Vec<StyledSpan>>)
    requires
        location_width >= 1 || location@.len() == 0,
    ensures
        lines_view(r@) == project_item_of(
            project.name@,
            project.description@,
            strs(project.drivers@),
            selected,
            name_width as nat,
            location@,
            location_width as nat,
        ),
{
    let mut first: Vec<StyledSpan> = Vec::new();
    put(&mut first, span("  ", Tone::Plain, false));
    put(&mut first, entry_of(pad(project.name.as_str(), name_width), selected));
    put(&mut first, secondary_of(tail(location, location_width)));
    let mut second: Vec<StyledSpan> = Vec::new();
    put(&mut second, span("  ", Tone::Plain, false));
    put(&mut second, secondary_span(project.description.as_str()));
    let mut third: Vec<StyledSpan> = Vec::new();
    put(&mut third, span("  ", Tone::Plain, false));
    put(&mut third, secondary_of(tags(&project.drivers)));
    let mut out: Vec<Vec<StyledSpan>> = Vec::new();
    put_line(&mut out, first);
    put_line(&mut out, second);
    put_line(&mut out, third);
    put_line(&mut out, Vec::new());
    assert(lines_view(out@) =~~= project_item_of(
        project.name@,
        project.description@,
        strs(project.drivers@),
        selected,
        name_width as nat,
        location@,
        location_width as nat,
    ));
    out
}

// ---------------------------------------------------------------------------
// Command palette
// ---------------------------------------------------------------------------
/// A command in the palette: its name padded to its column and the directory
/// it runs in cut to the other, then its description.
pub open spec fn command_item_of(
    name: Seq<char>,
    description: Seq<char>,
    selected: bool,
    name_width: nat,
    target: Seq<char>,
    target_width: nat,
) -> Seq<Seq<SpanView>> {
    seq![
        seq![
            raw("  "@),
            entry_span(padded(name, name_width), selected),
            secondary(path_tail(target, target_width)),
        ],
        seq![raw("  "@), secondary(description)],
        seq![],
    ]
}

pub fn command_item(
    command: &super::Command,
    selected: bool,
    name_width: usize,
    target: &str,
    target_width: usize,
) -> (r: Vec<Vec<StyledSpan>>)
    requires
        target_width >= 1 || target@.len() == 0,
    ensures
        lines_view(r@) == command_item_of(
            command.name@,
            command.description@,
            selected,
            name_width as nat,
            target@,
            target_width as nat,
        ),
{
    let mut first: Vec<StyledSpan> = Vec::new();
    put(&mut first, span("  ", Tone::Plain, false));
    put(&mut first, entry_of(pad(command.name.as_str(), name_width), selected));
    put(&mut first, secondary_of(tail(target, target_width)));
    let mut second: Vec<StyledSpan> = Vec::new();
    put(&mut second, span("  ", Tone::Plain, false));
    put(&mut second, secondary_span(command.description.as_str()));
    let mut out: Vec<Vec<StyledSpan>> = Vec::new();
    put_line(&mut out, first);
    put_line(&mut out, second);
    put_line(&mut out, Vec::new());
    assert(lines_view(out@) =~~= command_item_of(
        command.name@,
        command.description@,
        selected,
        name_width as nat,
        target@,
        target_width as nat,
    ));
    out
}

/// The tab of one filter: its name in brackets, in the brand colour (and the
/// name bold) when it is the active one.
pub open spec fn tab_spans(f: CommandFilter, active: bool) -> Seq<SpanView> {
    let tone = if active {
        Tone::Accent
    } else {
        Tone::Secondary
    };
    seq![sv("["@, tone, false), sv(filter_name(f), tone, active), sv("]"@, tone, false), raw(" "@)]
}

/// The tabs of the given filters, in order.
pub open spec fn tabs_of(filters: Seq<CommandFilter>, active: CommandFilter) -> Seq<SpanView>
    decreases filters.len(),
{
    if filters.len() == 0 {
        seq![]
    } else {
        tabs_of(filters.drop_last(), active) + tab_spans(filters.last(), filters.last() == active)
    }
}

/// The palette's tab bar: every filter in tab order, the active one marked.
pub fn filter_tabs(active: CommandFilter) -> (r: Vec<StyledSpan>)
    ensures
        line_view(r@) == tabs_of(filter_order(), active),
{
    let filters = CommandFilter::all_filters();
    let mut out: Vec<StyledSpan> = Vec::new();
    let mut i: usize = 0;
    while i < filters.len()
        invariant
            filters@ == filter_order(),
            i <= filters@.len(),
            line_view(out@) == tabs_of(filters@.subrange(0, i as int), active),
        decreases filters.len() - i,
    {
        let f = filters[i];
        let is_active = f == active;
        let tone = if is_active {
            Tone::Accent
        } else {
            Tone::Secondary
        };
        let ghost before = line_view(out@);
        put(&mut out, span("[", tone, false));
        put(&mut out, span(f.as_str(), tone, is_active));
        put(&mut out, span("]", tone, false));
        put(&mut out, span(" ", Tone::Plain, false));
        assert(filters@.subrange(0, i + 1).drop_last() =~= filters@.subrange(0, i as int));
        assert(line_view(out@) =~= before + tab_spans(f, is_active));
        i = i + 1;
    }
    assert(filters@.subrange(0, filters@.len() as int) =~= filters@);
    out
}

/// Below the palette's list: while a command is edited, the directory it
/// will run in and the line being typed; otherwise a preview of the selected
/// command, if there is one.
pub open spec fn palette_footer_of(
    editing: bool,
    workspace: Seq<char>,
    input: Seq<char>,
    selected: Option<Seq<char>>,
) -> Seq<Seq<SpanView>> {
    if editing {
        seq![
            seq![],
            seq![raw("  "@), secondary("Working dir: "@ + workspace)],
            seq![
                raw("  "@),
                secondary("$ "@),
                sv(input, Tone::Accent, true),
                sv("_"@, Tone::Accent, false),
            ],
            seq![],
            seq![
                raw("  "@),
                secondary("[Enter]"@),
                secondary(" execute  "@),
                secondary("[Esc]"@),
                secondary(" cancel"@),
            ],
        ]
    } else {
        match selected {
            Some(command) => seq![
                seq![],
                seq![secondary("  Preview"@)],
                seq![],
                seq![raw("  "@), secondary("$ "@), sv(command, Tone::Accent, false)],
                seq![],
                seq![raw("  "@), secondary("[t]"@), secondary(" change target workspace"@)],
            ],
            None => seq![],
        }
    }
}

pub fn palette_footer(editing: bool, workspace: &str, input: &str, selected: Option<&str>) -> (r: Vec<
    Vec<StyledSpan>,
>)
    ensures
        lines_view(r@) == palette_footer_of(
            editing,
            workspace@,
            input@,
            match selected {
                Some(c) => Some(c@),
                None => None,
            },
        ),
{
    let mut out: Vec<Vec<StyledSpan>> = Vec::new();
    if editing {
        put_line(&mut out, Vec::new());
        let mut l: Vec<StyledSpan> = Vec::new();
        put(&mut l, span("  ", Tone::Plain, false));
        let mut dir = String::from_str("Working dir: ");
        dir.append(workspace);
        put(&mut l, secondary_of(dir));
        put_line(&mut out, l);
        let mut l: Vec<StyledSpan> = Vec::new();
        put(&mut l, span("  ", Tone::Plain, false));
        put(&mut l, secondary_span("$ "));
        put(&mut l, span(input, Tone::Accent, true));
        put(&mut l, span("_", Tone::Accent, false));
        put_line(&mut out, l);
        put_line(&mut out, Vec::new());
        let mut l: Vec<StyledSpan> = Vec::new();
        put(&mut l, span("  ", Tone::Plain, false));
        put(&mut l, secondary_span("[Enter]"));
        put(&mut l, secondary_span(" execute  "));
        put(&mut l, secondary_span("[Esc]"));
        put(&mut l, secondary_span(" cancel"));
        put_line(&mut out, l);
    } else if let Some(command) = selected {
        put_line(&mut out, Vec::new());
        let mut l: Vec<StyledSpan> = Vec::new();
        put(&mut l, secondary_span("  Preview"));
        put_line(&mut out, l);
        put_line(&mut out, Vec::new());
        let mut l: Vec<StyledSpan> = Vec::new();
        put(&mut l, span("  ", Tone::Plain, false));
        put(&mut l, secondary_span("$ "));
        put(&mut l, span(command, Tone::Accent, false));
        put_line(&mut out, l);
        put_line(&mut out, Vec::new());
        let mut l: Vec<StyledSpan> = Vec::new();
        put(&mut l, span("  ", Tone::Plain, false));
        put(&mut l, secondary_span("[t]"));
        put(&mut l, secondary_span(" change target workspace"));
        put_line(&mut out, l);
    }
    assert(lines_view(out@) =~~= palette_footer_of(
        editing,
        workspace@,
        input@,
        match selected {
            Some(c) => Some(c@),
            None => None,
        },
    ));
    out
}

// ---------------------------------------------------------------------------
// Workspace manager
// ---------------------------------------------------------------------------
/// A workspace in the manager: its path cut to its column, how many projects
/// it holds, and whether it is the primary one.
pub open spec fn workspace_item_of(
    path: Seq<char>,
    project_count: nat,
    is_primary: bool,
    selected: bool,
    path_width: nat,
) -> Seq<Seq<SpanView>> {
    let first = seq![
        raw("  "@),
        entry_span(path_tail(path, path_width), selected),
        raw("  "@),
        secondary(project_count_text(project_count)),
    ];
    seq![
        if is_primary {
            first + seq![raw("  "@), secondary("[primary]"@)]
        } else {
            first
        },
        seq![],
    ]
}

pub fn workspace_item(workspace: &super::WorkspaceDir, selected: bool, path_width: usize) -> (r: Vec<
    Vec<StyledSpan>,
>)
    requires
        path_width >= 1 || workspace.path@.len() == 0,
    ensures
        lines_view(r@) == workspace_item_of(
            workspace.path@,
            workspace.project_count as nat,
            workspace.is_primary,
            selected,
            path_width as nat,
        ),
{
    let mut first: Vec<StyledSpan> = Vec::new();
    put(&mut first, span("  ", Tone::Plain, false));
    put(&mut first, entry_of(tail(workspace.path.as_str(), path_width), selected));
    put(&mut first, span("  ", Tone::Plain, false));
    put(&mut first, secondary_of(project_count_label(workspace.project_count)));
    if workspace.is_primary {
        put(&mut first, span("  ", Tone::Plain, false));
        put(&mut first, secondary_span("[primary]"));
    }
    let mut out: Vec<Vec<StyledSpan>> = Vec::new();
    put_line(&mut out, first);
    put_line(&mut out, Vec::new());
    assert(lines_view(out@) =~~= workspace_item_of(
        workspace.path@,
        workspace.project_count as nat,
        workspace.is_primary,
        selected,
        path_width as nat,
    ));
    out
}

/// The keys of the manager.
pub open spec fn manager_keys_of() -> Seq<Seq<SpanView>> {
    seq![
        seq![],
        seq![
            raw("  "@),
            secondary("a"@),
            secondary(" add  "@),
            secondary("e"@),
            secondary(" edit  "@),
            secondary("d"@),
            secondary(" remove  "@),
            secondary("1"@),
            secondary(" back to projects"@),
        ],
    ]
}

pub fn manager_keys() -> (r: Vec<Vec<StyledSpan>>)
    ensures
        lines_view(r@) == manager_keys_of(),
{
    let mut l: Vec<StyledSpan> = Vec::new();
    put(&mut l, span("  ", Tone::Plain, false));
    put(&mut l, secondary_span("a"));
    put(&mut l, secondary_span(" add  "));
    put(&mut l, secondary_span("e"));
    put(&mut l, secondary_span(" edit  "));
    put(&mut l, secondary_span("d"));
    put(&mut l, secondary_span(" remove  "));
    put(&mut l, secondary_span("1"));
    put(&mut l, secondary_span(" back to projects"));
    let mut out: Vec<Vec<StyledSpan>> = Vec::new();
    put_line(&mut out, Vec::new());
    put_line(&mut out, l);
    assert(lines_view(out@) =~~= manager_keys_of());
    out
}

/// The rule drawn above and below the candidates.
pub open spec fn rule_text() -> Seq<char> {
    "───────────────────────────────────────────────"@
}

pub open spec fn rule_line() -> Seq<SpanView> {
    seq![raw("  "@), sv(rule_text(), Tone::Accent, false)]
}

/// A candidate directory: marked and inverted when it is the one being
/// browsed, else in bold.
pub open spec fn candidate_line(path: Seq<char>, highlighted: bool, width: nat) -> Seq<SpanView> {
    if highlighted {
        seq![raw("  "@), sv("▸ "@ + path_tail(path, width), Tone::Badge, true)]
    } else {
        seq![raw("    "@), sv(path_tail(path, width), Tone::Primary, true)]
    }
}

/// The candidates from `start` up to `end`.
pub open spec fn candidate_lines(
    paths: Seq<Seq<char>>,
    start: int,
    end: int,
    selected: int,
    browsing: bool,
    width: nat,
) -> Seq<Seq<SpanView>>
    decreases end - start,
{
    if end <= start {
        seq![]
    } else {
        candidate_lines(paths, start, end - 1, selected, browsing, width).push(
            candidate_line(paths[end - 1], browsing && end - 1 == selected, width),
        )
    }
}

/// While a directory is being added: the path typed so far (its end, when it
/// is longer than `available`), the window of candidates with its rules and
/// scroll note, and the keys.
pub open spec fn adding_lines_of(
    input: Seq<char>,
    available: nat,
    paths: Seq<Seq<char>>,
    selected: usize,
    browsing: bool,
    width: nat,
) -> Seq<Seq<SpanView>> {
    let head = seq![
        seq![],
        seq![
            raw("  "@),
            secondary("Enter directory path: "@),
            sv(clipped(input, available, available), Tone::Accent, true),
            sv("_"@, Tone::Accent, false),
        ],
    ];
    let keys = seq![
        raw("  "@),
        secondary("[Tab]"@),
        secondary(" complete  "@),
        secondary("[Ctrl+D]"@),
        secondary(" fuzzy find  "@),
        secondary("[Enter]"@),
        secondary(" add  "@),
        secondary("[Esc]"@),
        secondary(" cancel"@),
    ];
    if paths.len() == 0 {
        head.push(keys)
    } else {
        let (start, end) = match_window(selected, paths.len() as usize);
        let note = match scroll_note(start, end, paths.len() as usize) {
            Some(n) => seq![seq![raw("  "@), secondary(n)]],
            None => seq![],
        };
        head + seq![seq![], rule_line()] + candidate_lines(
            paths,
            start as int,
            end as int,
            selected as int,
            browsing,
            width,
        ) + note + seq![rule_line(), keys]
    }
}

fn rule() -> (r: Vec<StyledSpan>)
    ensures
        line_view(r@) == rule_line(),
{
    let mut l: Vec<StyledSpan> = Vec::new();
    put(&mut l, span("  ", Tone::Plain, false));
    put(&mut l, span("───────────────────────────────────────────────", Tone::Accent, false));
    l
}

pub fn adding_lines(
    input: &str,
    available: usize,
    paths: &Vec<String>,
    selected: usize,
    browsing: bool,
    width: usize,
) -> (r: Vec<Vec<StyledSpan>>)
    requires
        width >= 1 || forall|i: int|
            match_window(selected, paths@.len() as usize).0 <= i < match_window(
                selected,
                paths@.len() as usize,
            ).1 ==> #[trigger] paths@[i]@.len() == 0,
    ensures
        lines_view(r@) == adding_lines_of(
            input@,
            available as nat,
            strs(paths@),
            selected,
            browsing,
            width as nat,
        ),
{
    let mut out: Vec<Vec<StyledSpan>> = Vec::new();
    put_line(&mut out, Vec::new());
    let mut l: Vec<StyledSpan> = Vec::new();
    put(&mut l, span("  ", Tone::Plain, false));
    put(&mut l, secondary_span("Enter directory path: "));
    put(&mut l, span_of(clip(input, available, available), Tone::Accent, true));
    put(&mut l, span("_", Tone::Accent, false));
    put_line(&mut out, l);
    let ghost head = lines_view(out@);
    if paths.len() > 0 {
        put_line(&mut out, Vec::new());
        put_line(&mut out, rule());
        let (start, end) = visible_matches(selected, paths.len());
        let ghost before = lines_view(out@);
        let mut k: usize = start;
        while k < end
            invariant
                start <= k <= end <= paths@.len(),
                (start, end) == match_window(selected, paths@.len() as usize),
                width >= 1 || forall|i: int| start <= i < end ==> #[trigger] paths@[i]@.len() == 0,
                lines_view(out@) == before + candidate_lines(
                    strs(paths@),
                    start as int,
                    k as int,
                    selected as int,
                    browsing,
                    width as nat,
                ),
            decreases end - k,
        {
            let highlighted = browsing && k == selected;
            let shown = tail(paths[k].as_str(), width);
            let mut l: Vec<StyledSpan> = Vec::new();
            if highlighted {
                put(&mut l, span("  ", Tone::Plain, false));
                let mut t = String::from_str("▸ ");
                t.append(shown.as_str());
                put(&mut l, span_of(t, Tone::Badge, true));
            } else {
                put(&mut l, span("    ", Tone::Plain, false));
                put(&mut l, span_of(shown, Tone::Primary, true));
            }
            assert(strs(paths@)[k as int] == paths@[k as int]@);
            assert(line_view(l@) =~~= candidate_line(strs(paths@)[k as int], highlighted, width as nat));
            let ghost prev = lines_view(out@);
            put_line(&mut out, l);
            assert(candidate_lines(strs(paths@), start as int, k + 1, selected as int, browsing, width as nat)
                == candidate_lines(strs(paths@), start as int, k as int, selected as int, browsing, width as nat).push(
                candidate_line(strs(paths@)[k as int], highlighted, width as nat)));
            assert(lines_view(out@) =~~= before + candidate_lines(
                strs(paths@),
                start as int,
                k + 1,
                selected as int,
                browsing,
                width as nat,
            ));
            k = k + 1;
        }
        if let Some(n) = scroll_indicator(start, end, paths.len()) {
            let mut l: Vec<StyledSpan> = Vec::new();
            put(&mut l, span("  ", Tone::Plain, false));
            put(&mut l, secondary_of(n));
            put_line(&mut out, l);
        }
        put_line(&mut out, rule());
    }
    let mut l: Vec<StyledSpan> = Vec::new();
    put(&mut l, span("  ", Tone::Plain, false));
    put(&mut l, secondary_span("[Tab]"));
    put(&mut l, secondary_span(" complete  "));
    put(&mut l, secondary_span("[Ctrl+D]"));
    put(&mut l, secondary_span(" fuzzy find  "));
    put(&mut l, secondary_span("[Enter]"));
    put(&mut l, secondary_span(" add  "));
    put(&mut l, secondary_span("[Esc]"));
    put(&mut l, secondary_span(" cancel"));
    put_line(&mut out, l);
    assert(lines_view(out@) =~~= adding_lines_of(
        input@,
        available as nat,
        strs(paths@),
        selected,
        browsing,
        width as nat,
    ));
    out
}

// ---------------------------------------------------------------------------
// Tab bar and footer
// ---------------------------------------------------------------------------
/// How many characters the spans of a line hold.
pub open spec fn text_len(l: Seq<SpanView>) -> nat
    decreases l.len(),
{
    if l.len() == 0 {
        0
    } else {
        text_len(l.drop_last()) + l.last().text.len()
    }
}

/// One tab: its key and label, the key as a badge when the tab is active,
/// after a gap unless it is the first.
pub open spec fn tab_item(i: usize, key: Seq<char>, label: Seq<char>, current: Option<usize>) -> Seq<
    SpanView,
> {
    let gap = if i > 0 {
        seq![raw("  "@)]
    } else {
        seq![]
    };
    gap + if current == Some(i) {
        seq![sv(key, Tone::Badge, true), raw(" "@), sv(label, Tone::Accent, true)]
    } else {
        seq![secondary(key), raw(" "@), secondary(label)]
    }
}

/// The four tabs.
pub open spec fn tabs_line(current: Option<usize>) -> Seq<SpanView> {
    seq![raw("  "@)] + tab_item(0, "1"@, "Projects"@, current) + tab_item(1, "2"@, "Commands"@, current)
        + tab_item(2, "3"@, "Details"@, current) + tab_item(3, "4"@, "Workspace"@, current)
}

/// The tab bar, `width` cells wide: the tabs, then the selected project's
/// name pushed to the right where it fits with room to spare.
pub open spec fn tab_bar_of(current: Option<usize>, project: Option<Seq<char>>, width: u16) -> Seq<
    SpanView,
> {
    let tabs = tabs_line(current);
    match project {
        Some(name) => {
            let text = "Project: "@ + name;
            if text_len(tabs) + text.len() + 4 < width {
                tabs + seq![
                    raw(spaces((width - text_len(tabs) - text.len() - 2) as nat)),
                    secondary(text),
                    raw("  "@),
                ]
            } else {
                tabs
            }
        },
        None => tabs,
    }
}

/// When the selected project's name is shown, it is pushed to the right
/// edge: the bar takes the whole width.
pub proof fn law_tab_bar_fills_width(current: Option<usize>, name: Seq<char>, width: u16)
    requires
        48 + ("Project: "@ + name).len() + 4 < width,
    ensures
        text_len(tab_bar_of(current, Some(name), width)) == width,
{
    reveal_strlit("  ");
    reveal_strlit("Project: ");
    lemma_tabs_width(current);
    let text = "Project: "@ + name;
    let tail: Seq<SpanView> = seq![
        raw(spaces((width - 48 - text.len() - 2) as nat)),
        secondary(text),
        raw("  "@),
    ];
    lemma_text_len_concat(tabs_line(current), tail);
    reveal_with_fuel(text_len, 4);
}

fn push_tab(line: &mut Vec<StyledSpan>, i: usize, key: &str, label: &str, current: Option<usize>)
    ensures
        line_view(final(line)@) == line_view(old(line)@) + tab_item(i, key@, label@, current),
{
    let ghost before = line_view(line@);
    if i > 0 {
        put(line, span("  ", Tone::Plain, false));
    }
    if current == Some(i) {
        put(line, span(key, Tone::Badge, true));
        put(line, span(" ", Tone::Plain, false));
        put(line, span(label, Tone::Accent, true));
    } else {
        put(line, secondary_span(key));
        put(line, span(" ", Tone::Plain, false));
        put(line, secondary_span(label));
    }
    assert(line_view(line@) =~= before + tab_item(i, key@, label@, current));
}

proof fn lemma_text_len_concat(a: Seq<SpanView>, b: Seq<SpanView>)
    ensures
        text_len(a + b) == text_len(a) + text_len(b),
    decreases b.len(),
{
    if b.len() > 0 {
        assert((a + b).drop_last() =~= a + b.drop_last());
        lemma_text_len_concat(a, b.drop_last());
    } else {
        assert(a + b =~= a);
    }
}

proof fn lemma_tab_item_len(i: usize, key: Seq<char>, label: Seq<char>, current: Option<usize>)
    ensures
        text_len(tab_item(i, key, label, current)) == (if i > 0 {
            2nat
        } else {
            0nat
        }) + key.len() + 1 + label.len(),
{
    reveal_strlit("  ");
    reveal_strlit(" ");
    reveal_with_fuel(text_len, 5);
    let gap: Seq<SpanView> = if i > 0 {
        seq![raw("  "@)]
    } else {
        seq![]
    };
    let body: Seq<SpanView> = if current == Some(i) {
        seq![sv(key, Tone::Badge, true), raw(" "@), sv(label, Tone::Accent, true)]
    } else {
        seq![secondary(key), raw(" "@), secondary(label)]
    };
    lemma_text_len_concat(gap, body);
}

/// The tabs always take 48 characters.
proof fn lemma_tabs_width(current: Option<usize>)
    ensures
        text_len(tabs_line(current)) == 48,
{
    reveal_strlit("  ");
    reveal_strlit("1");
    reveal_strlit("2");
    reveal_strlit("3");
    reveal_strlit("4");
    reveal_strlit("Projects");
    reveal_strlit("Commands");
    reveal_strlit("Details");
    reveal_strlit("Workspace");
    reveal_with_fuel(text_len, 2);
    let a: Seq<SpanView> = seq![raw("  "@)];
    let t0 = tab_item(0, "1"@, "Projects"@, current);
    let t1 = tab_item(1, "2"@, "Commands"@, current);
    let t2 = tab_item(2, "3"@, "Details"@, current);
    let t3 = tab_item(3, "4"@, "Workspace"@, current);
    lemma_tab_item_len(0, "1"@, "Projects"@, current);
    lemma_tab_item_len(1, "2"@, "Commands"@, current);
    lemma_tab_item_len(2, "3"@, "Details"@, current);
    lemma_tab_item_len(3, "4"@, "Workspace"@, current);
    lemma_text_len_concat(a, t0);
    lemma_text_len_concat(a + t0, t1);
    lemma_text_len_concat(a + t0 + t1, t2);
    lemma_text_len_concat(a + t0 + t1 + t2, t3);
}

pub fn tab_bar(current: Option<usize>, project: Option<&str>, width: u16) -> (r: Vec<StyledSpan>)
    ensures
        line_view(r@) == tab_bar_of(
            current,
            match project {
                Some(p) => Some(p@),
                None => None,
            },
            width,
        ),
{
    let mut line: Vec<StyledSpan> = Vec::new();
    put(&mut line, span("  ", Tone::Plain, false));
    push_tab(&mut line, 0, "1", "Projects", current);
    push_tab(&mut line, 1, "2", "Commands", current);
    push_tab(&mut line, 2, "3", "Details", current);
    push_tab(&mut line, 3, "4", "Workspace", current);
    assert(line_view(line@) =~= tabs_line(current));
    if let Some(name) = project {
        proof {
            lemma_tabs_width(current);
        }
        let tabs_len: usize = 48;
        let mut text = String::from_str("Project: ");
        text.append(name);
        let text_len_now = chars_of(text.as_str()).len();
        let w = width as usize;
        if text_len_now < w && tabs_len < w - text_len_now && w - text_len_now - tabs_len > 4 {
            let mut gap = String::new();
            let n = w - tabs_len - text_len_now - 2;
            let mut k: usize = 0;
            while k < n
                invariant
                    k <= n,
                    gap@ == spaces(k as nat),
                decreases n - k,
            {
                push_char(&mut gap, ' ');
                k = k + 1;
                assert(gap@ =~= spaces(k as nat));
            }
            put(&mut line, span_of(gap, Tone::Plain, false));
            put(&mut line, secondary_of(text));
            put(&mut line, span("  ", Tone::Plain, false));
        }
    }
    line
}

/// The footer: the status line (red when it reports an error) and the keys
/// that work everywhere.
pub open spec fn footer_lines_of(status: Seq<char>) -> Seq<Seq<SpanView>> {
    seq![
        seq![],
        seq![
            raw("  "@),
            sv(
                status,
                if has(status, "Error"@) {
                    Tone::Error
                } else {
                    Tone::Secondary
                },
                false,
            ),
            raw("  "@),
            sv("│"@, Tone::Separator, false),
            raw("  "@),
            secondary("?"@),
            secondary(" help"@),
            raw("  "@),
            secondary("r"@),
            secondary(" reload"@),
            raw("  "@),
            secondary("q"@),
            secondary(" quit"@),
        ],
    ]
}

pub fn footer_lines(status: &str) -> (r: Vec<Vec<StyledSpan>>)
    ensures
        lines_view(r@) == footer_lines_of(status@),
{
    let tone = if status_is_error(status) {
        Tone::Error
    } else {
        Tone::Secondary
    };
    let mut l: Vec<StyledSpan> = Vec::new();
    put(&mut l, span("  ", Tone::Plain, false));
    put(&mut l, span(status, tone, false));
    put(&mut l, span("  ", Tone::Plain, false));
    put(&mut l, span("│", Tone::Separator, false));
    put(&mut l, span("  ", Tone::Plain, false));
    put(&mut l, secondary_span("?"));
    put(&mut l, secondary_span(" help"));
    put(&mut l, span("  ", Tone::Plain, false));
    put(&mut l, secondary_span("r"));
    put(&mut l, secondary_span(" reload"));
    put(&mut l, span("  ", Tone::Plain, false));
    put(&mut l, secondary_span("q"));
    put(&mut l, secondary_span(" quit"));
    let mut out: Vec<Vec<StyledSpan>> = Vec::new();
    put_line(&mut out, Vec::new());
    put_line(&mut out, l);
    assert(lines_view(out@) =~~= footer_lines_of(status@));
    out
}

// ---------------------------------------------------------------------------
// Detail view
// ---------------------------------------------------------------------------
/// The head of the detail view: the project's name padded to its column and
/// its path, then its description.
pub open spec fn detail_head_of(name: Seq<char>, path: Seq<char>, description: Seq<char>, name_width: nat) -> Seq<
    Seq<SpanView>,
> {
    seq![
        seq![sv(padded(name, name_width), Tone::Accent, true), secondary("PATH: "@ + path)],
        seq![],
        seq![secondary(description)],
        seq![],
    ]
}

pub fn detail_head(project: &super::Project, name_width: usize) -> (r: Vec<Vec<StyledSpan>>)
    ensures
        lines_view(r@) == detail_head_of(
            project.name@,
            project.path@,
            project.description@,
            name_width as nat,
        ),
{
    let mut first: Vec<StyledSpan> = Vec::new();
    put(&mut first, span_of(pad(project.name.as_str(), name_width), Tone::Accent, true));
    let mut p = String::from_str("PATH: ");
    p.append(project.path.as_str());
    put(&mut first, secondary_of(p));
    let mut third: Vec<StyledSpan> = Vec::new();
    put(&mut third, secondary_span(project.description.as_str()));
    let mut out: Vec<Vec<StyledSpan>> = Vec::new();
    put_line(&mut out, first);
    put_line(&mut out, Vec::new());
    put_line(&mut out, third);
    put_line(&mut out, Vec::new());
    assert(lines_view(out@) =~~= detail_head_of(
        project.name@,
        project.path@,
        project.description@,
        name_width as nat,
    ));
    out
}

/// `n` copies of the character `c`.
pub open spec fn copies(c: char, n: nat) -> Seq<char> {
    Seq::new(n, |i: int| c)
}

fn repeat_char(c: char, n: usize) -> (r: String)
    ensures
        r@ == copies(c, n as nat),
{
    let mut out = String::new();
    let mut k: usize = 0;
    while k < n
        invariant
            k <= n,
            out@ == copies(c, k as nat),
        decreases n - k,
    {
        push_char(&mut out, c);
        k = k + 1;
        assert(out@ =~= copies(c, k as nat));
    }
    out
}

/// The foot of the detail view: a rule and how to go back.
pub open spec fn detail_foot_of() -> Seq<Seq<SpanView>> {
    seq![
        seq![sv(copies('─', 40), Tone::Separator, false)],
        seq![],
        seq![secondary("Press "@), sv("1"@, Tone::Accent, false), secondary(" to return to projects"@)],
    ]
}

pub fn detail_foot() -> (r: Vec<Vec<StyledSpan>>)
    ensures
        lines_view(r@) == detail_foot_of(),
{
    let mut rule_line: Vec<StyledSpan> = Vec::new();
    put(&mut rule_line, span_of(repeat_char('─', 40), Tone::Separator, false));
    let mut back: Vec<StyledSpan> = Vec::new();
    put(&mut back, secondary_span("Press "));
    put(&mut back, span("1", Tone::Accent, false));
    put(&mut back, secondary_span(" to return to projects"));
    let mut out: Vec<Vec<StyledSpan>> = Vec::new();
    put_line(&mut out, rule_line);
    put_line(&mut out, Vec::new());
    put_line(&mut out, back);
    assert(lines_view(out@) =~~= detail_foot_of());
    out
}

/// The head of a log preview: the file's name, the first line shown and how
/// many lines there are, then the project's path.
pub open spec fn log_preview_head_of(file_name: Seq<char>, start: nat, total: nat, path: Seq<char>) -> Seq<
    Seq<SpanView>,
> {
    seq![
        seq![
            sv(file_name, Tone::Accent, true),
            raw("  "@),
            secondary("("@ + decimal_text(start + 1int) + "/"@ + decimal_text(total as int) + ")"@),
        ],
        seq![secondary("PATH: "@ + path)],
    ]
}

pub fn log_preview_head(file_name: &str, start: usize, total: usize, path: &str) -> (r: Vec<
    Vec<StyledSpan>,
>)
    requires
        start < usize::MAX,
    ensures
        lines_view(r@) == log_preview_head_of(file_name@, start as nat, total as nat, path@),
{
    let mut first: Vec<StyledSpan> = Vec::new();
    put(&mut first, span(file_name, Tone::Accent, true));
    put(&mut first, span("  ", Tone::Plain, false));
    let mut where_ = String::from_str("(");
    where_.append(u64_to_text((start + 1) as u64).as_str());
    where_.append("/");
    where_.append(u64_to_text(total as u64).as_str());
    where_.append(")");
    put(&mut first, secondary_of(where_));
    let mut second: Vec<StyledSpan> = Vec::new();
    let mut p = String::from_str("PATH: ");
    p.append(path);
    put(&mut second, secondary_of(p));
    let mut out: Vec<Vec<StyledSpan>> = Vec::new();
    put_line(&mut out, first);
    put_line(&mut out, second);
    assert(lines_view(out@) =~~= log_preview_head_of(file_name@, start as nat, total as nat, path@));
    out
}

// ---------------------------------------------------------------------------
// Progress and result
// ---------------------------------------------------------------------------
/// The cells of the progress bar.
pub const BAR_CELLS: usize = 28;

/// The running command's panel: how long it has run, and the bar with its
/// bright scanner at `frame`.
pub open spec fn progress_lines_of(frame: usize, elapsed_ms: Option<u64>) -> Seq<Seq<SpanView>> {
    let (dim_left, bright, dim_right) = scanner_of(frame, BAR_CELLS);
    seq![
        seq![
            secondary(" Running "@),
            sv(
                match elapsed_ms {
                    Some(ms) => elapsed_text_of(ms),
                    None => "0ms"@,
                },
                Tone::Accent,
                true,
            ),
        ],
        seq![
            raw(" "@),
            sv(copies('█', dim_left as nat), Tone::Dim, false),
            sv(copies('█', bright as nat), Tone::Bright, true),
            sv(copies('█', dim_right as nat), Tone::Dim, false),
            raw(" "@),
        ],
    ]
}

pub fn progress_lines(frame: usize, elapsed_ms: Option<u64>) -> (r: Vec<Vec<StyledSpan>>)
    ensures
        lines_view(r@) == progress_lines_of(frame, elapsed_ms),
{
    let (dim_left, bright, dim_right) = scanner(frame, BAR_CELLS);
    let elapsed = match elapsed_ms {
        Some(ms) => elapsed_text(ms),
        None => String::from_str("0ms"),
    };
    let mut first: Vec<StyledSpan> = Vec::new();
    put(&mut first, secondary_span(" Running "));
    put(&mut first, span_of(elapsed, Tone::Accent, true));
    let mut bar: Vec<StyledSpan> = Vec::new();
    put(&mut bar, span(" ", Tone::Plain, false));
    put(&mut bar, span_of(repeat_char('█', dim_left), Tone::Dim, false));
    put(&mut bar, span_of(repeat_char('█', bright), Tone::Bright, true));
    put(&mut bar, span_of(repeat_char('█', dim_right), Tone::Dim, false));
    put(&mut bar, span(" ", Tone::Plain, false));
    let mut out: Vec<Vec<StyledSpan>> = Vec::new();
    put_line(&mut out, first);
    put_line(&mut out, bar);
    assert(lines_view(out@) =~~= progress_lines_of(frame, elapsed_ms));
    out
}

/// The finished command's panel: a check mark or a cross, and a solid bar,
/// in green or red.
pub open spec fn result_lines_of(success: bool) -> Seq<Seq<SpanView>> {
    let tone = if success {
        Tone::Success
    } else {
        Tone::Error
    };
    seq![
        seq![sv(if success { " ✓ SUCCESS"@ } else { " ✗ FAILED"@ }, tone, true)],
        seq![sv(seq![' '] + copies('█', BAR_CELLS as nat), tone, true)],
    ]
}

pub fn result_lines(success: bool) -> (r: Vec<Vec<StyledSpan>>)
    ensures
        lines_view(r@) == result_lines_of(success),
{
    let tone = if success {
        Tone::Success
    } else {
        Tone::Error
    };
    let mut first: Vec<StyledSpan> = Vec::new();
    put(&mut first, span(if success { " ✓ SUCCESS" } else { " ✗ FAILED" }, tone, true));
    let mut solid = String::new();
    push_char(&mut solid, ' ');
    solid.append(repeat_char('█', BAR_CELLS).as_str());
    let mut second: Vec<StyledSpan> = Vec::new();
    put(&mut second, span_of(solid, tone, true));
    let mut out: Vec<Vec<StyledSpan>> = Vec::new();
    put_line(&mut out, first);
    put_line(&mut out, second);
    assert(lines_view(out@) =~~= result_lines_of(success));
    out
}

} // verus!
