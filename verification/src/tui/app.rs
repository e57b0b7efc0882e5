//! The state of the interface that its keys act on, and what each key does.
//! A key changes the state and may ask for one piece of outside work (an
//! `Action`): reloading from disk, reading directories, saving the
//! configuration, running a command. Whoever runs the interface performs it
//! and reports back through the methods of this state.
use vstd::prelude::*;
use vstd::view::View as ViewTrait;

use super::commands::{commands_view, init_commands, init_commands_view, CommandView};
use super::{
    filter_name, next_filter, prev_filter, Command, CommandFilter, InputMode, Key, Project, View,
    WorkspaceDir,
};
use crate::config::{trim_end_char, trim_trailing_slashes};
use crate::forms::{
    after_backspace, after_char, after_down, after_space, after_up, can_go_down, can_go_up,
    drop_last_char, fields_view, form_error_text, form_verdict, next_index, prev_index, FieldView, Form,
    FormErrorView, FormView,
};
use crate::fs::{logs_view, LogFile, LogFileView};
use crate::text::{chars_of, pop_char, push_char, string_from_chars, strs, trim, trim_chars};

verus! {

/// The state of the interface.
pub struct AppState {
    pub should_quit: bool,
    pub current_view: View,
    pub projects: Vec<Project>,
    pub commands: Vec<Command>,
    pub command_filter: CommandFilter,
    pub selected_project: usize,
    pub selected_command: usize,
    pub status_message: String,
    pub workspace_directories: Vec<WorkspaceDir>,
    pub selected_workspace: usize,
    pub input_mode: InputMode,
    pub input_buffer: String,
    /// Which workspace is being edited, while a path is typed.
    pub editing_workspace_index: Option<usize>,
    /// Which workspace commands run in when no project is selected.
    pub selected_target_workspace: usize,
    pub fuzzy_matches: Vec<String>,
    pub fuzzy_selected: usize,
    /// Whether the arrows move among the matches (rather than typing).
    pub fuzzy_browsing: bool,
    pub selected_log: usize,
    /// The log shown in the detail view, and how far it is scrolled.
    pub viewing_log: Option<(String, usize)>,
    /// Whether the screen must be cleared before the next draw.
    pub needs_clear: bool,
    pub active_form: Option<Form>,
}

pub struct AppView {
    pub should_quit: bool,
    pub view: View,
    pub projects: Seq<Project>,
    pub commands: Seq<CommandView>,
    pub filter: CommandFilter,
    pub selected_project: usize,
    pub selected_command: usize,
    pub status: Seq<char>,
    pub workspaces: Seq<WorkspaceDir>,
    pub selected_workspace: usize,
    pub mode: InputMode,
    pub input: Seq<char>,
    pub editing: Option<usize>,
    pub target: usize,
    pub fuzzy: Seq<Seq<char>>,
    pub fuzzy_selected: usize,
    pub browsing: bool,
    pub selected_log: usize,
    pub viewing_log: Option<(Seq<char>, usize)>,
    pub needs_clear: bool,
    pub form: Option<FormView>,
}

impl ViewTrait for AppState {
    type V = AppView;

    open spec fn view(&self) -> AppView {
        AppView {
            should_quit: self.should_quit,
            view: self.current_view,
            projects: self.projects@,
            commands: commands_view(self.commands@),
            filter: self.command_filter,
            selected_project: self.selected_project,
            selected_command: self.selected_command,
            status: self.status_message@,
            workspaces: self.workspace_directories@,
            selected_workspace: self.selected_workspace,
            mode: self.input_mode,
            input: self.input_buffer@,
            editing: self.editing_workspace_index,
            target: self.selected_target_workspace,
            fuzzy: strs(self.fuzzy_matches@),
            fuzzy_selected: self.fuzzy_selected,
            browsing: self.fuzzy_browsing,
            selected_log: self.selected_log,
            viewing_log: match self.viewing_log {
                Some(l) => Some((l.0@, l.1)),
                None => None,
            },
            needs_clear: self.needs_clear,
            form: match self.active_form {
                Some(f) => Some(f@),
                None => None,
            },
        }
    }
}

/// The outside work a key asks for.
#[derive(Clone, Debug)]
pub enum Action {
    Nothing,
    /// Reload the configuration, the projects and their states from disk.
    Reload,
    /// Reload the commands of the palette for the current selection and tab.
    UpdateCommands,
    /// Read the directories that match the typed path.
    UpdateFuzzyMatches,
    /// Complete the typed path from the directory it names.
    CompletePath(String),
    /// Register a workspace directory.
    AddWorkspace(String),
    /// Replace a registered workspace directory (old path, new path).
    EditWorkspace(String, String),
    /// Unregister a workspace directory.
    RemoveWorkspace(String),
    /// Run a command line.
    Execute(String),
    /// Open a file in the user's editor.
    OpenInEditor(String),
}

pub enum ActionView {
    Nothing,
    Reload,
    UpdateCommands,
    UpdateFuzzyMatches,
    CompletePath(Seq<char>),
    AddWorkspace(Seq<char>),
    EditWorkspace(Seq<char>, Seq<char>),
    RemoveWorkspace(Seq<char>),
    Execute(Seq<char>),
    OpenInEditor(Seq<char>),
}

impl ViewTrait for Action {
    type V = ActionView;

    open spec fn view(&self) -> ActionView {
        match self {
            Action::Nothing => ActionView::Nothing,
            Action::Reload => ActionView::Reload,
            Action::UpdateCommands => ActionView::UpdateCommands,
            Action::UpdateFuzzyMatches => ActionView::UpdateFuzzyMatches,
            Action::CompletePath(p) => ActionView::CompletePath(p@),
            Action::AddWorkspace(p) => ActionView::AddWorkspace(p@),
            Action::EditWorkspace(a, b) => ActionView::EditWorkspace(a@, b@),
            Action::RemoveWorkspace(p) => ActionView::RemoveWorkspace(p@),
            Action::Execute(c) => ActionView::Execute(c@),
            Action::OpenInEditor(p) => ActionView::OpenInEditor(p@),
        }
    }
}

// ---------------------------------------------------------------------------
// What each key does
// ---------------------------------------------------------------------------
/// A path or a command line is being typed.
pub open spec fn text_mode(m: InputMode) -> bool {
    m == InputMode::AddingDirectory || m == InputMode::EditingCommand
}

pub open spec fn with_status(s: AppView, msg: Seq<char>) -> AppView {
    AppView { status: msg, ..s }
}

/// The workspace that commands run in when no project is selected.
pub open spec fn target_workspace(s: AppView) -> Seq<char> {
    if s.target < s.workspaces.len() {
        s.workspaces[s.target as int].path@
    } else {
        "~/projects"@
    }
}

/// The form for creating a git tag.
pub open spec fn tag_form() -> FormView {
    FormView {
        title: "Create Git Tag"@,
        description: Some("Create a new Git tag for this project"@),
        fields: seq![
            FieldView::TextInput {
                id: "tag_name"@,
                label: "Tag Name"@,
                placeholder: "v1.0.0"@,
                value: seq![],
            },
            FieldView::TextArea {
                id: "message"@,
                label: "Tag Message"@,
                placeholder: "Release notes..."@,
                value: seq![],
                height: 4,
            },
            FieldView::Checkbox { id: "annotated"@, label: "Create annotated tag"@, checked: false },
            FieldView::Checkbox { id: "push"@, label: "Push tag to remote"@, checked: false },
        ],
        current_field: 0,
        submitted: false,
        cancelled: false,
    }
}

/// A form is open and its current field exists.
pub open spec fn has_current(f: Option<FormView>) -> bool {
    f matches Some(fv) && fv.current_field < fv.fields.len()
}

pub open spec fn current_of(f: Option<FormView>) -> FieldView {
    f->0.fields[f->0.current_field as int]
}

/// The open form with its current field replaced by `nf`.
pub open spec fn replace_current(f: Option<FormView>, nf: FieldView) -> Option<FormView> {
    match f {
        Some(fv) => Some(FormView { fields: fv.fields.update(fv.current_field as int, nf), ..fv }),
        None => None,
    }
}

pub open spec fn form_after_char(f: Option<FormView>, c: char) -> Option<FormView> {
    if has_current(f) {
        replace_current(f, after_char(current_of(f), c))
    } else {
        f
    }
}

pub open spec fn form_after_backspace(f: Option<FormView>) -> Option<FormView> {
    if has_current(f) {
        replace_current(f, after_backspace(current_of(f)))
    } else {
        f
    }
}

pub open spec fn form_after_space(f: Option<FormView>) -> Option<FormView> {
    if has_current(f) {
        replace_current(f, after_space(current_of(f)))
    } else {
        f
    }
}

pub open spec fn form_after_up(f: Option<FormView>) -> Option<FormView> {
    if has_current(f) {
        replace_current(f, after_up(current_of(f)))
    } else {
        f
    }
}

pub open spec fn form_after_down(f: Option<FormView>) -> Option<FormView> {
    if has_current(f) {
        replace_current(f, after_down(current_of(f)))
    } else {
        f
    }
}

pub open spec fn form_next_field(f: Option<FormView>) -> Option<FormView> {
    match f {
        Some(fv) => Some(FormView { current_field: next_index(fv.current_field, fv.fields.len()), ..fv }),
        None => None,
    }
}

pub open spec fn form_prev_field(f: Option<FormView>) -> Option<FormView> {
    match f {
        Some(fv) => Some(FormView { current_field: prev_index(fv.current_field), ..fv }),
        None => None,
    }
}

pub open spec fn stay(s: AppView) -> (AppView, ActionView) {
    (s, ActionView::Nothing)
}

/// `1` to `4` switch views.
pub open spec fn digit_key(s: AppView, c: char) -> (AppView, ActionView) {
    if c == '1' {
        (AppView { view: View::ProjectBrowser, status: "Viewing projects"@, ..s }, ActionView::Nothing)
    } else if c == '2' {
        (
            AppView { view: View::CommandPalette, status: "Viewing commands"@, ..s },
            ActionView::UpdateCommands,
        )
    } else if c == '3' {
        (
            AppView {
                view: View::Detail,
                selected_log: 0,
                status: "Viewing details for: "@ + (if s.selected_project < s.projects.len() {
                    s.projects[s.selected_project as int].name@
                } else {
                    "unknown"@
                }),
                ..s
            },
            ActionView::Nothing,
        )
    } else {
        (
            AppView { view: View::WorkspaceManager, status: "Managing workspace directories"@, ..s },
            ActionView::Nothing,
        )
    }
}

/// `a`, `e` and `d` in the workspace manager, when no path is being typed:
/// add a directory, edit the selected one, remove the selected one.
pub open spec fn workspace_key(s: AppView, c: char) -> (AppView, ActionView) {
    if c == 'a' {
        (
            AppView {
                mode: InputMode::AddingDirectory,
                input: seq![],
                browsing: false,
                editing: None,
                status: "Type path, use ↑↓ to browse matches, Tab/Enter to select"@,
                ..s
            },
            ActionView::UpdateFuzzyMatches,
        )
    } else if s.selected_workspace < s.workspaces.len() {
        let ws = s.workspaces[s.selected_workspace as int];
        if c == 'e' {
            if ws.is_primary {
                stay(with_status(s, "✗ Cannot edit primary workspace (use config file)"@))
            } else {
                (
                    AppView {
                        mode: InputMode::AddingDirectory,
                        input: ws.path@,
                        browsing: false,
                        editing: Some(s.selected_workspace),
                        status: "Editing path - use ↑↓ to browse matches, Tab/Enter to save"@,
                        ..s
                    },
                    ActionView::UpdateFuzzyMatches,
                )
            }
        } else {
            if ws.is_primary {
                stay(with_status(s, "✗ Cannot remove primary workspace"@))
            } else {
                (s, ActionView::RemoveWorkspace(ws.path@))
            }
        }
    } else {
        stay(s)
    }
}

/// The next target workspace, wrapping round.
pub open spec fn cycle_target(s: AppView) -> AppView {
    if s.workspaces.len() > 0 {
        let t = AppView { target: ((s.target + 1) % (s.workspaces.len() as int)) as usize, ..s };
        with_status(t, "Target: "@ + target_workspace(t))
    } else {
        s
    }
}

/// `l` previews the selected log and `o` opens it in an editor.
pub open spec fn log_key(s: AppView, logs: Seq<LogFileView>, c: char) -> (AppView, ActionView) {
    if s.selected_project < s.projects.len() {
        if s.selected_log < logs.len() {
            let log = logs[s.selected_log as int];
            if c == 'l' {
                stay(
                    AppView {
                        viewing_log: Some((log.path, 0usize)),
                        status: "Viewing: "@ + log.filename,
                        ..s
                    },
                )
            } else {
                (s, ActionView::OpenInEditor(log.path))
            }
        } else {
            stay(with_status(s, "✗ No logs available"@))
        }
    } else {
        stay(with_status(s, "✗ No project selected"@))
    }
}

/// A character typed into the path or command line.
pub open spec fn type_char(s: AppView, c: char) -> (AppView, ActionView) {
    let t = AppView { input: s.input.push(c), ..s };
    if s.mode == InputMode::AddingDirectory {
        (AppView { browsing: false, ..t }, ActionView::UpdateFuzzyMatches)
    } else {
        stay(t)
    }
}

/// The keys that open the git tag form: `f` in the project browser and `t`
/// in the detail view, outside any typing.
pub open spec fn opens_tag_form(s: AppView, c: char) -> bool {
    s.mode == InputMode::Normal && ((c == 'f' && s.view == View::ProjectBrowser) || (c == 't'
        && s.view == View::Detail))
}

pub open spec fn char_key(s: AppView, logs: Seq<LogFileView>, c: char) -> (AppView, ActionView) {
    if c == 'q' || c == 'Q' {
        stay(AppView { should_quit: true, ..s })
    } else if (c == 'r' || c == 'R') && !text_mode(s.mode) {
        (with_status(s, "✓ Reloaded all state from disk"@), ActionView::Reload)
    } else if opens_tag_form(s, c) {
        stay(
            AppView {
                form: Some(tag_form()),
                view: View::Form,
                status: "Editing form - press Enter to submit, Esc to cancel"@,
                ..s
            },
        )
    } else if '1' <= c && c <= '4' && s.mode != InputMode::AddingDirectory && s.view != View::Form {
        digit_key(s, c)
    } else if (c == 'a' || c == 'e' || c == 'd') && s.view == View::WorkspaceManager {
        if s.mode == InputMode::Normal {
            workspace_key(s, c)
        } else {
            stay(s)
        }
    } else if c == 't' && s.view == View::CommandPalette && s.mode == InputMode::Normal {
        stay(cycle_target(s))
    } else if (c == 'l' || c == 'o') && s.view == View::Detail && s.mode == InputMode::Normal {
        log_key(s, logs, c)
    } else if text_mode(s.mode) {
        type_char(s, c)
    } else if s.view == View::Form {
        if c != ' ' {
            stay(AppView { form: form_after_char(s.form, c), ..s })
        } else {
            stay(AppView { form: form_after_space(s.form), ..s })
        }
    } else if c == '?' {
        stay(with_status(s, "Press 1-3 for views, ↑↓ to navigate, Enter to select, q to quit"@))
    } else {
        stay(s)
    }
}

pub open spec fn esc_key(s: AppView) -> AppView {
    if s.view == View::Detail && s.viewing_log is Some {
        AppView { viewing_log: None, needs_clear: true, status: "Closed log preview"@, ..s }
    } else if text_mode(s.mode) {
        AppView {
            mode: InputMode::Normal,
            input: seq![],
            editing: None,
            status: "Cancelled"@,
            ..s
        }
    } else if s.view == View::Form && s.form is Some {
        AppView { form: None, view: View::ProjectBrowser, status: "Form cancelled"@, ..s }
    } else {
        s
    }
}

pub open spec fn backspace_key(s: AppView) -> (AppView, ActionView) {
    if text_mode(s.mode) {
        let t = AppView { input: drop_last_char(s.input), ..s };
        if s.mode == InputMode::AddingDirectory {
            (AppView { browsing: false, ..t }, ActionView::UpdateFuzzyMatches)
        } else {
            stay(t)
        }
    } else if s.view == View::Form {
        stay(AppView { form: form_after_backspace(s.form), ..s })
    } else {
        stay(s)
    }
}

pub open spec fn with_slash(p: Seq<char>) -> Seq<char> {
    if p.len() > 0 && p.last() == '/' {
        p
    } else {
        p.push('/')
    }
}

/// Tab: while a path is typed, take the match browsed to, or else complete
/// the path; in a form, go to the next field.
pub open spec fn tab_key(s: AppView) -> (AppView, ActionView) {
    if s.mode == InputMode::AddingDirectory {
        if s.browsing && s.fuzzy.len() > 0 {
            let p = with_slash(s.fuzzy[s.fuzzy_selected as int]);
            (
                AppView { input: p, browsing: false, status: "Selected: "@ + p, ..s },
                ActionView::UpdateFuzzyMatches,
            )
        } else {
            (s, ActionView::CompletePath(s.input))
        }
    } else if s.view == View::Form {
        stay(AppView { form: form_next_field(s.form), ..s })
    } else {
        stay(s)
    }
}

/// `x - k`, or 0 where that would be negative.
pub open spec fn sat_sub(x: usize, k: usize) -> usize {
    if x >= k {
        (x - k) as usize
    } else {
        0
    }
}

/// `x + k`, or the largest `usize` where that would not fit.
pub open spec fn sat_add(x: usize, k: usize) -> usize {
    if x + k <= usize::MAX {
        (x + k) as usize
    } else {
        usize::MAX
    }
}

pub open spec fn browsing_matches(s: AppView) -> bool {
    s.mode == InputMode::AddingDirectory && s.fuzzy.len() > 0
}

pub open spec fn up_key(s: AppView) -> AppView {
    if browsing_matches(s) {
        AppView { browsing: true, fuzzy_selected: sat_sub(s.fuzzy_selected, 1), ..s }
    } else if s.view == View::ProjectBrowser {
        if s.selected_project > 0 {
            AppView {
                selected_project: (s.selected_project - 1) as usize,
                status: "Selected previous project"@,
                ..s
            }
        } else {
            s
        }
    } else if s.view == View::CommandPalette {
        if s.selected_command > 0 {
            AppView {
                selected_command: (s.selected_command - 1) as usize,
                status: "Selected previous command"@,
                ..s
            }
        } else {
            s
        }
    } else if s.view == View::WorkspaceManager {
        AppView { selected_workspace: sat_sub(s.selected_workspace, 1), ..s }
    } else if s.view == View::Detail {
        match s.viewing_log {
            Some(l) => AppView { viewing_log: Some((l.0, sat_sub(l.1, 1))), ..s },
            None => AppView { selected_log: sat_sub(s.selected_log, 1), ..s },
        }
    } else {
        AppView { form: form_after_up(s.form), ..s }
    }
}

pub open spec fn down_key(s: AppView, logs: Seq<LogFileView>) -> AppView {
    if browsing_matches(s) {
        AppView {
            browsing: true,
            fuzzy_selected: if s.fuzzy_selected + 1 < s.fuzzy.len() {
                (s.fuzzy_selected + 1) as usize
            } else {
                s.fuzzy_selected
            },
            ..s
        }
    } else if s.view == View::ProjectBrowser {
        if s.selected_project + 1 < s.projects.len() {
            let i = (s.selected_project + 1) as usize;
            AppView { selected_project: i, status: "Selected: "@ + s.projects[i as int].name@, ..s }
        } else {
            s
        }
    } else if s.view == View::CommandPalette {
        if s.selected_command + 1 < s.commands.len() {
            let i = (s.selected_command + 1) as usize;
            AppView { selected_command: i, status: "Selected: "@ + s.commands[i as int].name, ..s }
        } else {
            s
        }
    } else if s.view == View::WorkspaceManager {
        if s.selected_workspace + 1 < s.workspaces.len() {
            AppView { selected_workspace: (s.selected_workspace + 1) as usize, ..s }
        } else {
            s
        }
    } else if s.view == View::Detail {
        match s.viewing_log {
            Some(l) => AppView { viewing_log: Some((l.0, sat_add(l.1, 1))), ..s },
            None => if s.selected_project < s.projects.len() && s.selected_log + 1 < logs.len() {
                AppView { selected_log: (s.selected_log + 1) as usize, ..s }
            } else {
                s
            },
        }
    } else {
        AppView { form: form_after_down(s.form), ..s }
    }
}

/// Page up and down scroll a previewed log by ten lines.
pub open spec fn page_key(s: AppView, down: bool) -> AppView {
    if s.view == View::Detail {
        match s.viewing_log {
            Some(l) => AppView {
                viewing_log: Some((l.0, if down {
                    sat_add(l.1, 10)
                } else {
                    sat_sub(l.1, 10)
                })),
                ..s
            },
            None => s,
        }
    } else {
        s
    }
}

/// Left and right move between the palette's tabs.
pub open spec fn filter_key(s: AppView, right: bool) -> (AppView, ActionView) {
    if s.view == View::CommandPalette && s.mode == InputMode::Normal {
        let f = if right {
            next_filter(s.filter)
        } else {
            prev_filter(s.filter)
        };
        (AppView { filter: f, status: "Filter: "@ + filter_name(f), ..s }, ActionView::UpdateCommands)
    } else {
        stay(s)
    }
}

pub open spec fn enter_key(s: AppView) -> (AppView, ActionView) {
    if s.view == View::ProjectBrowser {
        if s.selected_project < s.projects.len() {
            stay(
                AppView {
                    status: "Opening "@ + s.projects[s.selected_project as int].name@ + "..."@,
                    view: View::Detail,
                    ..s
                },
            )
        } else {
            stay(s)
        }
    } else if s.view == View::CommandPalette {
        if s.mode == InputMode::EditingCommand {
            let c = trim(s.input);
            if c.len() > 0 {
                (AppView { mode: InputMode::Normal, input: seq![], ..s }, ActionView::Execute(c))
            } else {
                stay(s)
            }
        } else if s.selected_command < s.commands.len() {
            stay(
                AppView {
                    mode: InputMode::EditingCommand,
                    input: s.commands[s.selected_command as int].command,
                    status: "Edit command (working dir: "@ + target_workspace(s)
                        + ") then press Enter to execute"@,
                    ..s
                },
            )
        } else {
            stay(s)
        }
    } else if s.view == View::WorkspaceManager {
        if s.mode == InputMode::AddingDirectory {
            let p = trim_end_char(trim(s.input), '/');
            if p.len() > 0 {
                let t = AppView { mode: InputMode::Normal, input: seq![], editing: None, ..s };
                match s.editing {
                    Some(i) => if i < s.workspaces.len() {
                        (t, ActionView::EditWorkspace(s.workspaces[i as int].path@, p))
                    } else {
                        stay(t)
                    },
                    None => (t, ActionView::AddWorkspace(p)),
                }
            } else {
                stay(s)
            }
        } else {
            stay(s)
        }
    } else if s.view == View::Form {
        match s.form {
            Some(fv) => match form_verdict(fv.fields) {
                Ok(_) => stay(
                    AppView {
                        status: "Form submitted"@,
                        form: None,
                        view: View::ProjectBrowser,
                        ..s
                    },
                ),
                Err(e) => stay(with_status(s, "Validation error: "@ + form_error_text(e))),
            },
            None => stay(s),
        }
    } else {
        stay(s)
    }
}

/// What a key does to the interface, given the recent logs of the selected
/// project, and the outside work it asks for.
pub open spec fn key_step(s: AppView, logs: Seq<LogFileView>, key: Key) -> (AppView, ActionView) {
    match key {
        Key::Char(c) => char_key(s, logs, c),
        Key::Esc => stay(esc_key(s)),
        Key::Backspace => backspace_key(s),
        Key::Tab => tab_key(s),
        Key::BackTab => if s.view == View::Form {
            stay(AppView { form: form_prev_field(s.form), ..s })
        } else {
            stay(s)
        },
        Key::Up => stay(up_key(s)),
        Key::Down => stay(down_key(s, logs)),
        Key::PageUp => stay(page_key(s, false)),
        Key::PageDown => stay(page_key(s, true)),
        Key::Left => filter_key(s, false),
        Key::Right => filter_key(s, true),
        Key::Enter => enter_key(s),
        Key::Other => stay(s),
    }
}

/// The keys that would overflow a number field: up on one at the largest
/// value, down on one at the smallest.
pub open spec fn key_allowed(s: AppView, key: Key) -> bool {
    &&& (key == Key::Up && !browsing_matches(s) && s.view == View::Form && has_current(s.form)
        ==> can_go_up(current_of(s.form)))
    &&& (key == Key::Down && !browsing_matches(s) && s.view == View::Form && has_current(s.form)
        ==> can_go_down(current_of(s.form)))
}

/// The interface before anything is loaded: the project browser, no
/// projects, the commands that create a project, and a welcome.
pub open spec fn initial_view() -> AppView {
    AppView {
        should_quit: false,
        view: View::ProjectBrowser,
        projects: seq![],
        commands: init_commands_view(),
        filter: CommandFilter::All,
        selected_project: 0,
        selected_command: 0,
        status: "Welcome to Byte!"@,
        workspaces: seq![],
        selected_workspace: 0,
        mode: InputMode::Normal,
        input: seq![],
        editing: None,
        target: 0,
        fuzzy: seq![],
        fuzzy_selected: 0,
        browsing: false,
        selected_log: 0,
        viewing_log: None,
        needs_clear: false,
        form: None,
    }
}

impl Default for AppState {
    fn default() -> (r: AppState)
        ensures
            r@ == initial_view(),
    {
        let r = AppState {
            should_quit: false,
            current_view: View::ProjectBrowser,
            projects: Vec::new(),
            commands: init_commands(),
            command_filter: CommandFilter::All,
            selected_project: 0,
            selected_command: 0,
            status_message: String::from_str("Welcome to Byte!"),
            workspace_directories: Vec::new(),
            selected_workspace: 0,
            input_mode: InputMode::Normal,
            input_buffer: String::new(),
            editing_workspace_index: None,
            selected_target_workspace: 0,
            fuzzy_matches: Vec::new(),
            fuzzy_selected: 0,
            fuzzy_browsing: false,
            selected_log: 0,
            viewing_log: None,
            needs_clear: false,
            active_form: None,
        };
        assert(r@.projects =~= seq![]);
        assert(r@.workspaces =~= seq![]);
        assert(r@.fuzzy =~= seq![]);
        r
    }
}

// ---------------------------------------------------------------------------
// Laws of the keys
// ---------------------------------------------------------------------------
/// The state is sound: a browsed match exists.
pub open spec fn sound(s: AppView) -> bool {
    s.fuzzy_selected == 0 || s.fuzzy_selected < s.fuzzy.len()
}

/// `q` and `Q` quit, whatever the interface is doing.
pub proof fn law_q_quits(s: AppView, logs: Seq<LogFileView>, c: char)
    requires
        c == 'q' || c == 'Q',
    ensures
        key_step(s, logs, Key::Char(c)).0.should_quit,
        key_step(s, logs, Key::Char(c)).1 == ActionView::Nothing,
{
}

/// In the project browser, `f` opens the git tag form and shows it.
pub proof fn law_f_opens_form(s: AppView, logs: Seq<LogFileView>)
    requires
        s.view == View::ProjectBrowser,
        s.mode == InputMode::Normal,
    ensures
        key_step(s, logs, Key::Char('f')).0.form == Some(tag_form()),
        key_step(s, logs, Key::Char('f')).0.view == View::Form,
{
}

/// Every key keeps the state sound.
pub proof fn law_keys_keep_state_sound(s: AppView, logs: Seq<LogFileView>, key: Key)
    requires
        sound(s),
    ensures
        sound(key_step(s, logs, key).0),
{
}

/// Escape while a path or a command is typed (and no log is previewed)
/// drops what was typed and goes back to normal mode.
pub proof fn law_escape_leaves_typing(s: AppView, logs: Seq<LogFileView>)
    requires
        text_mode(s.mode),
        !(s.view == View::Detail && s.viewing_log is Some),
    ensures
        key_step(s, logs, Key::Esc).0.mode == InputMode::Normal,
        key_step(s, logs, Key::Esc).0.input == Seq::<char>::empty(),
        key_step(s, logs, Key::Esc).0.editing is None,
{
}

/// Backspace undoes a character typed into a path or a command line (a
/// character that no key binding takes): only the browsing of matches stops.
pub proof fn law_backspace_undoes_typing(s: AppView, logs: Seq<LogFileView>, c: char)
    requires
        text_mode(s.mode),
        c != 'q' && c != 'Q',
        !('1' <= c <= '4' && s.mode == InputMode::EditingCommand),
        !((c == 'a' || c == 'e' || c == 'd') && s.view == View::WorkspaceManager),
    ensures
        key_step(key_step(s, logs, Key::Char(c)).0, logs, Key::Backspace).0 == (AppView {
            browsing: if s.mode == InputMode::AddingDirectory {
                false
            } else {
                s.browsing
            },
            ..s
        }),
{
    let t = key_step(s, logs, Key::Char(c)).0;
    assert(t.input == s.input.push(c));
    assert(t.input.drop_last() =~= s.input);
}

/// In the palette, moving a tab left undoes moving it right, and the other way round.
pub proof fn law_tabs_undo_each_other(s: AppView, logs: Seq<LogFileView>)
    requires
        s.view == View::CommandPalette,
        s.mode == InputMode::Normal,
    ensures
        key_step(key_step(s, logs, Key::Right).0, logs, Key::Left).0.filter == s.filter,
        key_step(key_step(s, logs, Key::Left).0, logs, Key::Right).0.filter == s.filter,
{
}

/// In the project browser, up undoes down wherever down moved the selection.
pub proof fn law_up_undoes_down(s: AppView, logs: Seq<LogFileView>)
    requires
        s.view == View::ProjectBrowser,
        !browsing_matches(s),
        s.selected_project + 1 < s.projects.len(),
        s.projects.len() <= usize::MAX,
    ensures
        key_step(key_step(s, logs, Key::Down).0, logs, Key::Up).0.selected_project
            == s.selected_project,
{
}

/// Selections move within their lists: down never moves the project or
/// command selection past the last entry, and never onto an entry that
/// does not exist.
pub proof fn law_selection_stays_in_list(s: AppView, logs: Seq<LogFileView>)
    requires
        s.selected_project < s.projects.len(),
        s.selected_command < s.commands.len(),
    ensures
        key_step(s, logs, Key::Down).0.selected_project < s.projects.len(),
        key_step(s, logs, Key::Down).0.selected_command < s.commands.len(),
        key_step(s, logs, Key::Up).0.selected_project < s.projects.len(),
        key_step(s, logs, Key::Up).0.selected_command < s.commands.len(),
{
}

// ---------------------------------------------------------------------------
// Strings
// ---------------------------------------------------------------------------
fn cat(a: &str, b: &str) -> (r: String)
    ensures
        r@ == a@ + b@,
{
    let mut out = String::from_str(a);
    out.append(b);
    out
}

fn cat3(a: &str, b: &str, c: &str) -> (r: String)
    ensures
        r@ == a@ + b@ + c@,
{
    let mut out = String::from_str(a);
    out.append(b);
    out.append(c);
    out
}

fn copy_string(s: &String) -> (r: String)
    ensures
        r@ == s@,
{
    s.clone()
}

impl AppState {
    /// The state is sound: a browsed match exists.
    pub open spec fn wf(&self) -> bool {
        sound(self@)
    }

    fn set_status(&mut self, msg: String)
        ensures
            final(self)@ == with_status(old(self)@, msg@),
    {
        self.status_message = msg;
    }

    /// The workspace commands run in when no project is selected
    /// (`~/projects` where the target is not a listed workspace).
    pub fn get_target_workspace(&self) -> (r: String)
        ensures
            r@ == target_workspace(self@),
    {
        if self.selected_target_workspace < self.workspace_directories.len() {
            copy_string(&self.workspace_directories[self.selected_target_workspace].path)
        } else {
            String::from_str("~/projects")
        }
    }

    pub fn quit(&mut self)
        ensures
            final(self)@ == (AppView { should_quit: true, ..old(self)@ }),
    {
        self.should_quit = true;
    }

    /// The selected project, if the selection is within the list.
    pub fn get_selected_project(&self) -> (r: Option<&Project>)
        ensures
            self.selected_project < self.projects@.len() ==> r == Some(
                &self.projects@[self.selected_project as int],
            ),
            self.selected_project >= self.projects@.len() ==> r is None,
    {
        if self.selected_project < self.projects.len() {
            Some(&self.projects[self.selected_project])
        } else {
            None
        }
    }

    /// The selected command, if the selection is within the list.
    pub fn get_selected_command(&self) -> (r: Option<&Command>)
        ensures
            self.selected_command < self.commands@.len() ==> r == Some(
                &self.commands@[self.selected_command as int],
            ),
            self.selected_command >= self.commands@.len() ==> r is None,
    {
        if self.selected_command < self.commands.len() {
            Some(&self.commands[self.selected_command])
        } else {
            None
        }
    }

    /// Move the target workspace to the next one, wrapping round.
    pub fn cycle_target_workspace(&mut self)
        ensures
            final(self)@ == cycle_target(old(self)@),
    {
        let n = self.workspace_directories.len();
        if n > 0 {
            let t = self.selected_target_workspace;
            let next = (t % n + 1) % n;
            proof {
                assert(next == (t + 1) % (n as int)) by {
                    if n > 1 {
                        vstd::arithmetic::div_mod::lemma_add_mod_noop(t as int, 1, n as int);
                        vstd::arithmetic::div_mod::lemma_small_mod(1, n as nat);
                    }
                }
            }
            self.selected_target_workspace = next;
            let name = self.get_target_workspace();
            let msg = cat("Target: ", name.as_str());
            self.set_status(msg);
        }
    }

    fn digit_key_exec(&mut self, c: char) -> (r: Action)
        requires
            '1' <= c <= '4',
        ensures
            final(self)@ == digit_key(old(self)@, c).0,
            r@ == digit_key(old(self)@, c).1,
    {
        if c == '1' {
            self.current_view = View::ProjectBrowser;
            self.set_status(String::from_str("Viewing projects"));
            Action::Nothing
        } else if c == '2' {
            self.current_view = View::CommandPalette;
            self.set_status(String::from_str("Viewing commands"));
            Action::UpdateCommands
        } else if c == '3' {
            self.current_view = View::Detail;
            self.selected_log = 0;
            let name = if self.selected_project < self.projects.len() {
                copy_string(&self.projects[self.selected_project].name)
            } else {
                String::from_str("unknown")
            };
            self.set_status(cat("Viewing details for: ", name.as_str()));
            Action::Nothing
        } else {
            self.current_view = View::WorkspaceManager;
            self.set_status(String::from_str("Managing workspace directories"));
            Action::Nothing
        }
    }

    fn workspace_key_exec(&mut self, c: char) -> (r: Action)
        requires
            c == 'a' || c == 'e' || c == 'd',
        ensures
            final(self)@ == workspace_key(old(self)@, c).0,
            r@ == workspace_key(old(self)@, c).1,
    {
        if c == 'a' {
            self.input_mode = InputMode::AddingDirectory;
            self.input_buffer = String::new();
            self.fuzzy_browsing = false;
            self.editing_workspace_index = None;
            self.set_status(String::from_str("Type path, use ↑↓ to browse matches, Tab/Enter to select"));
            return Action::UpdateFuzzyMatches;
        }
        if self.selected_workspace < self.workspace_directories.len() {
            let i = self.selected_workspace;
            let primary = self.workspace_directories[i].is_primary;
            let path = copy_string(&self.workspace_directories[i].path);
            if c == 'e' {
                if primary {
                    self.set_status(String::from_str("✗ Cannot edit primary workspace (use config file)"));
                    Action::Nothing
                } else {
                    self.input_mode = InputMode::AddingDirectory;
                    self.input_buffer = path;
                    self.fuzzy_browsing = false;
                    self.editing_workspace_index = Some(i);
                    self.set_status(
                        String::from_str("Editing path - use ↑↓ to browse matches, Tab/Enter to save"),
                    );
                    Action::UpdateFuzzyMatches
                }
            } else {
                if primary {
                    self.set_status(String::from_str("✗ Cannot remove primary workspace"));
                    Action::Nothing
                } else {
                    Action::RemoveWorkspace(path)
                }
            }
        } else {
            Action::Nothing
        }
    }

    fn log_key_exec(&mut self, logs: &Vec<LogFile>, c: char) -> (r: Action)
        ensures
            final(self)@ == log_key(old(self)@, logs_view(logs@), c).0,
            r@ == log_key(old(self)@, logs_view(logs@), c).1,
    {
        if self.selected_project < self.projects.len() {
            if self.selected_log < logs.len() {
                let log = &logs[self.selected_log];
                assert(logs_view(logs@)[self.selected_log as int] == log@);
                if c == 'l' {
                    self.viewing_log = Some((copy_string(&log.path), 0));
                    self.set_status(cat("Viewing: ", log.filename.as_str()));
                    Action::Nothing
                } else {
                    Action::OpenInEditor(copy_string(&log.path))
                }
            } else {
                self.set_status(String::from_str("✗ No logs available"));
                Action::Nothing
            }
        } else {
            self.set_status(String::from_str("✗ No project selected"));
            Action::Nothing
        }
    }

    fn type_char_exec(&mut self, c: char) -> (r: Action)
        ensures
            final(self)@ == type_char(old(self)@, c).0,
            r@ == type_char(old(self)@, c).1,
    {
        push_char(&mut self.input_buffer, c);
        if self.input_mode == InputMode::AddingDirectory {
            self.fuzzy_browsing = false;
            Action::UpdateFuzzyMatches
        } else {
            Action::Nothing
        }
    }

    fn char_key_exec(&mut self, logs: &Vec<LogFile>, c: char) -> (r: Action)
        ensures
            final(self)@ == char_key(old(self)@, logs_view(logs@), c).0,
            r@ == char_key(old(self)@, logs_view(logs@), c).1,
    {
        let text = self.input_mode == InputMode::AddingDirectory || self.input_mode
            == InputMode::EditingCommand;
        let normal = self.input_mode == InputMode::Normal;
        if c == 'q' || c == 'Q' {
            self.should_quit = true;
            Action::Nothing
        } else if (c == 'r' || c == 'R') && !text {
            self.set_status(String::from_str("✓ Reloaded all state from disk"));
            Action::Reload
        } else if normal && ((c == 'f' && self.current_view == View::ProjectBrowser) || (c == 't'
            && self.current_view == View::Detail)) {
            let form = Form::new("Create Git Tag").description(
                "Create a new Git tag for this project",
            ).text_input("tag_name", "Tag Name", "v1.0.0").text_area(
                "message",
                "Tag Message",
                "Release notes...",
                4,
            ).checkbox("annotated", "Create annotated tag").checkbox("push", "Push tag to remote");
            assert(form@.fields =~= tag_form().fields);
            self.active_form = Some(form);
            self.current_view = View::Form;
            self.set_status(String::from_str("Editing form - press Enter to submit, Esc to cancel"));
            Action::Nothing
        } else if '1' <= c && c <= '4' && self.input_mode != InputMode::AddingDirectory
            && self.current_view != View::Form {
            self.digit_key_exec(c)
        } else if (c == 'a' || c == 'e' || c == 'd') && self.current_view == View::WorkspaceManager {
            if normal {
                self.workspace_key_exec(c)
            } else {
                Action::Nothing
            }
        } else if c == 't' && self.current_view == View::CommandPalette && normal {
            self.cycle_target_workspace();
            Action::Nothing
        } else if (c == 'l' || c == 'o') && self.current_view == View::Detail && normal {
            self.log_key_exec(logs, c)
        } else if text {
            self.type_char_exec(c)
        } else if self.current_view == View::Form {
            if c != ' ' {
                self.form_char(c);
            } else {
                self.form_space();
            }
            Action::Nothing
        } else if c == '?' {
            self.set_status(
                String::from_str("Press 1-3 for views, ↑↓ to navigate, Enter to select, q to quit"),
            );
            Action::Nothing
        } else {
            Action::Nothing
        }
    }

    fn esc_key_exec(&mut self)
        ensures
            final(self)@ == esc_key(old(self)@),
    {
        if self.current_view == View::Detail && self.viewing_log.is_some() {
            self.viewing_log = None;
            self.needs_clear = true;
            self.set_status(String::from_str("Closed log preview"));
        } else if self.input_mode == InputMode::AddingDirectory || self.input_mode
            == InputMode::EditingCommand {
            self.input_mode = InputMode::Normal;
            self.input_buffer = String::new();
            self.editing_workspace_index = None;
            self.set_status(String::from_str("Cancelled"));
        } else if self.current_view == View::Form && self.active_form.is_some() {
            self.active_form = None;
            self.current_view = View::ProjectBrowser;
            self.set_status(String::from_str("Form cancelled"));
        }
    }

    fn backspace_key_exec(&mut self) -> (r: Action)
        ensures
            final(self)@ == backspace_key(old(self)@).0,
            r@ == backspace_key(old(self)@).1,
    {
        if self.input_mode == InputMode::AddingDirectory || self.input_mode
            == InputMode::EditingCommand {
            pop_char(&mut self.input_buffer);
            if self.input_mode == InputMode::AddingDirectory {
                self.fuzzy_browsing = false;
                Action::UpdateFuzzyMatches
            } else {
                Action::Nothing
            }
        } else if self.current_view == View::Form {
            self.form_backspace();
            Action::Nothing
        } else {
            Action::Nothing
        }
    }

    fn tab_key_exec(&mut self) -> (r: Action)
        requires
            old(self).wf(),
        ensures
            final(self)@ == tab_key(old(self)@).0,
            r@ == tab_key(old(self)@).1,
    {
        if self.input_mode == InputMode::AddingDirectory {
            if self.fuzzy_browsing && self.fuzzy_matches.len() > 0 {
                let mut p = copy_string(&self.fuzzy_matches[self.fuzzy_selected]);
                assert(p@ == strs(self.fuzzy_matches@)[self.fuzzy_selected as int]);
                let cs = chars_of(p.as_str());
                if !(cs.len() > 0 && cs[cs.len() - 1] == '/') {
                    push_char(&mut p, '/');
                }
                let msg = cat("Selected: ", p.as_str());
                self.input_buffer = p;
                self.fuzzy_browsing = false;
                self.set_status(msg);
                Action::UpdateFuzzyMatches
            } else {
                Action::CompletePath(copy_string(&self.input_buffer))
            }
        } else if self.current_view == View::Form {
            match self.active_form.take() {
                Some(mut form) => {
                    form.next_field();
                    self.active_form = Some(form);
                },
                None => {},
            }
            Action::Nothing
        } else {
            Action::Nothing
        }
    }

    fn back_tab_exec(&mut self)
        ensures
            old(self)@.view == View::Form ==> final(self)@ == (AppView {
                form: form_prev_field(old(self)@.form),
                ..old(self)@
            }),
            old(self)@.view != View::Form ==> final(self)@ == old(self)@,
    {
        if self.current_view == View::Form {
            match self.active_form.take() {
                Some(mut form) => {
                    form.prev_field();
                    self.active_form = Some(form);
                },
                None => {},
            }
        }
    }

    fn up_key_exec(&mut self)
        requires
            !browsing_matches(old(self)@) && old(self)@.view == View::Form && has_current(
                old(self)@.form,
            ) ==> can_go_up(current_of(old(self)@.form)),
        ensures
            final(self)@ == up_key(old(self)@),
    {
        if self.input_mode == InputMode::AddingDirectory && self.fuzzy_matches.len() > 0 {
            self.fuzzy_browsing = true;
            if self.fuzzy_selected > 0 {
                self.fuzzy_selected = self.fuzzy_selected - 1;
            }
        } else if self.current_view == View::ProjectBrowser {
            if self.selected_project > 0 {
                self.selected_project = self.selected_project - 1;
                self.set_status(String::from_str("Selected previous project"));
            }
        } else if self.current_view == View::CommandPalette {
            if self.selected_command > 0 {
                self.selected_command = self.selected_command - 1;
                self.set_status(String::from_str("Selected previous command"));
            }
        } else if self.current_view == View::WorkspaceManager {
            if self.selected_workspace > 0 {
                self.selected_workspace = self.selected_workspace - 1;
            }
        } else if self.current_view == View::Detail {
            match self.viewing_log.take() {
                Some((p, off)) => {
                    self.viewing_log = Some((p, if off >= 1 { off - 1 } else { 0 }));
                },
                None => {
                    if self.selected_log > 0 {
                        self.selected_log = self.selected_log - 1;
                    }
                },
            }
        } else {
            self.form_up();
        }
    }

    fn down_key_exec(&mut self, logs: &Vec<LogFile>)
        requires
            !browsing_matches(old(self)@) && old(self)@.view == View::Form && has_current(
                old(self)@.form,
            ) ==> can_go_down(current_of(old(self)@.form)),
        ensures
            final(self)@ == down_key(old(self)@, logs_view(logs@)),
    {
        if self.input_mode == InputMode::AddingDirectory && self.fuzzy_matches.len() > 0 {
            self.fuzzy_browsing = true;
            if self.fuzzy_selected < self.fuzzy_matches.len() - 1 {
                self.fuzzy_selected = self.fuzzy_selected + 1;
            }
        } else if self.current_view == View::ProjectBrowser {
            if self.projects.len() > 0 && self.selected_project < self.projects.len() - 1 {
                let i = self.selected_project + 1;
                self.selected_project = i;
                let msg = cat("Selected: ", self.projects[i].name.as_str());
                self.set_status(msg);
            }
        } else if self.current_view == View::CommandPalette {
            if self.commands.len() > 0 && self.selected_command < self.commands.len() - 1 {
                let i = self.selected_command + 1;
                self.selected_command = i;
                assert(commands_view(self.commands@)[i as int] == self.commands@[i as int]@);
                let msg = cat("Selected: ", self.commands[i].name.as_str());
                self.set_status(msg);
            }
        } else if self.current_view == View::WorkspaceManager {
            if self.workspace_directories.len() > 0 && self.selected_workspace
                < self.workspace_directories.len() - 1 {
                self.selected_workspace = self.selected_workspace + 1;
            }
        } else if self.current_view == View::Detail {
            match self.viewing_log.take() {
                Some((p, off)) => {
                    self.viewing_log = Some((p, if off < usize::MAX { off + 1 } else { usize::MAX }));
                },
                None => {
                    if self.selected_project < self.projects.len() && logs.len() > 0
                        && self.selected_log < logs.len() - 1 {
                        self.selected_log = self.selected_log + 1;
                    }
                },
            }
        } else {
            self.form_down();
        }
    }

    fn page_key_exec(&mut self, down: bool)
        ensures
            final(self)@ == page_key(old(self)@, down),
    {
        if self.current_view == View::Detail {
            match self.viewing_log.take() {
                Some((p, off)) => {
                    let n = if down {
                        if off <= usize::MAX - 10 { off + 10 } else { usize::MAX }
                    } else {
                        if off >= 10 { off - 10 } else { 0 }
                    };
                    self.viewing_log = Some((p, n));
                },
                None => {},
            }
        }
    }

    fn filter_key_exec(&mut self, right: bool) -> (r: Action)
        ensures
            final(self)@ == filter_key(old(self)@, right).0,
            r@ == filter_key(old(self)@, right).1,
    {
        if self.current_view == View::CommandPalette && self.input_mode == InputMode::Normal {
            let f = if right {
                self.command_filter.next()
            } else {
                self.command_filter.prev()
            };
            self.command_filter = f;
            self.set_status(cat("Filter: ", f.as_str()));
            Action::UpdateCommands
        } else {
            Action::Nothing
        }
    }

    fn enter_key_exec(&mut self) -> (r: Action)
        ensures
            final(self)@ == enter_key(old(self)@).0,
            r@ == enter_key(old(self)@).1,
    {
        if self.current_view == View::ProjectBrowser {
            if self.selected_project < self.projects.len() {
                let msg = cat3("Opening ", self.projects[self.selected_project].name.as_str(), "...");
                self.set_status(msg);
                self.current_view = View::Detail;
            }
            Action::Nothing
        } else if self.current_view == View::CommandPalette {
            if self.input_mode == InputMode::EditingCommand {
                let t = trim_chars(&chars_of(self.input_buffer.as_str()));
                if t.len() > 0 {
                    self.input_mode = InputMode::Normal;
                    self.input_buffer = String::new();
                    Action::Execute(string_from_chars(&t))
                } else {
                    Action::Nothing
                }
            } else if self.selected_command < self.commands.len() {
                let i = self.selected_command;
                assert(commands_view(self.commands@)[i as int] == self.commands@[i as int]@);
                let cmd = copy_string(&self.commands[i].command);
                let target = self.get_target_workspace();
                let msg = cat3("Edit command (working dir: ", target.as_str(), ") then press Enter to execute");
                self.input_mode = InputMode::EditingCommand;
                self.input_buffer = cmd;
                self.set_status(msg);
                Action::Nothing
            } else {
                Action::Nothing
            }
        } else if self.current_view == View::WorkspaceManager {
            if self.input_mode == InputMode::AddingDirectory {
                let t = string_from_chars(&trim_chars(&chars_of(self.input_buffer.as_str())));
                let p = trim_trailing_slashes(t.as_str());
                if !p.as_str().is_empty() {
                    let action = match self.editing_workspace_index {
                        Some(i) => if i < self.workspace_directories.len() {
                            Action::EditWorkspace(copy_string(&self.workspace_directories[i].path), p)
                        } else {
                            Action::Nothing
                        },
                        None => Action::AddWorkspace(p),
                    };
                    self.input_mode = InputMode::Normal;
                    self.input_buffer = String::new();
                    self.editing_workspace_index = None;
                    action
                } else {
                    Action::Nothing
                }
            } else {
                Action::Nothing
            }
        } else if self.current_view == View::Form {
            match self.active_form.take() {
                Some(mut form) => {
                    let ghost before = form;
                    match form.submit() {
                        Ok(_) => {
                            self.set_status(String::from_str("Form submitted"));
                            self.current_view = View::ProjectBrowser;
                        },
                        Err(e) => {
                            self.active_form = Some(form);
                            let msg = cat("Validation error: ", e.message().as_str());
                            self.set_status(msg);
                        },
                    }
                },
                None => {},
            }
            Action::Nothing
        } else {
            Action::Nothing
        }
    }

    /// Act on a key: change the state as the key asks and return the outside
    /// work to do. `logs` are the recent command logs of the selected project
    /// (read only when the detail view is shown; empty otherwise).
    pub fn handle_key(&mut self, key: Key, logs: &Vec<LogFile>) -> (r: Action)
        requires
            old(self).wf(),
            key_allowed(old(self)@, key),
        ensures
            final(self).wf(),
            final(self)@ == key_step(old(self)@, logs_view(logs@), key).0,
            r@ == key_step(old(self)@, logs_view(logs@), key).1,
    {
        match key {
            Key::Char(c) => self.char_key_exec(logs, c),
            Key::Esc => {
                self.esc_key_exec();
                Action::Nothing
            },
            Key::Backspace => self.backspace_key_exec(),
            Key::Tab => self.tab_key_exec(),
            Key::BackTab => {
                self.back_tab_exec();
                Action::Nothing
            },
            Key::Up => {
                self.up_key_exec();
                Action::Nothing
            },
            Key::Down => {
                self.down_key_exec(logs);
                Action::Nothing
            },
            Key::PageUp => {
                self.page_key_exec(false);
                Action::Nothing
            },
            Key::PageDown => {
                self.page_key_exec(true);
                Action::Nothing
            },
            Key::Left => self.filter_key_exec(false),
            Key::Right => self.filter_key_exec(true),
            Key::Enter => self.enter_key_exec(),
            Key::Other => Action::Nothing,
        }
    }

    fn form_char(&mut self, c: char)
        ensures
            final(self)@ == (AppView { form: form_after_char(old(self)@.form, c), ..old(self)@ }),
    {
        match self.active_form.take() {
            Some(mut form) => {
                let ghost before = form;
                match form.current_field_mut() {
                    Some(f) => f.handle_char(c),
                    None => {},
                }
                proof {
                    if before.current_field < before.fields@.len() {
                        assert(fields_view(form.fields@) =~= fields_view(before.fields@).update(
                            before.current_field as int,
                            form.fields@[before.current_field as int]@,
                        ));
                    }
                }
                self.active_form = Some(form);
            },
            None => {},
        }
    }

    fn form_backspace(&mut self)
        ensures
            final(self)@ == (AppView { form: form_after_backspace(old(self)@.form), ..old(self)@ }),
    {
        match self.active_form.take() {
            Some(mut form) => {
                let ghost before = form;
                match form.current_field_mut() {
                    Some(f) => f.handle_backspace(),
                    None => {},
                }
                proof {
                    if before.current_field < before.fields@.len() {
                        assert(fields_view(form.fields@) =~= fields_view(before.fields@).update(
                            before.current_field as int,
                            form.fields@[before.current_field as int]@,
                        ));
                    }
                }
                self.active_form = Some(form);
            },
            None => {},
        }
    }

    fn form_space(&mut self)
        ensures
            final(self)@ == (AppView { form: form_after_space(old(self)@.form), ..old(self)@ }),
    {
        match self.active_form.take() {
            Some(mut form) => {
                let ghost before = form;
                match form.current_field_mut() {
                    Some(f) => f.handle_space(),
                    None => {},
                }
                proof {
                    if before.current_field < before.fields@.len() {
                        assert(fields_view(form.fields@) =~= fields_view(before.fields@).update(
                            before.current_field as int,
                            form.fields@[before.current_field as int]@,
                        ));
                    }
                }
                self.active_form = Some(form);
            },
            None => {},
        }
    }

    fn form_up(&mut self)
        requires
            has_current(old(self)@.form) ==> can_go_up(current_of(old(self)@.form)),
        ensures
            final(self)@ == (AppView { form: form_after_up(old(self)@.form), ..old(self)@ }),
    {
        match self.active_form.take() {
            Some(mut form) => {
                let ghost before = form;
                match form.current_field_mut() {
                    Some(f) => f.handle_up(),
                    None => {},
                }
                proof {
                    if before.current_field < before.fields@.len() {
                        assert(fields_view(form.fields@) =~= fields_view(before.fields@).update(
                            before.current_field as int,
                            form.fields@[before.current_field as int]@,
                        ));
                    }
                }
                self.active_form = Some(form);
            },
            None => {},
        }
    }

    fn form_down(&mut self)
        requires
            has_current(old(self)@.form) ==> can_go_down(current_of(old(self)@.form)),
        ensures
            final(self)@ == (AppView { form: form_after_down(old(self)@.form), ..old(self)@ }),
    {
        match self.active_form.take() {
            Some(mut form) => {
                let ghost before = form;
                match form.current_field_mut() {
                    Some(f) => f.handle_down(),
                    None => {},
                }
                proof {
                    if before.current_field < before.fields@.len() {
                        assert(fields_view(form.fields@) =~= fields_view(before.fields@).update(
                            before.current_field as int,
                            form.fields@[before.current_field as int]@,
                        ));
                    }
                }
                self.active_form = Some(form);
            },
            None => {},
        }
    }
}

} // verus!
