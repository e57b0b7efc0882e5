//! The pacing of the interface's loop: what one turn does, given what the
//! clocks read, and which key opens the fuzzy picker.
use vstd::prelude::*;

use super::{InputMode, Key};

verus! {

/// How long a finished command's result stays on screen, in milliseconds.
pub const RESULT_SHOWN_MS: u64 = 3000;

/// How long the progress bar runs at least, in milliseconds.
pub const MIN_RUNNING_MS: u64 = 500;

/// The least time between two reloads that file changes cause, in milliseconds.
pub const RELOAD_GAP_MS: u64 = 1000;

/// What one turn of the loop does.
#[derive(Clone, Copy, Debug, PartialEq, Eq, Structural)]
pub struct Tick {
    /// Move the progress bar's scanner on.
    pub advance_frame: bool,
    /// Take the finished command's result off the screen.
    pub hide_result: bool,
    /// Hand the waiting result of a command to the interface.
    pub deliver_result: bool,
    /// Reload everything from disk.
    pub reload: bool,
}

/// One turn: the scanner moves while a command runs; a result leaves the
/// screen once shown for three seconds; a command's result is taken in once
/// the bar has run half a second (at once where it never started); a file
/// change reloads unless the last reload was less than a second ago.
pub open spec fn tick_of(
    executing: bool,
    result_shown_ms: Option<u64>,
    result_waiting: bool,
    running_ms: Option<u64>,
    file_changed: bool,
    since_reload_ms: u64,
) -> Tick {
    Tick {
        advance_frame: executing,
        hide_result: result_shown_ms matches Some(ms) && ms >= RESULT_SHOWN_MS,
        deliver_result: result_waiting && match running_ms {
            Some(ms) => ms >= MIN_RUNNING_MS,
            None => true,
        },
        reload: file_changed && since_reload_ms >= RELOAD_GAP_MS,
    }
}

pub fn tick(
    executing: bool,
    result_shown_ms: Option<u64>,
    result_waiting: bool,
    running_ms: Option<u64>,
    file_changed: bool,
    since_reload_ms: u64,
) -> (r: Tick)
    ensures
        r == tick_of(
            executing,
            result_shown_ms,
            result_waiting,
            running_ms,
            file_changed,
            since_reload_ms,
        ),
{
    let hide_result = match result_shown_ms {
        Some(ms) => ms >= RESULT_SHOWN_MS,
        None => false,
    };
    let deliver_result = result_waiting && match running_ms {
        Some(ms) => ms >= MIN_RUNNING_MS,
        None => true,
    };
    Tick {
        advance_frame: executing,
        hide_result,
        deliver_result,
        reload: file_changed && since_reload_ms >= RELOAD_GAP_MS,
    }
}

/// Ctrl+D while a directory path is typed opens the fuzzy picker; every
/// other key goes to the key handler.
pub fn opens_picker(mode: InputMode, key: Key, control: bool) -> (r: bool)
    ensures
        r == (mode == InputMode::AddingDirectory && key == Key::Char('d') && control),
{
    mode == InputMode::AddingDirectory && key == Key::Char('d') && control
}

} // verus!
