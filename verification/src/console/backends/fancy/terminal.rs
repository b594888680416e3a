//! What a render pass and the render loop of the terminal interface decide: how the
//! screen is divided, how long to wait for a key, and what a key means.

use ratatui::text::Text;
use vstd::prelude::*;

use super::text::{ansi_text_contents, text_contents, text_of_ansi};
use crate::console::state::{visible_lines, TerminalUIState};
use crate::text::texts_of;

verus! {

/// The time in microseconds from one frame to the next.
pub const TERMINAL_REFRESH_RATE_MICROSECONDS: u64 = 50_000;

/// The time in microseconds below which the render loop no longer waits for a key.
pub const MINIMUM_WAIT_MICROSECONDS: u64 = 10;

/// What the user asks of a run.
#[derive(Clone, Copy, Debug, PartialEq, Eq, Structural)]
pub enum UserControlMessage {
    /// Stop once the current batch is over.
    Exit,
}

/// The height or width that a part of the screen gets.
#[derive(Clone, Copy, Debug, PartialEq, Eq, Structural)]
pub enum LayoutConstraint {
    /// A share of what is there, in percent.
    Percentage(u16),
    /// A fixed number of rows or columns.
    Length(u16),
    /// At least a number of rows or columns.
    Min(u16),
}

/// How the screen is divided from top to bottom into the queues, the progress bar and
/// the logs. A part that is disabled gets no room.
pub open spec fn layout_of(queue_enabled: bool, progress_enabled: bool) -> Seq<LayoutConstraint> {
    seq![
        if queue_enabled {
            LayoutConstraint::Percentage(65)
        } else {
            LayoutConstraint::Length(0)
        },
        if progress_enabled {
            LayoutConstraint::Length(3)
        } else {
            LayoutConstraint::Length(0)
        },
        LayoutConstraint::Min(8),
    ]
}

/// How the screen is divided from top to bottom for the given state: the queues get
/// 65 percent while they are enabled, the progress bar three rows while it is, and
/// the logs the rest, at least eight rows.
pub fn layout_constraints(state: &TerminalUIState) -> (constraints: Vec<LayoutConstraint>)
    ensures
        constraints@ == layout_of(state@.queue is Some, state@.progress is Some),
{
    let mut constraints: Vec<LayoutConstraint> = Vec::new();
    constraints.push(
        if state.queue_state().is_some() {
            LayoutConstraint::Percentage(65)
        } else {
            LayoutConstraint::Length(0)
        },
    );
    constraints.push(
        if state.progress().is_some() {
            LayoutConstraint::Length(3)
        } else {
            LayoutConstraint::Length(0)
        },
    );
    constraints.push(LayoutConstraint::Min(8));
    constraints
}

/// The height of the drawing area: that of the frame, changed by `offset` rows where
/// one is given. The changed height must not be negative; one above what sixteen bits
/// hold wraps round.
pub fn adjusted_frame_height(frame_height: u16, offset: Option<isize>) -> (height: u16)
    requires
        offset matches Some(rows) ==> frame_height + rows >= 0,
    ensures
        height == (match offset {
            Some(rows) => (frame_height + rows) % 0x1_0000,
            None => frame_height as int,
        }),
{
    match offset {
        Some(rows) => {
            let adjusted: i128 = frame_height as i128 + rows as i128;
            (adjusted % 0x1_0000) as u16
        },
        None => frame_height,
    }
}

/// How long the render loop may still wait for a key before the next frame is due,
/// in microseconds, when `elapsed` microseconds of the current tick are used up.
/// There is no waiting left once less than ten microseconds remain.
pub open spec fn wait_of(elapsed: nat) -> Option<nat> {
    if elapsed + MINIMUM_WAIT_MICROSECONDS > TERMINAL_REFRESH_RATE_MICROSECONDS {
        None
    } else {
        Some((TERMINAL_REFRESH_RATE_MICROSECONDS - elapsed) as nat)
    }
}

/// How long the render loop may still wait for a key before the next frame is due.
pub fn remaining_tick_time(elapsed_microseconds: u64) -> (wait: Option<u64>)
    ensures
        match wait {
            Some(microseconds) => wait_of(elapsed_microseconds as nat) == Some(
                microseconds as nat,
            ),
            None => wait_of(elapsed_microseconds as nat) is None,
        },
{
    if elapsed_microseconds >= TERMINAL_REFRESH_RATE_MICROSECONDS {
        return None;
    }
    let remaining = TERMINAL_REFRESH_RATE_MICROSECONDS - elapsed_microseconds;
    if remaining < MINIMUM_WAIT_MICROSECONDS {
        None
    } else {
        Some(remaining)
    }
}

/// What pressing the key of the character `key` asks for: `q` asks to stop, any other
/// key nothing.
pub fn user_control_for_key(key: char) -> (message: Option<UserControlMessage>)
    ensures
        message == (if key == 'q' {
            Some(UserControlMessage::Exit)
        } else {
            None
        }),
{
    if key == 'q' {
        Some(UserControlMessage::Exit)
    } else {
        None
    }
}

/// A log line that cannot be drawn: its ANSI escape sequences cannot be read.
#[derive(Clone, Copy, Debug, PartialEq, Eq, Structural)]
pub struct UnreadableLogLine {
    /// The position of the line among the visible ones.
    pub index: usize,
}

/// Whether `texts` are the texts of the log lines `lines`, each with its ANSI escape
/// sequences taken for styles.
pub open spec fn are_texts_of(texts: Seq<Text<'static>>, lines: Seq<Seq<char>>) -> bool {
    &&& texts.len() == lines.len()
    &&& forall|i: int|
        0 <= i < lines.len() ==> ansi_text_contents(#[trigger] lines[i]) == Some(
            text_contents(texts[i]),
        )
}

/// The texts to draw in a log area of `area_height` rows, two of which are its
/// borders: one for each visible journal line, the oldest first. Fails with the first
/// line that cannot be read.
pub fn render_log_lines(state: &TerminalUIState, area_height: u16) -> (result: Result<
    Vec<Text<'static>>,
    UnreadableLogLine,
>)
    requires
        area_height >= 2,
    ensures
        match result {
            Ok(texts) => are_texts_of(
                texts@,
                visible_lines(state@.log_journal, area_height as nat),
            ),
            Err(unreadable) => {
                let lines = visible_lines(state@.log_journal, area_height as nat);
                &&& unreadable.index < lines.len()
                &&& ansi_text_contents(lines[unreadable.index as int]) is None
                &&& forall|i: int|
                    0 <= i < unreadable.index ==> ansi_text_contents(#[trigger] lines[i]) is Some
            },
        },
{
    let lines = state.visible_log_lines(area_height);
    let ghost wanted = visible_lines(state@.log_journal, area_height as nat);
    let mut texts: Vec<Text<'static>> = Vec::new();
    let mut i: usize = 0;
    while i < lines.len()
        invariant
            i <= lines.len(),
            texts_of(lines@) == wanted,
            wanted == visible_lines(state@.log_journal, area_height as nat),
            are_texts_of(texts@, wanted.take(i as int)),
        decreases lines.len() - i,
    {
        match text_of_ansi(lines[i].as_str()) {
            Ok(text) => {
                texts.push(text);
            },
            Err(_) => {
                assert forall|k: int| 0 <= k < i implies ansi_text_contents(
                    #[trigger] wanted[k],
                ) is Some by {
                    assert(wanted[k] == wanted.take(i as int)[k]);
                }
                return Err(UnreadableLogLine { index: i });
            },
        }
        i += 1;
    }
    assert(wanted.take(i as int) =~= wanted);
    Ok(texts)
}

} // verus!
