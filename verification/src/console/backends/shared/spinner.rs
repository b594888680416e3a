//! A spinner: a character that changes with time to show that work is under way.

use vstd::prelude::*;

verus! {

/// The look of a spinner.
#[derive(Clone, Copy, Debug, PartialEq, Eq, Structural)]
pub enum SpinnerStyle {
    /// Eight braille patterns with one dot missing, the gap moving round.
    Pixel,
    /// A square with one quadrant marked, the mark moving round.
    Square,
}

/// The time in milliseconds that a spinner shows each of its frames for, unless told
/// otherwise.
pub const DEFAULT_SPINNER_INTERVAL_MILLISECONDS: u64 = 100;

/// The number of frames of a style.
pub open spec fn frame_count(style: SpinnerStyle) -> nat {
    match style {
        SpinnerStyle::Pixel => 8,
        SpinnerStyle::Square => 4,
    }
}

/// The frame of a style at the given position, counted from zero.
pub open spec fn frame(style: SpinnerStyle, position: nat) -> char {
    match style {
        SpinnerStyle::Pixel => if position == 0 {
            '\u{28fe}'
        } else if position == 1 {
            '\u{28fd}'
        } else if position == 2 {
            '\u{28fb}'
        } else if position == 3 {
            '\u{28bf}'
        } else if position == 4 {
            '\u{287f}'
        } else if position == 5 {
            '\u{28df}'
        } else if position == 6 {
            '\u{28ef}'
        } else {
            '\u{28f7}'
        },
        SpinnerStyle::Square => if position == 0 {
            '\u{25f0}'
        } else if position == 1 {
            '\u{25f3}'
        } else if position == 2 {
            '\u{25f2}'
        } else {
            '\u{25f1}'
        },
    }
}

/// The frame that a spinner shows once `elapsed` milliseconds have passed, when each
/// frame is shown for `interval` milliseconds and the frames repeat.
pub open spec fn phase_at(style: SpinnerStyle, interval: nat, elapsed: nat) -> char {
    frame(style, (elapsed / interval) % frame_count(style))
}

/// A spinner of some style and speed, and the time that it has been running for.
#[derive(Clone, Copy, Debug, PartialEq, Eq, Structural)]
pub struct AnimatedSpinner {
    style: SpinnerStyle,
    interval_milliseconds: u64,
    elapsed_milliseconds: u64,
}

/// The mathematical value of an [`AnimatedSpinner`].
pub ghost struct AnimatedSpinnerView {
    pub style: SpinnerStyle,
    /// The time in milliseconds that each frame is shown for; never zero.
    pub interval: nat,
    /// The time in milliseconds that the spinner has been running for.
    pub elapsed: nat,
}

impl View for AnimatedSpinner {
    type V = AnimatedSpinnerView;

    closed spec fn view(&self) -> AnimatedSpinnerView {
        AnimatedSpinnerView {
            style: self.style,
            interval: if self.interval_milliseconds == 0 {
                DEFAULT_SPINNER_INTERVAL_MILLISECONDS as nat
            } else {
                self.interval_milliseconds as nat
            },
            elapsed: self.elapsed_milliseconds as nat,
        }
    }
}

impl AnimatedSpinner {
    /// A spinner that has just been started. `speed` is the time in milliseconds that
    /// each frame is shown for; without one, or with zero, the default applies.
    pub fn new(style: SpinnerStyle, speed: Option<u64>) -> (spinner: AnimatedSpinner)
        ensures
            spinner@ == (AnimatedSpinnerView {
                style,
                interval: match speed {
                    Some(interval) if interval > 0 => interval as nat,
                    _ => DEFAULT_SPINNER_INTERVAL_MILLISECONDS as nat,
                },
                elapsed: 0,
            }),
    {
        let interval_milliseconds = match speed {
            Some(interval) => if interval > 0 {
                interval
            } else {
                DEFAULT_SPINNER_INTERVAL_MILLISECONDS
            },
            None => DEFAULT_SPINNER_INTERVAL_MILLISECONDS,
        };
        AnimatedSpinner { style, interval_milliseconds, elapsed_milliseconds: 0 }
    }

    /// Tells the spinner how long it has been running for.
    pub fn set_elapsed(&mut self, elapsed_milliseconds: u64)
        ensures
            final(self)@ == (AnimatedSpinnerView {
                elapsed: elapsed_milliseconds as nat,
                ..old(self)@
            }),
    {
        self.elapsed_milliseconds = elapsed_milliseconds;
    }

    /// The frame that the spinner shows now.
    pub fn get_current_phase(&self) -> (phase: char)
        ensures
            phase == phase_at(self@.style, self@.interval, self@.elapsed),
    {
        let interval = if self.interval_milliseconds == 0 {
            DEFAULT_SPINNER_INTERVAL_MILLISECONDS
        } else {
            self.interval_milliseconds
        };
        let ticks = self.elapsed_milliseconds / interval;
        match self.style {
            SpinnerStyle::Pixel => {
                let position = ticks % 8;
                if position == 0 {
                    '\u{28fe}'
                } else if position == 1 {
                    '\u{28fd}'
                } else if position == 2 {
                    '\u{28fb}'
                } else if position == 3 {
                    '\u{28bf}'
                } else if position == 4 {
                    '\u{287f}'
                } else if position == 5 {
                    '\u{28df}'
                } else if position == 6 {
                    '\u{28ef}'
                } else {
                    '\u{28f7}'
                }
            },
            SpinnerStyle::Square => {
                let position = ticks % 4;
                if position == 0 {
                    '\u{25f0}'
                } else if position == 1 {
                    '\u{25f3}'
                } else if position == 2 {
                    '\u{25f2}'
                } else {
                    '\u{25f1}'
                }
            },
        }
    }
}

} // verus!
