//! The coarse progress indicator that accompanies the three queues.

use vstd::prelude::*;

verus! {

/// How far along a run is: `current` out of `total` units of work.
#[derive(Clone, Copy, Debug, PartialEq, Eq, Structural)]
pub struct ProgressState {
    pub current: usize,
    pub total: usize,
}

/// The share of `total` that `current` makes up, in whole percent, rounded down and
/// never above 100. Without any work to do the share is zero.
pub open spec fn percent_of(current: nat, total: nat) -> nat {
    if total == 0 {
        0
    } else if current >= total {
        100
    } else {
        current * 100 / total
    }
}

impl ProgressState {
    /// Progress of a run that has not been sized yet: nothing done, nothing to do.
    pub fn new() -> (state: Self)
        ensures
            state == (ProgressState { current: 0, total: 0 }),
    {
        ProgressState { current: 0, total: 0 }
    }

    /// The progress in whole percent, between 0 and 100.
    pub fn get_percent(&self) -> (percent: u16)
        ensures
            percent == percent_of(self.current as nat, self.total as nat),
            percent <= 100,
    {
        if self.total == 0 {
            0
        } else if self.current >= self.total {
            100
        } else {
            let scaled: u128 = self.current as u128 * 100;
            let share: u128 = scaled / (self.total as u128);
            assert(share < 100) by (nonlinear_arith)
                requires
                    share == scaled / (self.total as u128),
                    scaled == self.current * 100,
                    self.current < self.total,
                    self.total > 0,
            ;
            share as u16
        }
    }
}

impl Default for ProgressState {
    fn default() -> (state: Self)
        ensures
            state == (ProgressState { current: 0, total: 0 }),
    {
        ProgressState::new()
    }
}

/// What a progress bar shows after its header: a message, the time that has passed,
/// the position out of the length, and the bar itself.
pub const PROGRESS_BAR_TEMPLATE: &'static str =
    "{msg:^42!} [{elapsed_precise} | {pos:>3}/{len:3}] [{bar:45.cyan/blue}]";

/// The template of a progress bar whose line begins with `header`.
pub fn build_progress_bar_template_with_header(header: &str) -> (template: String)
    ensures
        template@ == header@ + PROGRESS_BAR_TEMPLATE@,
{
    let mut template = header.to_owned();
    template.append(PROGRESS_BAR_TEMPLATE);
    template
}

} // verus!
