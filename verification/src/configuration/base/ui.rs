//! Options of the user interface.

use vstd::prelude::*;

use crate::configuration::traits::Resolve;

verus! {

/// The interface options as configured.
#[derive(Clone, Copy, Debug, PartialEq, Eq)]
pub struct UnresolvedUiConfiguration {
    pub transcoding: UnresolvedTranscodingUiConfiguration,
}

/// The interface options.
#[derive(Clone, Copy, Debug, PartialEq, Eq, Structural)]
pub struct UiConfiguration {
    pub transcoding: TranscodingUiConfiguration,
}

impl Resolve for UnresolvedUiConfiguration {
    type Resolved = UiConfiguration;

    fn resolve(self) -> (resolved: UiConfiguration)
        ensures
            resolved.transcoding.show_logs_tab_on_exit == self.transcoding.show_logs_tab_on_exit,
    {
        UiConfiguration { transcoding: self.transcoding.resolve() }
    }
}

/// The options of the transcoding interface as configured.
#[derive(Clone, Copy, Debug, PartialEq, Eq)]
pub struct UnresolvedTranscodingUiConfiguration {
    pub show_logs_tab_on_exit: bool,
}

/// The options of the transcoding interface.
#[derive(Clone, Copy, Debug, PartialEq, Eq, Structural)]
pub struct TranscodingUiConfiguration {
    pub show_logs_tab_on_exit: bool,
}

impl Resolve for UnresolvedTranscodingUiConfiguration {
    type Resolved = TranscodingUiConfiguration;

    fn resolve(self) -> (resolved: TranscodingUiConfiguration)
        ensures
            resolved.show_logs_tab_on_exit == self.show_logs_tab_on_exit,
    {
        TranscodingUiConfiguration { show_logs_tab_on_exit: self.show_logs_tab_on_exit }
    }
}

} // verus!
