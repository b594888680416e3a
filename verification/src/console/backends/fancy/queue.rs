//! The queue items of the terminal interface: an album or a file, with a spinner
//! while it is being worked on.

use ratatui::text::Text;
use vstd::prelude::*;

use super::text::{single_line_text, text_contents};
use crate::console::backends::shared::queue_v2::{
    AlbumItem, AlbumItemFinishedResult, FileItem, FileItemFinishedResult, FileItemType, QueueItem,
    QueueItemGenericState, RenderableQueueItem,
};
use crate::console::backends::shared::spinner::{
    phase_at, AnimatedSpinner, AnimatedSpinnerView, SpinnerStyle,
    DEFAULT_SPINNER_INTERVAL_MILLISECONDS,
};
use crate::console::queue::QueueItemID;
use crate::text::{decimal_of, push_char, texts_of, to_decimal};

verus! {

/// What precedes an item on its line: the current frame of its spinner between two
/// spaces; without a spinner two spaces, or nothing where no padding is asked for.
pub open spec fn prefix_of(spinner: Option<AnimatedSpinner>, pad: bool) -> Seq<char> {
    match spinner {
        Some(spinner) => seq![
            ' ',
            phase_at(spinner@.style, spinner@.interval, spinner@.elapsed),
            ' ',
        ],
        None => if pad {
            seq![' ', ' ']
        } else {
            Seq::empty()
        },
    }
}

/// What precedes an item on its line.
fn render_prefix(spinner: &Option<AnimatedSpinner>, pad: bool) -> (prefix: String)
    ensures
        prefix@ == prefix_of(*spinner, pad),
{
    let mut prefix = String::new();
    match spinner {
        Some(spinner) => {
            push_char(&mut prefix, ' ');
            push_char(&mut prefix, spinner.get_current_phase());
            push_char(&mut prefix, ' ');
        },
        None => {
            if pad {
                push_char(&mut prefix, ' ');
                push_char(&mut prefix, ' ');
            }
        },
    }
    prefix
}

/// The spinner that is set by enabling one of the given style and speed.
pub open spec fn fresh_spinner(style: SpinnerStyle, speed: Option<u64>) -> AnimatedSpinnerView {
    AnimatedSpinnerView {
        style,
        interval: match speed {
            Some(interval) if interval > 0 => interval as nat,
            _ => DEFAULT_SPINNER_INTERVAL_MILLISECONDS as nat,
        },
        elapsed: 0,
    }
}

/// An album in the queue of the terminal interface.
#[derive(Debug, PartialEq, Eq)]
pub struct FancyAlbumQueueItem {
    pub item: AlbumItem,
    pub spinner: Option<AnimatedSpinner>,
    pub pad_leading_space_when_spinner_is_disabled: bool,
}

/// The label of an album: its artist and its title.
pub open spec fn album_label(artist_name: Seq<char>, album_title: Seq<char>) -> Seq<char> {
    artist_name + " - "@ + album_title
}

impl FancyAlbumQueueItem {
    /// The item for `queue_item`, without a spinner and with padding in its place.
    pub fn new(queue_item: AlbumItem) -> (item: Self)
        ensures
            item.item == queue_item,
            item.spinner is None,
            item.pad_leading_space_when_spinner_is_disabled,
    {
        Self { item: queue_item, spinner: None, pad_leading_space_when_spinner_is_disabled: true }
    }

    /// Gives the item a spinner that starts now. `speed` is the time in milliseconds
    /// that each frame is shown for.
    pub fn enable_spinner(&mut self, style: SpinnerStyle, speed: Option<u64>)
        ensures
            final(self).spinner matches Some(spinner) && spinner@ == fresh_spinner(style, speed),
            final(self).item == old(self).item,
            final(self).pad_leading_space_when_spinner_is_disabled == old(
                self,
            ).pad_leading_space_when_spinner_is_disabled,
    {
        self.spinner = Some(AnimatedSpinner::new(style, speed));
    }

    /// Takes the spinner away.
    pub fn disable_spinner(&mut self)
        ensures
            final(self).spinner is None,
            final(self).item == old(self).item,
            final(self).pad_leading_space_when_spinner_is_disabled == old(
                self,
            ).pad_leading_space_when_spinner_is_disabled,
    {
        self.spinner = None;
    }

    /// The spans of the item's line: the prefix, the number of changed files, and
    /// the label.
    pub open spec fn spans(&self) -> Seq<Seq<char>> {
        seq![
            prefix_of(self.spinner, self.pad_leading_space_when_spinner_is_disabled),
            decimal_of(self.item.num_changed_files as nat),
            album_label(self.item.artist_name@, self.item.album_title@),
        ]
    }

    /// The contents of the spans of the item's line.
    pub fn render_spans(&self) -> (spans: Vec<String>)
        ensures
            texts_of(spans@) == self.spans(),
    {
        let prefix = render_prefix(&self.spinner, self.pad_leading_space_when_spinner_is_disabled);
        let mut label = self.item.artist_name.clone();
        label.append(" - ");
        label.append(self.item.album_title.as_str());
        let mut spans: Vec<String> = Vec::new();
        spans.push(prefix);
        spans.push(to_decimal(self.item.num_changed_files as u64));
        spans.push(label);
        spans
    }
}

impl QueueItem<AlbumItemFinishedResult> for FancyAlbumQueueItem {
    fn get_id(&self) -> (id: QueueItemID)
        ensures
            id == self.item.id,
    {
        self.item.get_id()
    }

    fn get_state(&self) -> (state: QueueItemGenericState)
        ensures
            state == self.item.state,
    {
        self.item.get_state()
    }

    fn on_item_enqueued(&mut self)
        ensures
            final(self).item == (AlbumItem {
                state: QueueItemGenericState::Pending,
                result: None,
                ..old(self).item
            }),
            final(self).spinner == old(self).spinner,
    {
        self.item.on_item_enqueued();
    }

    /// Starting an album gives it a pixel spinner.
    fn on_item_started(&mut self)
        ensures
            final(self).item == (AlbumItem {
                state: QueueItemGenericState::InProgress,
                ..old(self).item
            }),
            final(self).spinner matches Some(spinner) && spinner@ == fresh_spinner(
                SpinnerStyle::Pixel,
                None,
            ),
    {
        self.item.on_item_started();
        self.enable_spinner(SpinnerStyle::Pixel, None);
    }

    /// Finishing an album takes its spinner away.
    fn on_item_finished(&mut self, result: AlbumItemFinishedResult)
        ensures
            final(self).item == (AlbumItem {
                state: QueueItemGenericState::Finished,
                result: Some(result),
                ..old(self).item
            }),
            final(self).spinner is None,
    {
        self.item.on_item_finished(result);
        self.disable_spinner();
    }
}

impl RenderableQueueItem<Text<'static>> for FancyAlbumQueueItem {
    /// One line: the prefix, the number of changed files, and the label.
    fn render(&self) -> (text: Text<'static>)
        ensures
            text_contents(text) == seq![self.spans()],
    {
        single_line_text(self.render_spans())
    }
}

/// A file in the queue of the terminal interface.
#[derive(Debug, PartialEq, Eq)]
pub struct FancyFileQueueItem {
    pub item: FileItem,
    pub spinner: Option<AnimatedSpinner>,
    pub pad_leading_space_when_spinner_is_disabled: bool,
}

/// The tag that shows the kind of a file, seven characters wide.
pub open spec fn file_type_tag(file_type: FileItemType) -> Seq<char> {
    match file_type {
        FileItemType::Audio => "[audio]"@,
        FileItemType::Data => " [data]"@,
        FileItemType::Unknown => "   [??]"@,
    }
}

impl FancyFileQueueItem {
    /// The item for `queue_item`, without a spinner and with padding in its place.
    pub fn new(queue_item: FileItem) -> (item: Self)
        ensures
            item.item == queue_item,
            item.spinner is None,
            item.pad_leading_space_when_spinner_is_disabled,
    {
        Self { item: queue_item, spinner: None, pad_leading_space_when_spinner_is_disabled: true }
    }

    /// Gives the item a spinner that starts now. `speed` is the time in milliseconds
    /// that each frame is shown for.
    pub fn enable_spinner(&mut self, style: SpinnerStyle, speed: Option<u64>)
        ensures
            final(self).spinner matches Some(spinner) && spinner@ == fresh_spinner(style, speed),
            final(self).item == old(self).item,
            final(self).pad_leading_space_when_spinner_is_disabled == old(
                self,
            ).pad_leading_space_when_spinner_is_disabled,
    {
        self.spinner = Some(AnimatedSpinner::new(style, speed));
    }

    /// Takes the spinner away.
    pub fn disable_spinner(&mut self)
        ensures
            final(self).spinner is None,
            final(self).item == old(self).item,
            final(self).pad_leading_space_when_spinner_is_disabled == old(
                self,
            ).pad_leading_space_when_spinner_is_disabled,
    {
        self.spinner = None;
    }

    /// The spans of the item's line: the prefix, the tag of the file's kind, a space,
    /// and the file name.
    pub open spec fn spans(&self) -> Seq<Seq<char>> {
        seq![
            prefix_of(self.spinner, self.pad_leading_space_when_spinner_is_disabled),
            file_type_tag(self.item.file_type),
            " "@,
            self.item.file_name@,
        ]
    }

    /// The contents of the spans of the item's line.
    pub fn render_spans(&self) -> (spans: Vec<String>)
        ensures
            texts_of(spans@) == self.spans(),
    {
        let prefix = render_prefix(&self.spinner, self.pad_leading_space_when_spinner_is_disabled);
        let file_type_str = match self.item.file_type {
            FileItemType::Audio => "[audio]",
            FileItemType::Data => " [data]",
            FileItemType::Unknown => "   [??]",
        };
        let mut spans: Vec<String> = Vec::new();
        spans.push(prefix);
        spans.push(file_type_str.to_owned());
        spans.push(" ".to_owned());
        spans.push(self.item.file_name.clone());
        spans
    }
}

impl QueueItem<FileItemFinishedResult> for FancyFileQueueItem {
    fn get_id(&self) -> (id: QueueItemID)
        ensures
            id == self.item.id,
    {
        self.item.get_id()
    }

    fn get_state(&self) -> (state: QueueItemGenericState)
        ensures
            state == self.item.state,
    {
        self.item.get_state()
    }

    fn on_item_enqueued(&mut self)
        ensures
            final(self).item == (FileItem {
                state: QueueItemGenericState::Pending,
                result: None,
                ..old(self).item
            }),
            final(self).spinner == old(self).spinner,
    {
        self.item.on_item_enqueued();
    }

    /// Starting a file gives it a square spinner.
    fn on_item_started(&mut self)
        ensures
            final(self).item == (FileItem {
                state: QueueItemGenericState::InProgress,
                ..old(self).item
            }),
            final(self).spinner matches Some(spinner) && spinner@ == fresh_spinner(
                SpinnerStyle::Square,
                None,
            ),
    {
        self.item.on_item_started();
        self.enable_spinner(SpinnerStyle::Square, None);
    }

    /// Finishing a file takes its spinner away.
    fn on_item_finished(&mut self, result: FileItemFinishedResult)
        ensures
            final(self).item == (FileItem {
                state: QueueItemGenericState::Finished,
                result: Some(result),
                ..old(self).item
            }),
            final(self).spinner is None,
    {
        self.item.on_item_finished(result);
        self.disable_spinner();
    }
}

impl RenderableQueueItem<Text<'static>> for FancyFileQueueItem {
    /// One line: the prefix, the tag of the file's kind, a space, and the file name.
    fn render(&self) -> (text: Text<'static>)
        ensures
            text_contents(text) == seq![self.spans()],
    {
        single_line_text(self.render_spans())
    }
}

} // verus!
