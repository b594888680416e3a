//! Queue items that know what they stand for: an album with its number of changed
//! files, or a file with its kind.

use vstd::prelude::*;

use crate::console::queue::QueueItemID;

verus! {

/// The lifecycle state of a queue item, whatever its kind.
#[derive(Clone, Copy, Debug, PartialEq, Eq, Structural)]
pub enum QueueItemGenericState {
    Pending,
    InProgress,
    Finished,
}

/// How the processing of an album ended.
#[derive(Clone, Copy, Debug, PartialEq, Eq, Structural)]
pub enum AlbumItemFinishedResult {
    Success,
    Failed,
}

/// How the processing of a file ended.
#[derive(Clone, Copy, Debug, PartialEq, Eq, Structural)]
pub enum FileItemFinishedResult {
    Success,
    Failed,
}

/// The kind of a file in the queue.
#[derive(Clone, Copy, Debug, PartialEq, Eq, Structural)]
pub enum FileItemType {
    Audio,
    Data,
    Unknown,
}

/// What a queue is told of an item during its life. `R` is what the item is told
/// when it is finished.
pub trait QueueItem<R> {
    /// The identifier of the item.
    fn get_id(&self) -> QueueItemID;

    /// The lifecycle state of the item.
    fn get_state(&self) -> QueueItemGenericState;

    /// The item has been put into a queue.
    fn on_item_enqueued(&mut self);

    /// Work on the item has begun.
    fn on_item_started(&mut self);

    /// Work on the item has ended with `result`.
    fn on_item_finished(&mut self, result: R);
}

/// An item that can be shown. `T` is what a backend draws.
pub trait RenderableQueueItem<T> {
    /// What is to be drawn for the item as it is now.
    fn render(&self) -> T;
}

/// An album in the queue.
#[derive(Debug, PartialEq, Eq)]
pub struct AlbumItem {
    pub id: QueueItemID,
    pub artist_name: String,
    pub album_title: String,
    /// The number of files of the album that are new or have changed.
    pub num_changed_files: usize,
    pub state: QueueItemGenericState,
    pub result: Option<AlbumItemFinishedResult>,
}

/// A file in the queue.
#[derive(Debug, PartialEq, Eq)]
pub struct FileItem {
    pub id: QueueItemID,
    pub file_type: FileItemType,
    pub file_name: String,
    pub state: QueueItemGenericState,
    pub result: Option<FileItemFinishedResult>,
}

impl AlbumItem {
    /// A pending item for the album `album_title` by `artist_name`.
    pub fn new(id: QueueItemID, artist_name: String, album_title: String, num_changed_files: usize) -> (item:
        AlbumItem)
        ensures
            item == (AlbumItem {
                id,
                artist_name,
                album_title,
                num_changed_files,
                state: QueueItemGenericState::Pending,
                result: None,
            }),
    {
        AlbumItem {
            id,
            artist_name,
            album_title,
            num_changed_files,
            state: QueueItemGenericState::Pending,
            result: None,
        }
    }
}

impl FileItem {
    /// A pending item for the file `file_name`.
    pub fn new(id: QueueItemID, file_type: FileItemType, file_name: String) -> (item: FileItem)
        ensures
            item == (FileItem {
                id,
                file_type,
                file_name,
                state: QueueItemGenericState::Pending,
                result: None,
            }),
    {
        FileItem { id, file_type, file_name, state: QueueItemGenericState::Pending, result: None }
    }
}

impl QueueItem<AlbumItemFinishedResult> for AlbumItem {
    fn get_id(&self) -> (id: QueueItemID)
        ensures
            id == self.id,
    {
        self.id
    }

    fn get_state(&self) -> (state: QueueItemGenericState)
        ensures
            state == self.state,
    {
        self.state
    }

    /// Enqueueing makes the item pending, and clears a former result.
    fn on_item_enqueued(&mut self)
        ensures
            *final(self) == (AlbumItem {
                state: QueueItemGenericState::Pending,
                result: None,
                ..*old(self)
            }),
    {
        self.state = QueueItemGenericState::Pending;
        self.result = None;
    }

    fn on_item_started(&mut self)
        ensures
            *final(self) == (AlbumItem { state: QueueItemGenericState::InProgress, ..*old(self) }),
    {
        self.state = QueueItemGenericState::InProgress;
    }

    fn on_item_finished(&mut self, result: AlbumItemFinishedResult)
        ensures
            *final(self) == (AlbumItem {
                state: QueueItemGenericState::Finished,
                result: Some(result),
                ..*old(self)
            }),
    {
        self.state = QueueItemGenericState::Finished;
        self.result = Some(result);
    }
}

impl QueueItem<FileItemFinishedResult> for FileItem {
    fn get_id(&self) -> (id: QueueItemID)
        ensures
            id == self.id,
    {
        self.id
    }

    fn get_state(&self) -> (state: QueueItemGenericState)
        ensures
            state == self.state,
    {
        self.state
    }

    /// Enqueueing makes the item pending, and clears a former result.
    fn on_item_enqueued(&mut self)
        ensures
            *final(self) == (FileItem {
                state: QueueItemGenericState::Pending,
                result: None,
                ..*old(self)
            }),
    {
        self.state = QueueItemGenericState::Pending;
        self.result = None;
    }

    fn on_item_started(&mut self)
        ensures
            *final(self) == (FileItem { state: QueueItemGenericState::InProgress, ..*old(self) }),
    {
        self.state = QueueItemGenericState::InProgress;
    }

    fn on_item_finished(&mut self, result: FileItemFinishedResult)
        ensures
            *final(self) == (FileItem {
                state: QueueItemGenericState::Finished,
                result: Some(result),
                ..*old(self)
            }),
    {
        self.state = QueueItemGenericState::Finished;
        self.result = Some(result);
    }
}

} // verus!
