//! Queue items and the three queues (libraries, albums, files) that a presentation
//! backend shows while a transcoding run is under way.

use vstd::prelude::*;

verus! {

/// Identifies one queue item. Identifiers are handed out in increasing order and are
/// never reused within one [`QueueState`].
pub type QueueItemID = u64;

/// The queue an item belongs to.
#[derive(Clone, Copy, Debug, PartialEq, Eq, Structural)]
pub enum QueueType {
    Library,
    Album,
    File,
}

/// How an item ended.
#[derive(Clone, Copy, Debug, PartialEq, Eq, Structural)]
pub struct QueueItemFinishedState {
    pub is_ok: bool,
}

/// The lifecycle state of a queue item.
#[derive(Clone, Copy, Debug, PartialEq, Eq, Structural)]
pub enum QueueItemState {
    Pending,
    InProgress,
    Finished { ok: bool },
}

/// The lifecycle state that follows from an item's activity flag and finished result:
/// a finished result wins, then the activity flag decides.
pub open spec fn state_of(is_active: bool, finished: Option<bool>) -> QueueItemState {
    match finished {
        Some(ok) => QueueItemState::Finished { ok },
        None => if is_active {
            QueueItemState::InProgress
        } else {
            QueueItemState::Pending
        },
    }
}

/// One entry of a queue.
#[derive(Debug, PartialEq, Eq)]
pub struct QueueItem {
    pub id: QueueItemID,
    pub content: String,
    pub item_type: QueueType,
    pub is_active: bool,
    pub finished_state: Option<QueueItemFinishedState>,
}

/// The mathematical value of a [`QueueItem`].
pub ghost struct QueueItemView {
    pub id: int,
    pub content: Seq<char>,
    pub item_type: QueueType,
    pub is_active: bool,
    pub finished: Option<bool>,
}

impl QueueItemView {
    /// The lifecycle state of the item.
    pub open spec fn state(self) -> QueueItemState {
        state_of(self.is_active, self.finished)
    }

    /// The item after it has been started.
    pub open spec fn started(self) -> QueueItemView {
        QueueItemView { is_active: true, ..self }
    }

    /// The item after it has been finished with the given result.
    pub open spec fn finished_with(self, ok: bool) -> QueueItemView {
        QueueItemView { is_active: false, finished: Some(ok), ..self }
    }
}

impl View for QueueItem {
    type V = QueueItemView;

    open spec fn view(&self) -> QueueItemView {
        QueueItemView {
            id: self.id as int,
            content: self.content@,
            item_type: self.item_type,
            is_active: self.is_active,
            finished: match self.finished_state {
                Some(state) => Some(state.is_ok),
                None => None,
            },
        }
    }
}

impl Clone for QueueItem {
    fn clone(&self) -> (copy: Self)
        ensures
            copy == *self,
    {
        QueueItem {
            id: self.id,
            content: self.content.clone(),
            item_type: self.item_type,
            is_active: self.is_active,
            finished_state: self.finished_state,
        }
    }
}

impl QueueItem {
    /// A pending item with the given identifier, label and queue.
    pub fn new(id: QueueItemID, content: String, item_type: QueueType) -> (item: Self)
        ensures
            item@ == (QueueItemView {
                id: id as int,
                content: content@,
                item_type,
                is_active: false,
                finished: None,
            }),
            item@.state() == QueueItemState::Pending,
    {
        QueueItem { id, content, item_type, is_active: false, finished_state: None }
    }

    /// The item's identifier.
    pub fn get_id(&self) -> (id: QueueItemID)
        ensures
            id == self@.id,
    {
        self.id
    }

    /// The item's lifecycle state.
    pub fn get_state(&self) -> (state: QueueItemState)
        ensures
            state == self@.state(),
    {
        match self.finished_state {
            Some(finished) => QueueItemState::Finished { ok: finished.is_ok },
            None => if self.is_active {
                QueueItemState::InProgress
            } else {
                QueueItemState::Pending
            },
        }
    }

    /// Marks the item as being worked on. A finished result, if any, is kept.
    pub fn on_item_started(&mut self)
        ensures
            final(self)@ == old(self)@.started(),
    {
        self.is_active = true;
    }

    /// Records how the item ended. The model does not check that the item was started.
    pub fn set_finished_state(&mut self, state: QueueItemFinishedState)
        ensures
            final(self)@ == old(self)@.finished_with(state.is_ok),
            final(self)@.state() == (QueueItemState::Finished { ok: state.is_ok }),
    {
        self.is_active = false;
        self.finished_state = Some(state);
    }
}

} // verus!
