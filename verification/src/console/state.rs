//! Everything a render pass needs: the queues, the progress indicator and the log
//! journal, behind the operations through which a run reports into them.

use std::collections::VecDeque;
use vstd::prelude::*;

use super::progress::ProgressState;
use super::queue::{QueueItem, QueueItemID, QueueItemState, QueueType};
use super::queue_state::{restamped, QueueItemCounts, QueueState, QueueStateView};
use crate::text::{texts_of, wrap_lines, wrapped_lines};

verus! {

/// The number of journal lines above which the journal is trimmed.
pub const LOG_JOURNAL_MAX_LINES: usize = 20;

/// Why an operation on the model found nothing to work on.
#[derive(Clone, Copy, Debug, PartialEq, Eq, Structural)]
pub enum NotFound {
    /// The queues have not been begun, or have been ended.
    QueueDisabled,
    /// The progress indicator has not been begun, or has been ended.
    ProgressDisabled,
    /// No queue holds an item with the given identifier.
    NoSuchItem,
}

/// The journal after trimming: a journal of more than [`LOG_JOURNAL_MAX_LINES`] lines
/// loses its [`LOG_JOURNAL_MAX_LINES`] oldest lines, which stand at its end.
pub open spec fn trimmed(journal: Seq<Seq<char>>) -> Seq<Seq<char>> {
    if journal.len() > LOG_JOURNAL_MAX_LINES {
        journal.take(journal.len() - LOG_JOURNAL_MAX_LINES)
    } else {
        journal
    }
}

/// The part of the journal that a log area of the given height shows: the newest
/// lines that fit between the two border rows, the oldest of them first.
pub open spec fn visible_lines(journal: Seq<Seq<char>>, area_height: nat) -> Seq<Seq<char>> {
    let count = if area_height - 2 <= journal.len() {
        area_height - 2
    } else {
        journal.len() as int
    };
    journal.take(count).reverse()
}

/// The mathematical value of a [`TerminalUIState`].
pub ghost struct TerminalUIStateView {
    /// The queues, while they are enabled.
    pub queue: Option<QueueStateView>,
    /// The progress indicator, while it is enabled.
    pub progress: Option<ProgressState>,
    /// The log lines, newest first.
    pub log_journal: Seq<Seq<char>>,
}

impl TerminalUIStateView {
    /// The queues, where enabled, are well formed.
    pub open spec fn wf(self) -> bool {
        self.queue matches Some(queue) ==> queue.wf()
    }

    /// Whether the queues are enabled and hold an item with the identifier `id`.
    pub open spec fn has_item(self, id: int) -> bool {
        self.queue matches Some(queue) && queue.contains(id)
    }

    /// This state with other queues.
    pub open spec fn with_queue(self, queue: QueueStateView) -> TerminalUIStateView {
        TerminalUIStateView { queue: Some(queue), ..self }
    }

    /// What an operation on the item `id` reports: the queues are disabled, the item
    /// is unknown, or all is well.
    pub open spec fn lookup(self, id: int) -> Result<(), NotFound> {
        match self.queue {
            None => Err(NotFound::QueueDisabled),
            Some(queue) => if queue.contains(id) {
                Ok(())
            } else {
                Err(NotFound::NoSuchItem)
            },
        }
    }
}

/// The state that the worker side writes and the presentation side reads.
pub struct TerminalUIState {
    queue_state: Option<QueueState>,
    progress: Option<ProgressState>,
    log_journal: VecDeque<String>,
}

impl View for TerminalUIState {
    type V = TerminalUIStateView;

    closed spec fn view(&self) -> TerminalUIStateView {
        TerminalUIStateView {
            queue: match self.queue_state {
                Some(queue) => Some(queue@),
                None => None,
            },
            progress: self.progress,
            log_journal: texts_of(self.log_journal@),
        }
    }
}

impl TerminalUIState {
    /// The queues, where enabled, are well formed. Every state that this module hands
    /// out is well formed, and every operation keeps it so.
    pub open spec fn wf(&self) -> bool {
        self@.wf()
    }

    /// A state with the queues and the progress indicator disabled and an empty
    /// journal.
    pub fn new() -> (state: Self)
        ensures
            state.wf(),
            state@ == (TerminalUIStateView {
                queue: None,
                progress: None,
                log_journal: Seq::empty(),
            }),
    {
        let state = TerminalUIState {
            queue_state: None,
            progress: None,
            log_journal: VecDeque::new(),
        };
        assert(state@.log_journal =~= Seq::empty());
        state
    }

    /// The queues, while they are enabled.
    pub fn queue_state(&self) -> (queue: Option<&QueueState>)
        ensures
            queue is Some == self@.queue is Some,
            queue matches Some(q) ==> self@.queue == Some(q@),
    {
        self.queue_state.as_ref()
    }

    /// The progress indicator, while it is enabled.
    pub fn progress(&self) -> (progress: Option<ProgressState>)
        ensures
            progress == self@.progress,
    {
        self.progress
    }

    /// The number of lines in the journal.
    pub fn log_journal_len(&self) -> (len: usize)
        ensures
            len == self@.log_journal.len(),
    {
        broadcast use vstd::std_specs::vecdeque::group_vec_dequeue_axioms;

        self.log_journal.len()
    }

    /// Enables the queues, all three empty. Queues that were enabled before are
    /// discarded with their items.
    pub fn queue_begin(&mut self)
        ensures
            final(self).wf(),
            final(self)@ == old(self)@.with_queue(QueueStateView::empty()),
    {
        self.queue_state = Some(QueueState::new());
    }

    /// Disables the queues and discards their items.
    pub fn queue_end(&mut self)
        ensures
            final(self).wf(),
            final(self)@ == (TerminalUIStateView { queue: None, ..old(self)@ }),
    {
        self.queue_state = None;
    }

    /// Whether [`TerminalUIState::queue_item_add`] may be called: the queues are
    /// disabled, or an identifier is left for another item.
    pub fn can_add_queue_item(&self) -> (can: bool)
        ensures
            can == (self@.queue matches Some(queue) ==> queue.next_id < u64::MAX),
    {
        match &self.queue_state {
            Some(queue) => queue.has_free_item_id(),
            None => true,
        }
    }

    /// Appends a pending item labelled `item` to the queue `item_type` and returns its
    /// identifier. Fails where the queues are disabled.
    pub fn queue_item_add(&mut self, item: String, item_type: QueueType) -> (result: Result<
        QueueItemID,
        NotFound,
    >)
        requires
            old(self).wf(),
            old(self)@.queue matches Some(queue) ==> queue.next_id < u64::MAX,
        ensures
            final(self).wf(),
            match result {
                Ok(id) => {
                    &&& old(self)@.queue matches Some(queue)
                    &&& id == queue.next_id
                    &&& !queue.contains(id as int)
                    &&& final(self)@ == old(self)@.with_queue(queue.added(item@, item_type))
                    &&& final(self)@.has_item(id as int)
                },
                Err(error) => {
                    &&& error == NotFound::QueueDisabled
                    &&& old(self)@.queue is None
                    &&& final(self)@ == old(self)@
                },
            },
    {
        match self.queue_state.take() {
            Some(mut queue) => {
                proof {
                    super::queue_state::lemma_added_wf(queue@, item@, item_type);
                }
                let id = queue.add_item(item, item_type);
                self.queue_state = Some(queue);
                Ok(id)
            },
            None => Err(NotFound::QueueDisabled),
        }
    }

    /// The lifecycle state of the item `id`.
    pub fn queue_item_state(&self, id: QueueItemID) -> (result: Result<QueueItemState, NotFound>)
        requires
            self.wf(),
        ensures
            match result {
                Ok(state) => self@.has_item(id as int) && state == self@.queue->0.item(
                    id as int,
                ).state(),
                Err(error) => self@.lookup(id as int) == Err::<(), NotFound>(error),
            },
    {
        match &self.queue_state {
            Some(queue) => match queue.get_item_state(id) {
                Some(state) => Ok(state),
                None => Err(NotFound::NoSuchItem),
            },
            None => Err(NotFound::QueueDisabled),
        }
    }

    /// Marks the item `id` as being worked on.
    pub fn queue_item_start(&mut self, id: QueueItemID) -> (result: Result<(), NotFound>)
        requires
            old(self).wf(),
        ensures
            final(self).wf(),
            result == old(self)@.lookup(id as int),
            result is Ok ==> final(self)@ == old(self)@.with_queue(
                old(self)@.queue->0.replaced(
                    id as int,
                    old(self)@.queue->0.item(id as int).started(),
                ),
            ),
            result is Err ==> final(self)@ == old(self)@,
    {
        match self.queue_state.take() {
            Some(mut queue) => {
                let found = queue.start_item(id);
                self.queue_state = Some(queue);
                if found {
                    Ok(())
                } else {
                    Err(NotFound::NoSuchItem)
                }
            },
            None => Err(NotFound::QueueDisabled),
        }
    }

    /// Records that the item `id` ended, successfully or not. The model does not check
    /// that the item was started: finishing a pending item is accepted.
    pub fn queue_item_finish(&mut self, id: QueueItemID, was_ok: bool) -> (result: Result<
        (),
        NotFound,
    >)
        requires
            old(self).wf(),
        ensures
            final(self).wf(),
            result == old(self)@.lookup(id as int),
            result is Ok ==> final(self)@ == old(self)@.with_queue(
                old(self)@.queue->0.replaced(
                    id as int,
                    old(self)@.queue->0.item(id as int).finished_with(was_ok),
                ),
            ),
            result is Err ==> final(self)@ == old(self)@,
    {
        match self.queue_state.take() {
            Some(mut queue) => {
                let found = queue.finish_item(id, was_ok);
                self.queue_state = Some(queue);
                if found {
                    Ok(())
                } else {
                    Err(NotFound::NoSuchItem)
                }
            },
            None => Err(NotFound::QueueDisabled),
        }
    }

    /// Applies `mutation` to the item `id` and stores the outcome under the item's
    /// identifier and in its queue. The mutation is not called where the result is an
    /// error.
    pub fn queue_item_modify<F: FnOnce(QueueItem) -> QueueItem>(
        &mut self,
        id: QueueItemID,
        mutation: F,
    ) -> (result: Result<(), NotFound>)
        requires
            old(self).wf(),
            forall|item: QueueItem| call_requires(mutation, (item,)),
        ensures
            final(self).wf(),
            result == old(self)@.lookup(id as int),
            result is Ok ==> exists|before: QueueItem, mutated: QueueItem|
                {
                    &&& before@ == old(self)@.queue->0.item(id as int)
                    &&& call_ensures(mutation, (before,), mutated)
                    &&& final(self)@ == old(self)@.with_queue(
                        old(self)@.queue->0.replaced(
                            id as int,
                            restamped(mutated@, before@),
                        ),
                    )
                },
            result is Err ==> final(self)@ == old(self)@,
    {
        match self.queue_state.take() {
            Some(mut queue) => {
                let found = queue.modify_item(id, mutation);
                self.queue_state = Some(queue);
                if found {
                    Ok(())
                } else {
                    Err(NotFound::NoSuchItem)
                }
            },
            None => Err(NotFound::QueueDisabled),
        }
    }

    /// Takes the item `id` out of its queue.
    pub fn queue_item_remove(&mut self, id: QueueItemID) -> (result: Result<(), NotFound>)
        requires
            old(self).wf(),
        ensures
            final(self).wf(),
            result == old(self)@.lookup(id as int),
            result is Ok ==> final(self)@ == old(self)@.with_queue(
                old(self)@.queue->0.removed(id as int),
            ),
            result is Err ==> final(self)@ == old(self)@,
            !final(self)@.has_item(id as int),
    {
        match self.queue_state.take() {
            Some(mut queue) => {
                let found = queue.remove_item_by_id(id);
                self.queue_state = Some(queue);
                if found {
                    Ok(())
                } else {
                    Err(NotFound::NoSuchItem)
                }
            },
            None => Err(NotFound::QueueDisabled),
        }
    }

    /// Empties the queue of the given type. Fails where the queues are disabled.
    pub fn queue_clear(&mut self, queue_type: QueueType) -> (result: Result<(), NotFound>)
        requires
            old(self).wf(),
        ensures
            final(self).wf(),
            match result {
                Ok(()) => {
                    &&& old(self)@.queue matches Some(queue)
                    &&& final(self)@ == old(self)@.with_queue(queue.cleared(queue_type))
                },
                Err(error) => {
                    &&& error == NotFound::QueueDisabled
                    &&& old(self)@.queue is None
                    &&& final(self)@ == old(self)@
                },
            },
    {
        match self.queue_state.take() {
            Some(mut queue) => {
                queue.clear_queue_by_type(queue_type);
                self.queue_state = Some(queue);
                Ok(())
            },
            None => Err(NotFound::QueueDisabled),
        }
    }
}

impl TerminalUIState {
    /// Enables the progress indicator, with nothing done and nothing to do.
    pub fn progress_begin(&mut self)
        ensures
            final(self)@ == (TerminalUIStateView {
                progress: Some(ProgressState { current: 0, total: 0 }),
                ..old(self)@
            }),
    {
        self.progress = Some(ProgressState::new());
    }

    /// Disables the progress indicator.
    pub fn progress_end(&mut self)
        ensures
            final(self)@ == (TerminalUIStateView { progress: None, ..old(self)@ }),
    {
        self.progress = None;
    }

    /// Sets the amount of work that the run consists of. Fails where the progress
    /// indicator is disabled.
    pub fn progress_set_total(&mut self, total: usize) -> (result: Result<(), NotFound>)
        ensures
            match result {
                Ok(()) => {
                    &&& old(self)@.progress matches Some(progress)
                    &&& final(self)@ == (TerminalUIStateView {
                        progress: Some(ProgressState { total, ..progress }),
                        ..old(self)@
                    })
                },
                Err(error) => {
                    &&& error == NotFound::ProgressDisabled
                    &&& old(self)@.progress is None
                    &&& final(self)@ == old(self)@
                },
            },
    {
        match self.progress {
            Some(progress) => {
                self.progress = Some(ProgressState { current: progress.current, total });
                Ok(())
            },
            None => Err(NotFound::ProgressDisabled),
        }
    }

    /// Sets the amount of work that is done. Fails where the progress indicator is
    /// disabled.
    pub fn progress_set_current(&mut self, current: usize) -> (result: Result<(), NotFound>)
        ensures
            match result {
                Ok(()) => {
                    &&& old(self)@.progress matches Some(progress)
                    &&& final(self)@ == (TerminalUIStateView {
                        progress: Some(ProgressState { current, ..progress }),
                        ..old(self)@
                    })
                },
                Err(error) => {
                    &&& error == NotFound::ProgressDisabled
                    &&& old(self)@.progress is None
                    &&& final(self)@ == old(self)@
                },
            },
    {
        match self.progress {
            Some(progress) => {
                self.progress = Some(ProgressState { current, total: progress.total });
                Ok(())
            },
            None => Err(NotFound::ProgressDisabled),
        }
    }

    /// Trims the journal: once it holds more than [`LOG_JOURNAL_MAX_LINES`] lines, its
    /// [`LOG_JOURNAL_MAX_LINES`] oldest lines are dropped.
    pub fn trim_log_journal(&mut self)
        ensures
            final(self)@ == (TerminalUIStateView {
                log_journal: trimmed(old(self)@.log_journal),
                ..old(self)@
            }),
    {
        broadcast use vstd::std_specs::vecdeque::group_vec_dequeue_axioms;

        let current_log_count = self.log_journal.len();
        if current_log_count > LOG_JOURNAL_MAX_LINES {
            let ghost before = self.log_journal@;
            self.log_journal.truncate(current_log_count - LOG_JOURNAL_MAX_LINES);
            assert(texts_of(self.log_journal@) =~= texts_of(before).take(
                current_log_count - LOG_JOURNAL_MAX_LINES,
            ));
        }
    }

    /// Logs an empty line: a line feed becomes the newest journal entry, and the
    /// journal is trimmed.
    pub fn log_newline(&mut self)
        ensures
            final(self)@ == (TerminalUIStateView {
                log_journal: trimmed(seq![seq!['\n']] + old(self)@.log_journal),
                ..old(self)@
            }),
    {
        let mut line = String::new();
        crate::text::push_char(&mut line, '\n');
        let ghost before = self.log_journal@;
        self.log_journal.push_front(line);
        assert(texts_of(self.log_journal@) =~= seq![seq!['\n']] + texts_of(before));
        self.trim_log_journal();
    }

    /// Logs `content` on a terminal that is `terminal_width` characters wide. The
    /// content is split at its line feeds, lines that are too long are cut into pieces
    /// of the terminal's width, and each piece in turn becomes the newest journal
    /// entry. Then the journal is trimmed.
    pub fn log_println(&mut self, content: &str, terminal_width: usize)
        ensures
            final(self)@ == (TerminalUIStateView {
                log_journal: trimmed(
                    wrapped_lines(content@, terminal_width as nat).reverse() + old(
                        self,
                    )@.log_journal,
                ),
                ..old(self)@
            }),
    {
        let pieces = wrap_lines(content, terminal_width);
        let ghost entries = wrapped_lines(content@, terminal_width as nat);
        let ghost before = old(self)@.log_journal;
        let mut i: usize = 0;
        while i < pieces.len()
            invariant
                i <= pieces.len(),
                texts_of(pieces@) == entries,
                self@ == (TerminalUIStateView {
                    log_journal: entries.take(i as int).reverse() + before,
                    ..old(self)@
                }),
            decreases pieces.len() - i,
        {
            let piece = pieces[i].clone();
            let ghost journal = self.log_journal@;
            self.log_journal.push_front(piece);
            proof {
                assert(texts_of(self.log_journal@) =~= seq![piece@] + texts_of(journal));
                assert(seq![piece@] + (entries.take(i as int).reverse() + before) =~= entries.take(
                    i + 1,
                ).reverse() + before);
            }
            i += 1;
        }
        assert(entries.take(i as int) =~= entries);
        self.trim_log_journal();
    }

    /// The journal lines that a log area of `area_height` rows shows, two of which are
    /// its borders: the newest lines that fit, the oldest of them first.
    pub fn visible_log_lines(&self, area_height: u16) -> (lines: Vec<String>)
        requires
            area_height >= 2,
        ensures
            texts_of(lines@) == visible_lines(self@.log_journal, area_height as nat),
    {
        broadcast use vstd::std_specs::vecdeque::group_vec_dequeue_axioms;

        let room: usize = (area_height - 2) as usize;
        let count = if room <= self.log_journal.len() {
            room
        } else {
            self.log_journal.len()
        };
        let ghost shown = self@.log_journal.take(count as int);
        let mut lines: Vec<String> = Vec::new();
        let mut left: usize = count;
        while left > 0
            invariant
                left <= count <= self.log_journal.len(),
                shown == texts_of(self.log_journal@).take(count as int),
                texts_of(lines@) == shown.reverse().take(count - left),
            decreases left,
        {
            left -= 1;
            let line = self.log_journal[left].clone();
            lines.push(line);
            proof {
                assert(shown.reverse().take(count - left) =~= shown.reverse().take(
                    count - left - 1,
                ).push(line@));
            }
        }
        lines
    }

    /// The tally of the file queue by lifecycle state, while the queues are enabled.
    pub fn file_queue_counts(&self) -> (counts: Option<QueueItemCounts>)
        ensures
            counts is Some == self@.queue is Some,
            counts matches Some(c) ==> {
                let file = self@.queue->0.file;
                &&& c.pending == super::queue_state::count_in_state(file, QueueItemState::Pending)
                &&& c.in_progress == super::queue_state::count_in_state(
                    file,
                    QueueItemState::InProgress,
                )
                &&& c.finished_ok == super::queue_state::count_in_state(
                    file,
                    QueueItemState::Finished { ok: true },
                )
                &&& c.finished_not_ok == super::queue_state::count_in_state(
                    file,
                    QueueItemState::Finished { ok: false },
                )
            },
    {
        match &self.queue_state {
            Some(queue) => Some(queue.count_file_item_states()),
            None => None,
        }
    }
}

} // verus!
