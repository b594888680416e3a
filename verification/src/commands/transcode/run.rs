//! The decisions of a transcoding run: which album is processed next, whether its
//! fresh snapshot may be saved, and when the run ends.
//!
//! The run itself, with its worker threads and its files, is driven from outside:
//! it carries out each [`RunAction`] and reports back with a [`RunEvent`].

use vstd::prelude::*;

verus! {

/// How a run ended.
#[derive(Clone, Copy, Debug, PartialEq, Eq, Structural)]
pub enum RunOutcome {
    /// No album needed processing.
    NothingToDo,
    /// Every album that needed processing was processed, and its snapshot saved.
    Completed,
    /// The batch of the album at position `album` failed, or its snapshot could not
    /// be saved. The albums after it were not touched.
    Failed { album: usize },
    /// The user asked to stop. The albums before position `album` are done with; that
    /// album and those after it were not touched.
    Stopped { album: usize },
}

/// Where a run stands.
#[derive(Clone, Copy, Debug, PartialEq, Eq, Structural)]
pub enum RunPhase {
    /// The batch of the current album is due or under way.
    Processing,
    /// The batch of the current album succeeded; its fresh snapshot is being saved.
    Persisting,
    /// The run is over.
    Finished { outcome: RunOutcome },
}

/// What is to be done next in a run.
#[derive(Clone, Copy, Debug, PartialEq, Eq, Structural)]
pub enum RunAction {
    /// Dispatch the file packets of the album at position `album` and wait until
    /// every one of them has reported.
    ProcessAlbum { album: usize },
    /// Save the fresh snapshot of the album at position `album`.
    SaveFreshMeta { album: usize },
    /// Stop.
    Finish { outcome: RunOutcome },
}

/// What happened in a run.
#[derive(Clone, Copy, Debug, PartialEq, Eq, Structural)]
pub enum RunEvent {
    /// Every job of the current album's batch has reported: `dispatched` jobs in
    /// all, `failed` of them with an error.
    BatchFinished { dispatched: usize, failed: usize },
    /// The attempt to save the current album's fresh snapshot is over.
    MetaSaved { ok: bool },
    /// The user asked to stop the run.
    StopRequested,
}

/// What is reported of an album once its batch is over.
#[derive(Clone, Copy, Debug, PartialEq, Eq, Structural)]
pub enum AlbumReport {
    /// The batch held no job: the album is already up to date.
    AlreadyUpToDate,
    /// Every job of the batch succeeded.
    Processed,
    /// At least one job of the batch failed.
    Failed,
}

/// What a batch of `dispatched` jobs, `failed` of which failed, says of its album.
pub open spec fn report_of(dispatched: nat, failed: nat) -> AlbumReport {
    if failed > 0 {
        AlbumReport::Failed
    } else if dispatched == 0 {
        AlbumReport::AlreadyUpToDate
    } else {
        AlbumReport::Processed
    }
}

/// The mathematical value of a [`TranscodeRun`].
pub ghost struct TranscodeRunView {
    /// The number of albums that the run is to process.
    pub albums: nat,
    /// The position of the current album.
    pub position: nat,
    pub phase: RunPhase,
    /// Whether the user has asked to stop.
    pub stop_requested: bool,
}

impl TranscodeRunView {
    /// An unfinished run has a current album.
    pub open spec fn wf(self) -> bool {
        &&& self.albums <= usize::MAX
        &&& self.phase !is Finished ==> self.position < self.albums
    }

    /// A run over `albums` albums before anything has happened.
    pub open spec fn start(albums: nat) -> TranscodeRunView {
        if albums == 0 {
            TranscodeRunView {
                albums,
                position: 0,
                phase: RunPhase::Finished { outcome: RunOutcome::NothingToDo },
                stop_requested: false,
            }
        } else {
            TranscodeRunView {
                albums,
                position: 0,
                phase: RunPhase::Processing,
                stop_requested: false,
            }
        }
    }

    /// What is to be done next.
    pub open spec fn action(self) -> RunAction {
        match self.phase {
            RunPhase::Processing => RunAction::ProcessAlbum { album: self.position as usize },
            RunPhase::Persisting => RunAction::SaveFreshMeta { album: self.position as usize },
            RunPhase::Finished { outcome } => RunAction::Finish { outcome },
        }
    }

    /// The run once the current album is done with: completed, or stopped where the
    /// user has asked for it, or at the next album.
    pub open spec fn advanced(self) -> TranscodeRunView {
        if self.position + 1 >= self.albums {
            TranscodeRunView {
                phase: RunPhase::Finished { outcome: RunOutcome::Completed },
                ..self
            }
        } else if self.stop_requested {
            TranscodeRunView {
                phase: RunPhase::Finished {
                    outcome: RunOutcome::Stopped { album: (self.position + 1) as usize },
                },
                ..self
            }
        } else {
            TranscodeRunView {
                position: self.position + 1,
                phase: RunPhase::Processing,
                ..self
            }
        }
    }

    /// The run once it has failed at the current album.
    pub open spec fn failed(self) -> TranscodeRunView {
        TranscodeRunView {
            phase: RunPhase::Finished {
                outcome: RunOutcome::Failed { album: self.position as usize },
            },
            ..self
        }
    }

    /// The run after `event`. A failed batch ends the run at once. A batch without
    /// any job leaves nothing to save, so the run moves on. Any other batch has its
    /// album's snapshot saved first, and a snapshot that cannot be saved ends the run
    /// too. A request to stop is kept in mind until the current album is done with:
    /// jobs that are under way are not cancelled. An event that is out of turn changes
    /// nothing.
    pub open spec fn step(self, event: RunEvent) -> TranscodeRunView {
        match (self.phase, event) {
            (RunPhase::Processing, RunEvent::StopRequested) => TranscodeRunView {
                stop_requested: true,
                ..self
            },
            (RunPhase::Persisting, RunEvent::StopRequested) => TranscodeRunView {
                stop_requested: true,
                ..self
            },
            (RunPhase::Processing, RunEvent::BatchFinished { dispatched, failed }) => match report_of(
                dispatched as nat,
                failed as nat,
            ) {
                AlbumReport::Failed => self.failed(),
                AlbumReport::AlreadyUpToDate => self.advanced(),
                AlbumReport::Processed => TranscodeRunView { phase: RunPhase::Persisting, ..self },
            },
            (RunPhase::Persisting, RunEvent::MetaSaved { ok }) => if ok {
                self.advanced()
            } else {
                self.failed()
            },
            _ => self,
        }
    }

    /// The run after each of `events` in turn.
    pub open spec fn run(self, events: Seq<RunEvent>) -> TranscodeRunView
        decreases events.len(),
    {
        if events.len() == 0 {
            self
        } else {
            self.step(events[0]).run(events.skip(1))
        }
    }
}

/// A run of a number of albums, one after the other.
#[derive(Clone, Copy, Debug, PartialEq, Eq)]
pub struct TranscodeRun {
    albums: usize,
    position: usize,
    phase: RunPhase,
    stop_requested: bool,
}

impl View for TranscodeRun {
    type V = TranscodeRunView;

    closed spec fn view(&self) -> TranscodeRunView {
        TranscodeRunView {
            albums: self.albums as nat,
            position: self.position as nat,
            phase: self.phase,
            stop_requested: self.stop_requested,
        }
    }
}

impl TranscodeRun {
    /// An unfinished run has a current album. Every run that this module hands out is
    /// well formed, and every event keeps it so.
    pub open spec fn wf(&self) -> bool {
        self@.wf()
    }

    /// A run over the given number of albums that need processing. Without any, the
    /// run is over before it began.
    pub fn new(albums_in_need_of_processing: usize) -> (run: TranscodeRun)
        ensures
            run.wf(),
            run@ == TranscodeRunView::start(albums_in_need_of_processing as nat),
    {
        if albums_in_need_of_processing == 0 {
            TranscodeRun {
                albums: 0,
                position: 0,
                phase: RunPhase::Finished { outcome: RunOutcome::NothingToDo },
                stop_requested: false,
            }
        } else {
            TranscodeRun {
                albums: albums_in_need_of_processing,
                position: 0,
                phase: RunPhase::Processing,
                stop_requested: false,
            }
        }
    }

    /// What is to be done next.
    pub fn action(&self) -> (action: RunAction)
        ensures
            action == self@.action(),
    {
        match self.phase {
            RunPhase::Processing => RunAction::ProcessAlbum { album: self.position },
            RunPhase::Persisting => RunAction::SaveFreshMeta { album: self.position },
            RunPhase::Finished { outcome } => RunAction::Finish { outcome },
        }
    }

    /// What a batch of `dispatched` jobs, `failed` of which failed, says of its album.
    pub fn judge_batch(dispatched: usize, failed: usize) -> (report: AlbumReport)
        ensures
            report == report_of(dispatched as nat, failed as nat),
    {
        if failed > 0 {
            AlbumReport::Failed
        } else if dispatched == 0 {
            AlbumReport::AlreadyUpToDate
        } else {
            AlbumReport::Processed
        }
    }

    /// Moves on from the current album.
    fn advance(&mut self)
        requires
            old(self).wf(),
            old(self)@.phase !is Finished,
        ensures
            final(self).wf(),
            final(self)@ == old(self)@.advanced(),
    {
        if self.position + 1 >= self.albums {
            self.phase = RunPhase::Finished { outcome: RunOutcome::Completed };
        } else if self.stop_requested {
            self.phase = RunPhase::Finished {
                outcome: RunOutcome::Stopped { album: self.position + 1 },
            };
        } else {
            self.position = self.position + 1;
            self.phase = RunPhase::Processing;
        }
    }

    /// Takes note of `event` and says what is to be done next.
    pub fn handle(&mut self, event: RunEvent) -> (action: RunAction)
        requires
            old(self).wf(),
        ensures
            final(self).wf(),
            final(self)@ == old(self)@.step(event),
            action == final(self)@.action(),
    {
        match (self.phase, event) {
            (RunPhase::Processing, RunEvent::StopRequested) => {
                self.stop_requested = true;
            },
            (RunPhase::Persisting, RunEvent::StopRequested) => {
                self.stop_requested = true;
            },
            (RunPhase::Processing, RunEvent::BatchFinished { dispatched, failed }) => {
                match TranscodeRun::judge_batch(dispatched, failed) {
                    AlbumReport::Failed => {
                        self.phase = RunPhase::Finished {
                            outcome: RunOutcome::Failed { album: self.position },
                        };
                    },
                    AlbumReport::AlreadyUpToDate => {
                        self.advance();
                    },
                    AlbumReport::Processed => {
                        self.phase = RunPhase::Persisting;
                    },
                }
            },
            (RunPhase::Persisting, RunEvent::MetaSaved { ok }) => {
                if ok {
                    self.advance();
                } else {
                    self.phase = RunPhase::Finished {
                        outcome: RunOutcome::Failed { album: self.position },
                    };
                }
            },
            _ => {},
        }
        self.action()
    }

    /// The exit code of the program for the given outcome: zero where nothing needed
    /// processing or everything was processed, one where the run failed or was stopped.
    pub fn exit_code(outcome: RunOutcome) -> (code: i32)
        ensures
            code == (if outcome is Failed || outcome is Stopped {
                1i32
            } else {
                0i32
            }),
    {
        match outcome {
            RunOutcome::Failed { .. } => 1,
            RunOutcome::Stopped { .. } => 1,
            _ => 0,
        }
    }
}

/// Every event keeps a run well formed.
pub proof fn lemma_step_wf(run: TranscodeRunView, event: RunEvent)
    requires
        run.wf(),
    ensures
        run.step(event).wf(),
{
}

/// A run that is over stays as it is, whatever is reported to it.
pub proof fn lemma_finished_run_stays(run: TranscodeRunView, events: Seq<RunEvent>)
    requires
        run.phase is Finished,
    ensures
        run.run(events) == run,
    decreases events.len(),
{
    if events.len() > 0 {
        lemma_finished_run_stays(run, events.skip(1));
    }
}

/// A batch without any job is reported as already up to date, and nothing is saved
/// for its album: the run moves on to the next album, or is completed.
pub proof fn lemma_empty_batch_saves_nothing(run: TranscodeRunView)
    requires
        run.wf(),
        run.phase is Processing,
    ensures
        report_of(0, 0) == AlbumReport::AlreadyUpToDate,
        run.step(RunEvent::BatchFinished { dispatched: 0, failed: 0 }) == run.advanced(),
        run.step(RunEvent::BatchFinished { dispatched: 0, failed: 0 }).action()
            !is SaveFreshMeta,
{
}

/// Once a job of a batch has failed, the run is over with that album as the point of
/// failure: whatever is reported afterwards, no snapshot is saved, neither that
/// album's nor a later one's.
pub proof fn lemma_failed_batch_saves_nothing(
    run: TranscodeRunView,
    dispatched: usize,
    failed: usize,
    later: Seq<RunEvent>,
)
    requires
        run.wf(),
        run.phase is Processing,
        failed > 0,
    ensures
        run.step(RunEvent::BatchFinished { dispatched, failed }).run(later).action() == (
        RunAction::Finish { outcome: RunOutcome::Failed { album: run.position as usize } }),
{
    lemma_finished_run_stays(run.step(RunEvent::BatchFinished { dispatched, failed }), later);
}

/// A request to stop does not cancel what is under way: the run goes on with the
/// current album as if nothing had been asked, up to the point where it would turn to
/// the next album.
pub proof fn lemma_stop_waits_for_the_batch(run: TranscodeRunView)
    requires
        run.wf(),
        run.phase !is Finished,
    ensures
        run.step(RunEvent::StopRequested).phase == run.phase,
        run.step(RunEvent::StopRequested).position == run.position,
        run.step(RunEvent::StopRequested).action() == run.action(),
{
}

} // verus!
