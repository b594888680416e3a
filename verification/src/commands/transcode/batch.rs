//! One batch of file jobs: what was dispatched, what has reported, and what failed.

use vstd::prelude::*;

use super::packets::file::FileProcessingError;
use super::run::RunEvent;
use crate::configuration::base::Configuration;

verus! {

/// No worker thread is configured.
#[derive(Clone, Copy, Debug, PartialEq, Eq, Structural)]
pub struct ZeroTranscodeThreads;

/// The number of worker threads of the pool that file jobs are handed to. A
/// configuration without any worker thread is refused before anything is scheduled.
pub fn transcode_thread_count(config: &Configuration) -> (result: Result<
    usize,
    ZeroTranscodeThreads,
>)
    ensures
        match result {
            Ok(threads) => threads == config.aggregated_library.transcode_threads && threads >= 1,
            Err(_) => config.aggregated_library.transcode_threads == 0,
        },
{
    if config.aggregated_library.transcode_threads == 0 {
        Err(ZeroTranscodeThreads)
    } else {
        Ok(config.aggregated_library.transcode_threads)
    }
}

/// The errors among `results`, in order.
pub open spec fn failures_of(results: Seq<Result<(), FileProcessingError>>) -> Seq<
    FileProcessingError,
> {
    results.filter(|result: Result<(), FileProcessingError>| result is Err).map_values(
        |result: Result<(), FileProcessingError>| result->Err_0,
    )
}

/// Gathers what the jobs of a batch reported: success where none of them failed, else
/// every failure, in the order of the reports.
pub fn process_file_packets_in_threadpool(results: &Vec<Result<(), FileProcessingError>>) -> (outcome:
    Result<(), Vec<FileProcessingError>>)
    ensures
        match outcome {
            Ok(()) => failures_of(results@).len() == 0,
            Err(errors) => errors@ == failures_of(results@) && errors.len() > 0,
        },
{
    let ghost failed = |result: Result<(), FileProcessingError>| result is Err;
    let mut errors: Vec<FileProcessingError> = Vec::new();
    let mut i: usize = 0;
    proof {
        reveal(Seq::filter);
    }
    while i < results.len()
        invariant
            i <= results.len(),
            failed == |result: Result<(), FileProcessingError>| result is Err,
            errors@ == failures_of(results@.take(i as int)),
        decreases results.len() - i,
    {
        proof {
            assert(results@.take(i + 1) =~= results@.take(i as int).push(results[i as int]));
            results@.take(i as int).lemma_filter_push(results[i as int], failed);
        }
        match &results[i] {
            Ok(()) => {},
            Err(error) => {
                errors.push(error.clone());
            },
        }
        i += 1;
    }
    assert(results@.take(i as int) =~= results@);
    if errors.len() == 0 {
        Ok(())
    } else {
        Err(errors)
    }
}

/// The mathematical value of a [`Batch`].
pub ghost struct BatchView {
    /// The number of jobs that were dispatched.
    pub dispatched: nat,
    /// What the jobs reported so far, in the order of the reports.
    pub reports: Seq<Result<(), FileProcessingError>>,
}

impl BatchView {
    /// No more jobs have reported than were dispatched.
    pub open spec fn wf(self) -> bool {
        self.reports.len() <= self.dispatched <= usize::MAX
    }

    /// Whether every dispatched job has reported.
    pub open spec fn is_complete(self) -> bool {
        self.reports.len() == self.dispatched
    }
}

/// The jobs of one album that were handed to the worker pool, and their reports. A
/// job that fails does not stop the others: the batch is over when all have reported.
pub struct Batch {
    dispatched: usize,
    reports: Vec<Result<(), FileProcessingError>>,
}

impl View for Batch {
    type V = BatchView;

    closed spec fn view(&self) -> BatchView {
        BatchView { dispatched: self.dispatched as nat, reports: self.reports@ }
    }
}

impl Batch {
    /// No more jobs have reported than were dispatched. Every batch that this module
    /// hands out is well formed, and every report keeps it so.
    pub open spec fn wf(&self) -> bool {
        self@.wf()
    }

    /// A batch of `dispatched` jobs, none of which has reported yet.
    pub fn new(dispatched: usize) -> (batch: Batch)
        ensures
            batch.wf(),
            batch@ == (BatchView { dispatched: dispatched as nat, reports: Seq::empty() }),
    {
        Batch { dispatched, reports: Vec::new() }
    }

    /// Whether every dispatched job has reported.
    pub fn is_complete(&self) -> (complete: bool)
        requires
            self.wf(),
        ensures
            complete == self@.is_complete(),
    {
        self.reports.len() == self.dispatched
    }

    /// Takes the report of one job. A report beyond the number of dispatched jobs is
    /// refused, and `false` is returned.
    pub fn report(&mut self, result: Result<(), FileProcessingError>) -> (accepted: bool)
        requires
            old(self).wf(),
        ensures
            final(self).wf(),
            accepted == !old(self)@.is_complete(),
            final(self)@ == (if accepted {
                BatchView { reports: old(self)@.reports.push(result), ..old(self)@ }
            } else {
                old(self)@
            }),
    {
        if self.reports.len() < self.dispatched {
            self.reports.push(result);
            true
        } else {
            false
        }
    }

    /// The outcome of the batch, once every dispatched job has reported: success
    /// where no job failed, else every failure in the order of the reports. Until
    /// then there is no outcome.
    pub fn outcome(&self) -> (outcome: Option<Result<(), Vec<FileProcessingError>>>)
        requires
            self.wf(),
        ensures
            outcome is Some == self@.is_complete(),
            match outcome {
                Some(Ok(())) => failures_of(self@.reports).len() == 0,
                Some(Err(errors)) => errors@ == failures_of(self@.reports) && errors.len() > 0,
                None => true,
            },
    {
        if self.is_complete() {
            Some(process_file_packets_in_threadpool(&self.reports))
        } else {
            None
        }
    }

    /// The event that tells a run of this batch's end, once every dispatched job has
    /// reported.
    pub fn finished(&self) -> (event: Option<RunEvent>)
        requires
            self.wf(),
        ensures
            event is Some == self@.is_complete(),
            event matches Some(e) ==> e == (RunEvent::BatchFinished {
                dispatched: self@.dispatched as usize,
                failed: failures_of(self@.reports).len() as usize,
            }),
    {
        match self.outcome() {
            None => None,
            Some(Ok(())) => Some(RunEvent::BatchFinished { dispatched: self.dispatched, failed: 0 }),
            Some(Err(errors)) => Some(
                RunEvent::BatchFinished { dispatched: self.dispatched, failed: errors.len() },
            ),
        }
    }
}

} // verus!
