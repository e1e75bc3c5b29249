//! The batch as a state machine: count the eligible suppliers, launch one
//! worker per page, and wait until every worker has finished, whether its
//! page went well or not.
use vstd::prelude::*;
use crate::paging::{page_count, page_count_spec};

verus! {

/// Where the batch stands.
pub enum BatchPhase {
    /// Not started.
    Idle,
    /// Waiting for the number of eligible suppliers.
    Counting,
    /// `pages` workers were launched; `finished` of them are done, `failed`
    /// of those with an error of their own.
    AwaitingWorkers { pages: u64, finished: u64, failed: u64 },
    /// Every worker is done.
    Done { pages: u64, failed: u64 },
}

/// What happened.
pub enum BatchEvent {
    /// The batch is asked to run.
    Start,
    /// The store counted the eligible suppliers.
    Counted(u64),
    /// A worker is done; `ok` is false where its page failed.
    WorkerFinished { ok: bool },
}

/// What the runner is to do next.
#[derive(Debug)]
pub enum BatchAction {
    /// Count the eligible suppliers.
    CountEligible,
    /// Launch one worker for each page index below `pages`.
    LaunchWorkers { pages: u64 },
    /// Wait for the next worker.
    Wait,
    /// Report completion.
    Finish,
    /// The event does not apply in this phase: nothing to do.
    Ignore,
}

impl BatchPhase {
    /// The counters agree with each other.
    pub open spec fn wf(&self) -> bool {
        match *self {
            BatchPhase::AwaitingWorkers { pages, finished, failed } => finished < pages && failed <= finished,
            BatchPhase::Done { pages, failed } => failed <= pages,
            _ => true,
        }
    }

    /// The pages launched, the workers done, and whether the batch is over:
    /// everything but how many pages failed.
    pub open spec fn progress(&self) -> (u64, u64, bool) {
        match *self {
            BatchPhase::AwaitingWorkers { pages, finished, failed } => (pages, finished, false),
            BatchPhase::Done { pages, failed } => (pages, pages, true),
            _ => (0, 0, false),
        }
    }
}

/// The next phase and action of the batch after an event.
pub open spec fn step_spec(phase: BatchPhase, event: BatchEvent, page_size: nat) -> (BatchPhase, BatchAction) {
    match (phase, event) {
        (BatchPhase::Idle, BatchEvent::Start) => (BatchPhase::Counting, BatchAction::CountEligible),
        (BatchPhase::Counting, BatchEvent::Counted(count)) => {
            let pages = page_count_spec(count as nat, page_size) as u64;
            if pages == 0 {
                (BatchPhase::Done { pages: 0, failed: 0 }, BatchAction::Finish)
            } else {
                (BatchPhase::AwaitingWorkers { pages, finished: 0, failed: 0 }, BatchAction::LaunchWorkers { pages })
            }
        },
        (BatchPhase::AwaitingWorkers { pages, finished, failed }, BatchEvent::WorkerFinished { ok }) => {
            let failed2 = if ok { failed } else { (failed + 1) as u64 };
            if finished + 1 == pages {
                (BatchPhase::Done { pages, failed: failed2 }, BatchAction::Finish)
            } else {
                (BatchPhase::AwaitingWorkers { pages, finished: (finished + 1) as u64, failed: failed2 }, BatchAction::Wait)
            }
        },
        (p, _) => (p, BatchAction::Ignore),
    }
}

/// The next phase and action of the batch after an event.
pub fn step(phase: BatchPhase, event: BatchEvent, page_size: u64) -> (r: (BatchPhase, BatchAction))
    requires
        phase.wf(),
        page_size > 0,
    ensures
        r == step_spec(phase, event, page_size as nat),
        r.0.wf(),
{
    match (phase, event) {
        (BatchPhase::Idle, BatchEvent::Start) => (BatchPhase::Counting, BatchAction::CountEligible),
        (BatchPhase::Counting, BatchEvent::Counted(count)) => {
            let pages = page_count(count, page_size);
            if pages == 0 {
                (BatchPhase::Done { pages: 0, failed: 0 }, BatchAction::Finish)
            } else {
                (BatchPhase::AwaitingWorkers { pages, finished: 0, failed: 0 }, BatchAction::LaunchWorkers { pages })
            }
        },
        (BatchPhase::AwaitingWorkers { pages, finished, failed }, BatchEvent::WorkerFinished { ok }) => {
            let failed2 = if ok { failed } else { failed + 1 };
            if finished + 1 == pages {
                (BatchPhase::Done { pages, failed: failed2 }, BatchAction::Finish)
            } else {
                (BatchPhase::AwaitingWorkers { pages, finished: finished + 1, failed: failed2 }, BatchAction::Wait)
            }
        },
        (p, _) => (p, BatchAction::Ignore),
    }
}

/// A worker whose page fails moves the batch exactly as one whose page went
/// well: the other workers are still awaited, and the batch ends only when
/// all of them are done.
pub proof fn worker_failure_is_isolated(phase: BatchPhase, page_size: nat)
    requires
        phase.wf(),
        phase is AwaitingWorkers,
    ensures
        step_spec(phase, BatchEvent::WorkerFinished { ok: false }, page_size).0.progress()
            == step_spec(phase, BatchEvent::WorkerFinished { ok: true }, page_size).0.progress(),
        step_spec(phase, BatchEvent::WorkerFinished { ok: false }, page_size).1
            == step_spec(phase, BatchEvent::WorkerFinished { ok: true }, page_size).1,
        step_spec(phase, BatchEvent::WorkerFinished { ok: false }, page_size).0.progress().1
            == phase.progress().1 + 1,
        step_spec(phase, BatchEvent::WorkerFinished { ok: false }, page_size).0.progress().2
            <==> phase.progress().1 + 1 == phase.progress().0,
{
}

} // verus!
