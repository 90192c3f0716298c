use vstd::prelude::*;

verus! {

/// Long-running work a screen hands to a background worker.
#[derive(Debug)]
pub enum Job {
    /// Polls CPU and memory figures of the running containers.
    PollMetrics,
    /// Streams the log lines of container `cid` written in the last `since` minutes.
    FollowLogs { cid: String, since: u16, follow: bool },
}

impl Job {
    pub fn duplicate(&self) -> (r: Job)
        ensures
            r == *self,
    {
        match self {
            Job::PollMetrics => Job::PollMetrics,
            Job::FollowLogs { cid, since, follow } => Job::FollowLogs {
                cid: cid.clone(),
                since: *since,
                follow: *follow,
            },
        }
    }
}

/// What the loop that drives the dashboard must do on the library's behalf.
#[derive(Debug)]
pub enum Effect {
    /// Draw the active screen and the overlays again.
    Redraw,
    /// Resize the terminal to (width, height), then draw.
    ResizeTerminal(u16, u16),
    /// Recreate and re-enter the terminal driver.
    ResumeTerminal,
    /// Leave raw and alternate-screen mode: another program takes the terminal.
    StopTerminal,
    /// Clear the terminal after another program used it.
    ClearTerminal,
    /// Start a worker for the job, with a fresh cancellation signal.
    Start(Job),
    /// Signal the worker of the job to stop, then abort its task.
    Cancel(Job),
    /// Empty the log buffer the log worker writes into.
    ClearLogs,
}

/// A background worker owned by a screen: its job, and whether it has been
/// signalled to stop.
#[derive(Debug)]
pub struct CancellableTask {
    pub job: Job,
    pub cancelled: bool,
}

impl CancellableTask {
    /// The task after a cancellation.
    pub open spec fn spec_cancelled(self) -> CancellableTask {
        CancellableTask { job: self.job, cancelled: true }
    }

    /// The signal a cancellation sends: one for a live task, none for a cancelled one.
    pub open spec fn cancel_signal(self) -> Option<Job> {
        if self.cancelled {
            None
        } else {
            Some(self.job)
        }
    }

    /// A live task for `job`, with the effect that starts its worker.
    pub fn start(job: Job) -> (r: (CancellableTask, Effect))
        ensures
            r.0 == (CancellableTask { job, cancelled: false }),
            r.1 == Effect::Start(job),
    {
        let e = Effect::Start(job.duplicate());
        (CancellableTask { job, cancelled: false }, e)
    }

    /// Signals the worker to stop. The first call gives the effect that stops it;
    /// later calls change nothing and give none.
    pub fn cancel(&mut self) -> (r: Option<Effect>)
        ensures
            *final(self) == old(self).spec_cancelled(),
            old(self).cancel_signal() is None ==> r is None,
            old(self).cancel_signal() matches Some(j) ==> r == Some(Effect::Cancel(j)),
    {
        if self.cancelled {
            None
        } else {
            self.cancelled = true;
            Some(Effect::Cancel(self.job.duplicate()))
        }
    }
}

/// Cancelling a task twice is cancelling it once: the second cancellation leaves
/// the task as it was and sends no signal.
pub proof fn lemma_cancel_idempotent(t: CancellableTask)
    ensures
        t.spec_cancelled().spec_cancelled() == t.spec_cancelled(),
        t.spec_cancelled().cancel_signal() is None,
{
}

} // verus!
