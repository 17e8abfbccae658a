//! The removal of expired requests: when it comes, what it does to memory, and that one task at
//! most is at it.

use crate::error::{AgentErrorView, AgentResult};
use crate::prover::BoundlessProver;
use crate::prover::{texts, ProverView, TTL_CLEANUP_INTERVAL_SECS};
use vstd::prelude::*;

verus! {

/// What the cleanup task does next. It never ends by itself.
#[derive(Clone, Copy, Debug, PartialEq, Eq, Structural)]
pub enum CleanupStep {
    /// Wait for a number of seconds, counted from where the last wait was due to end, or from the
    /// start of the task.
    Wait { secs: u64 },
    /// Have storage delete the expired requests.
    DeleteExpired,
}

/// What has happened to the cleanup task.
#[derive(Debug)]
pub enum CleanupEvent {
    /// It has started.
    Started,
    /// The wait is over.
    Waited,
    /// Storage has deleted the expired requests, or has failed.
    Deleted(AgentResult<Vec<String>>),
}

/// What an event of the cleanup task says.
#[verifier::ext_equal]
pub enum CleanupEventView {
    Started,
    Waited,
    Deleted(Result<Set<Seq<char>>, AgentErrorView>),
}

impl View for CleanupEvent {
    type V = CleanupEventView;

    open spec fn view(&self) -> CleanupEventView {
        match *self {
            CleanupEvent::Started => CleanupEventView::Started,
            CleanupEvent::Waited => CleanupEventView::Waited,
            CleanupEvent::Deleted(Ok(ids)) => CleanupEventView::Deleted(Ok(texts(ids@))),
            CleanupEvent::Deleted(Err(error)) => CleanupEventView::Deleted(Err(error@)),
        }
    }
}

impl ProverView {
    /// What is in memory after an event of the cleanup task, and what the task does next.
    pub open spec fn cleanup_stepped(self, event: CleanupEventView) -> (ProverView, CleanupStep) {
        match event {
            CleanupEventView::Started => (
                self,
                CleanupStep::Wait { secs: TTL_CLEANUP_INTERVAL_SECS },
            ),
            CleanupEventView::Waited => (self, CleanupStep::DeleteExpired),
            CleanupEventView::Deleted(Ok(ids)) => (
                self.cleaned_up(ids),
                CleanupStep::Wait { secs: TTL_CLEANUP_INTERVAL_SECS },
            ),
            CleanupEventView::Deleted(Err(_)) => (
                self,
                CleanupStep::Wait { secs: TTL_CLEANUP_INTERVAL_SECS },
            ),
        }
    }
}

impl BoundlessProver {
    /// Goes on after an event of the cleanup task: the requests that storage has deleted leave
    /// memory, and the task waits before each cleanup, the first one too.
    pub fn next_cleanup_step(&mut self, event: &CleanupEvent) -> (r: CleanupStep)
        ensures
            (final(self)@, r) == old(self)@.cleanup_stepped(event@),
    {
        match event {
            CleanupEvent::Started => CleanupStep::Wait { secs: TTL_CLEANUP_INTERVAL_SECS },
            CleanupEvent::Waited => CleanupStep::DeleteExpired,
            CleanupEvent::Deleted(deleted) => {
                self.finish_ttl_cleanup(deleted);
                CleanupStep::Wait { secs: TTL_CLEANUP_INTERVAL_SECS }
            },
        }
    }
}

/// The task that is kept running, of all that have been started.
pub struct RunningTask<H> {
    handle: Option<H>,
}

impl<H> View for RunningTask<H> {
    type V = Option<H>;

    closed spec fn view(&self) -> Option<H> {
        self.handle
    }
}

impl<H> RunningTask<H> {
    /// No task has been started yet.
    pub fn none() -> (r: Self)
        ensures
            r@ is None,
    {
        RunningTask { handle: None }
    }

    /// Keeps a task that has just been started, and hands out the one before it, which is to be
    /// ended.
    pub fn take_over(&mut self, started: H) -> (r: Option<H>)
        ensures
            final(self)@ == Some(started),
            r == old(self)@,
    {
        let mut handle = Some(started);
        std::mem::swap(&mut handle, &mut self.handle);
        handle
    }
}

/// What memory holds after a number of cleanups, given what storage answered to each.
pub open spec fn after_cleanups(
    prover: ProverView,
    answers: Seq<Result<Set<Seq<char>>, AgentErrorView>>,
) -> ProverView
    decreases answers.len(),
{
    if answers.len() == 0 {
        prover
    } else {
        after_cleanups(prover, answers.drop_last()).cleanup_stepped(
            CleanupEventView::Deleted(answers.last()),
        ).0
    }
}

/// The seconds that a step waits for.
pub open spec fn waited_secs(step: CleanupStep) -> nat {
    match step {
        CleanupStep::Wait { secs } => secs as nat,
        CleanupStep::DeleteExpired => 0,
    }
}

/// The seconds from the start of the task to the cleanup that comes after those whose answers are
/// given: all the waits before it together.
pub open spec fn cleanup_due(
    prover: ProverView,
    answers: Seq<Result<Set<Seq<char>>, AgentErrorView>>,
) -> nat
    decreases answers.len(),
{
    if answers.len() == 0 {
        waited_secs(prover.cleanup_stepped(CleanupEventView::Started).1)
    } else {
        cleanup_due(prover, answers.drop_last()) + waited_secs(
            after_cleanups(prover, answers.drop_last()).cleanup_stepped(
                CleanupEventView::Deleted(answers.last()),
            ).1,
        )
    }
}

/// Cleanups come at a fixed interval, the first one a whole interval after the start, whatever
/// storage answers: a failure does not end them.
pub proof fn law_cleanups_come_every_interval(
    prover: ProverView,
    answers: Seq<Result<Set<Seq<char>>, AgentErrorView>>,
)
    ensures
        cleanup_due(prover, answers) == (answers.len() + 1) * TTL_CLEANUP_INTERVAL_SECS,
        after_cleanups(prover, answers).cleanup_stepped(CleanupEventView::Waited) == (
            after_cleanups(prover, answers),
            CleanupStep::DeleteExpired,
        ),
    decreases answers.len(),
{
    if answers.len() > 0 {
        law_cleanups_come_every_interval(prover, answers.drop_last());
    }
}

/// Exactly the requests that storage says it has deleted leave memory, each of the others stays as
/// it is, and where storage fails nothing changes.
pub proof fn law_cleanups_remove_what_storage_deleted(
    prover: ProverView,
    answers: Seq<Result<Set<Seq<char>>, AgentErrorView>>,
    id: Seq<char>,
)
    ensures
        ({
            let after = after_cleanups(prover, answers);
            let deleted = exists|i: int|
                0 <= i < answers.len() && (#[trigger] answers[i] matches Ok(ids) && ids.contains(
                    id,
                ));
            &&& after.active.contains_key(id) <==> prover.active.contains_key(id) && !deleted
            &&& after.active.contains_key(id) ==> after.active[id] == prover.active[id]
            &&& after.poll_errors == prover.poll_errors
        }),
        answers.len() > 0 && answers.last() is Err ==> after_cleanups(prover, answers)
            == after_cleanups(prover, answers.drop_last()),
    decreases answers.len(),
{
    if answers.len() > 0 {
        let earlier = answers.drop_last();
        law_cleanups_remove_what_storage_deleted(prover, earlier, id);
        let last = answers.len() - 1;
        assert(answers[last] == answers.last());
        assert forall|i: int| 0 <= i < earlier.len() implies earlier[i] == #[trigger] answers[i] by {
        }
        if exists|i: int|
            0 <= i < earlier.len() && (#[trigger] earlier[i] matches Ok(ids) && ids.contains(id)) {
            let i = choose|i: int|
                0 <= i < earlier.len() && (#[trigger] earlier[i] matches Ok(ids) && ids.contains(
                    id,
                ));
            assert(answers[i] == earlier[i]);
        }
    }
}

/// The tasks that run after some more have been started one after the other, where the one that
/// was kept is ended each time that another takes over.
pub open spec fn running_after<H>(kept: Option<H>, running: Set<H>, started: Seq<H>) -> Set<H>
    decreases started.len(),
{
    if started.len() == 0 {
        running
    } else {
        let before = started.drop_last();
        let last_kept = if before.len() == 0 {
            kept
        } else {
            Some(before.last())
        };
        let running = running_after(kept, running, before);
        match last_kept {
            Some(ended) => running.remove(ended).insert(started.last()),
            None => running.insert(started.last()),
        }
    }
}

/// However many cleanup tasks are started, only the last of them keeps running.
pub proof fn law_one_cleanup_task_runs<H>(kept: Option<H>, running: Set<H>, started: Seq<H>)
    requires
        running == match kept {
            Some(handle) => set![handle],
            None => set![],
        },
        started.len() > 0,
    ensures
        running_after(kept, running, started) == set![started.last()],
    decreases started.len(),
{
    let before = started.drop_last();
    if before.len() > 0 {
        law_one_cleanup_task_runs(kept, running, before);
    } else {
        assert(running_after(kept, running, before) == running);
    }
    assert(running_after(kept, running, started) =~= set![started.last()]);
}

} // verus!
