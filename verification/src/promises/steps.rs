//! What the calls that take a request to the market, and those of the cleanup task, promise.

use crate::cleanup::{CleanupEvent, CleanupStep, RunningTask};
use crate::error::AgentError;
use crate::offer::RequestTerms;
use crate::promises::memory::{count_kept, others_kept, same_task, settings_kept};
use crate::prover::BoundlessProver;
use crate::submission::{build_failure, SubmitEvent, SubmitStep};
use crate::types::{ProofRequestStatus, StatusView};
use vstd::prelude::*;

verus! {

/// Whether some terms are the same as others in every field.
pub open spec fn same_terms(a: RequestTerms, b: RequestTerms) -> bool {
    &&& a.image_id@ == b.image_id@
    &&& a.cycles == b.cycles
    &&& a.journal@ == b.journal@
    &&& a.ramp_up_period == b.ramp_up_period
    &&& a.lock_timeout == b.lock_timeout
    &&& a.timeout == b.timeout
    &&& a.max_price@ == b.max_price@
    &&& a.lock_collateral@ == b.lock_collateral@
    &&& a.bidding_start == b.bidding_start
}

/// Each step hands on what the one before it came to: the very bytes that were encoded are
/// uploaded, the request is built on the very terms that were made, it is submitted the way that
/// the settings say, and the very id that the market gave is stored and polled.
pub proof fn law_steps_hand_on_what_came_before(
    prover: &mut BoundlessProver,
    id: &str,
    event: SubmitEvent,
    r: SubmitStep,
)
    requires
        call_ensures(BoundlessProver::next_submit_step, (prover, id, event), r),
    ensures
        event matches SubmitEvent::Connected(Ok(())) ==> r is EncodeInput,
        event matches SubmitEvent::Encoded(Ok(bytes)) ==> (r matches SubmitStep::UploadInput {
            env_bytes,
        } && env_bytes@ == bytes@),
        event matches SubmitEvent::Uploaded(Ok(())) ==> (r matches SubmitStep::MakeTerms { mcycles }
            && mcycles == 6000),
        event matches SubmitEvent::TermsMade(Ok(made)) ==> (r matches SubmitStep::BuildRequest {
            terms,
        } && same_terms(terms, made)),
        event matches SubmitEvent::Built(Ok(())) ==> (r matches SubmitStep::SubmitRequest { route }
            && (route is Offchain <==> old(prover).config.offchain)),
        event matches SubmitEvent::Submitted(Ok(given)) ==> (r matches SubmitStep::StoreStatus {
            market_request_id,
            status,
        } && market_request_id == given && (status matches ProofRequestStatus::Submitted {
            market_request_id: stored,
        } && stored == given)),
        event matches SubmitEvent::StatusStored { market_request_id: given, .. } ==> (
        r matches SubmitStep::Poll { market_request_id } && market_request_id == given),
{
}

/// A step that failed ends the submission with an error that tells the step and the reason, and
/// nothing changes. A status that could not be stored ends nothing.
pub proof fn law_failed_step_ends_the_submission(
    prover: &mut BoundlessProver,
    id: &str,
    event: SubmitEvent,
    shown: String,
    r: SubmitStep,
)
    requires
        call_ensures(BoundlessProver::next_submit_step, (prover, id, event), r),
        event matches SubmitEvent::TermsMade(Err(error)) ==> call_ensures(
            AgentError::message,
            (&error,),
            shown,
        ),
        event matches SubmitEvent::Submitted(Err(error)) ==> call_ensures(
            AgentError::message,
            (&error,),
            shown,
        ),
    ensures
        event matches SubmitEvent::Connected(Err(error)) ==> (r matches SubmitStep::Fail(same)
            && same@ == error@),
        event matches SubmitEvent::Encoded(Err(reason)) ==> (r matches SubmitStep::Fail(
            AgentError::GuestEnvEncodeError(text),
        ) && text@ == "Failed to process input: "@ + ("Failed to build boundless client: "@ + (
        "Failed to encode guest environment: "@ + reason@))),
        event matches SubmitEvent::Uploaded(Err(reason)) ==> (r matches SubmitStep::Fail(
            AgentError::UploadError(text),
        ) && text@ == "Failed to upload input: "@ + reason@),
        event matches SubmitEvent::TermsMade(Err(_)) ==> (r matches SubmitStep::Fail(
            AgentError::RequestBuildError(text),
        ) && text@ == "Failed to build request: "@ + shown@),
        event matches SubmitEvent::Built(Err(reason)) ==> (r matches SubmitStep::Fail(
            AgentError::RequestBuildError(text),
        ) && text@ == "Failed to build request: "@ + ("Failed to build boundless client: "@ + (
        "Failed to build request: "@ + reason@))),
        event matches SubmitEvent::Submitted(Err(_)) ==> (r matches SubmitStep::Fail(
            AgentError::RequestSubmitError(text),
        ) && text@ == "Failed to submit to market: "@ + shown@),
        r is Fail ==> final(prover)@ == old(prover)@,
        event is StatusStored ==> !(r is Fail),
{
}

/// A submission changes memory only where the request got onto the market: then the request has the
/// market's id on record and as its status, and is otherwise as it was.
pub proof fn law_submission_records_the_market_id(
    prover: &mut BoundlessProver,
    id: &str,
    event: SubmitEvent,
    r: SubmitStep,
)
    requires
        call_ensures(BoundlessProver::next_submit_step, (prover, id, event), r),
    ensures
        event matches SubmitEvent::Submitted(Ok(given)) ==> {
            &&& final(prover)@.active.contains_key(id@) <==> old(prover)@.active.contains_key(id@)
            &&& old(prover)@.active.contains_key(id@) ==> ({
                let before = old(prover)@.active[id@];
                let after = final(prover)@.active[id@];
                &&& same_task(after, before)
                &&& after.market_request_id == given
                &&& after.status == (StatusView::Submitted { market_request_id: given })
                &&& after.last_error == before.last_error
            })
            &&& others_kept(old(prover)@, final(prover)@, id@)
            &&& count_kept(old(prover)@, final(prover)@, id@)
        },
        !(event matches SubmitEvent::Submitted(Ok(_))) ==> final(prover)@ == old(prover)@,
{
}

/// The error of a request that could not be built tells the reason.
pub proof fn law_build_failure_tells_the_reason(detail: &str, r: AgentError)
    requires
        call_ensures(build_failure, (detail,), r),
    ensures
        r matches AgentError::ClientBuildError(text) && text@ == "Failed to build request: "@
            + detail@,
{
}

/// The cleanup task waits three hours at its start and after each cleanup, whatever that came to,
/// and cleans up after each wait; what storage has deleted leaves memory, and nothing else does.
pub proof fn law_cleanup_waits_three_hours(
    prover: &mut BoundlessProver,
    event: CleanupEvent,
    r: CleanupStep,
    id: Seq<char>,
)
    requires
        call_ensures(BoundlessProver::next_cleanup_step, (prover, &event), r),
    ensures
        event is Waited <==> r is DeleteExpired,
        r matches CleanupStep::Wait { secs } ==> secs == 3 * 3600,
        ({
            let deleted = event matches CleanupEvent::Deleted(Ok(ids)) && exists|i: int|
                0 <= i < ids@.len() && #[trigger] ids@[i]@ == id;
            final(prover)@.active.contains_key(id) <==> old(prover)@.active.contains_key(id)
                && !deleted
        }),
        final(prover)@.active.contains_key(id) ==> final(prover)@.active[id] == old(prover)@.active[id],
        final(prover)@.poll_errors == old(prover)@.poll_errors,
        settings_kept(old(prover)@, final(prover)@),
{
}

/// Of two tasks that are started one after the other, the first is handed out to be ended when the
/// second takes over.
pub proof fn law_next_task_takes_over<H>(
    running: &mut RunningTask<H>,
    later: &mut RunningTask<H>,
    none: RunningTask<H>,
    first: H,
    second: H,
    before: Option<H>,
    ended: Option<H>,
)
    requires
        call_ensures(RunningTask::<H>::none, (), none),
        *old(running) == none,
        call_ensures(RunningTask::<H>::take_over, (running, first), before),
        *old(later) == *final(running),
        call_ensures(RunningTask::<H>::take_over, (later, second), ended),
    ensures
        before is None,
        ended == Some(first),
        final(later)@ == Some(second),
{
}

} // verus!
