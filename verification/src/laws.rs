//! What holds of the agent's memory whatever happens to the requests.

use crate::error::AgentErrorView;
use crate::market::{timed_out, PollView};
use crate::prover::{new_request, retry_refusal, ProverView, RunView};
use crate::submission::SubmitEventView;
use crate::types::{ProofType, RequestView, StatusView};
use crate::u256::U256;
use serde_json::Value;
use vstd::prelude::*;

verus! {

/// Memory holds no request that is done. It is so whatever is submitted, looked up, retried or put
/// on the market, and once storage has answered to a new status, to what a poll yielded or to a
/// timeout, whether it took the status or not.
pub proof fn law_memory_holds_only_active_requests(
    prover: ProverView,
    id: Seq<char>,
    request: RequestView,
    existing: Option<RequestView>,
    stored: Result<Option<RequestView>, AgentErrorView>,
    status: StatusView,
    outcome: Result<StatusView, AgentErrorView>,
    threshold: u32,
    took: bool,
    event: SubmitEventView,
    market_request_id: U256,
    deleted: Set<Seq<char>>,
)
    requires
        prover.only_active(),
        request.status is Preparing,
    ensures
        prover.run(request, existing).0.only_active(),
        prover.looked_up(id, stored).only_active(),
        prover.without_poll_errors(id).only_active(),
        prover.with_request(id, request.reset()).only_active(),
        prover.submitted(id, market_request_id).only_active(),
        prover.submit_stepped(id, event).0.only_active(),
        prover.status_noted(id, status).status_stored(id, status).only_active(),
        prover.status_noted(id, status).status_refused(id, status).only_active(),
        ({
            let (after, plan) = prover.polled(id, outcome, threshold);
            after.poll_stored(id, plan, took).only_active()
        }),
        prover.status_noted(id, timed_out()).status_stored(id, timed_out()).without_request(
            id,
        ).only_active(),
        prover.status_noted(id, timed_out()).without_request(id).only_active(),
        prover.cleaned_up(deleted).only_active(),
        (ProverView { active: Map::empty(), poll_errors: Map::empty(), ..prover }).only_active(),
{
}

/// What memory records of each request agrees with the request's status, and stays so whatever
/// happens to it, given that what storage hands out agrees too.
pub proof fn law_memory_stays_consistent(
    prover: ProverView,
    id: Seq<char>,
    request: RequestView,
    existing: Option<RequestView>,
    stored: Result<Option<RequestView>, AgentErrorView>,
    status: StatusView,
    outcome: Result<StatusView, AgentErrorView>,
    threshold: u32,
    took: bool,
    market_request_id: U256,
    deleted: Set<Seq<char>>,
)
    requires
        prover.only_active(),
        prover.all_consistent(),
        request.consistent(),
        existing matches Some(found) ==> found.consistent(),
        stored matches Ok(Some(found)) ==> found.consistent(),
    ensures
        prover.run(request, existing).0.all_consistent(),
        prover.looked_up(id, stored).all_consistent(),
        prover.with_request(id, request.reset()).all_consistent(),
        prover.submitted(id, market_request_id).all_consistent(),
        prover.status_noted(id, status).all_consistent(),
        prover.status_noted(id, status).status_stored(id, status).all_consistent(),
        prover.status_noted(id, status).status_refused(id, status).all_consistent(),
        ({
            let (after, plan) = prover.polled(id, outcome, threshold);
            &&& after.all_consistent()
            &&& after.poll_stored(id, plan, took).all_consistent()
        }),
        prover.status_noted(id, timed_out()).without_request(id).all_consistent(),
        prover.cleaned_up(deleted).all_consistent(),
{
}

/// Once a status that ends a request is stored, memory holds nothing of that request; where
/// storage refuses it, memory still does not hold the request.
pub proof fn law_done_request_is_forgotten(prover: ProverView, id: Seq<char>, status: StatusView)
    requires
        status.is_terminal(),
    ensures
        ({
            let after = prover.status_noted(id, status).status_stored(id, status);
            &&& !after.active.contains_key(id)
            &&& !after.poll_errors.contains_key(id)
        }),
        !prover.status_noted(id, status).status_refused(id, status).active.contains_key(id),
{
}

/// Whatever happens to one request leaves what memory holds of every other as it was.
pub proof fn law_other_requests_are_untouched(
    prover: ProverView,
    id: Seq<char>,
    other: Seq<char>,
    status: StatusView,
    outcome: Result<StatusView, AgentErrorView>,
    threshold: u32,
    took: bool,
    event: SubmitEventView,
    market_request_id: U256,
)
    requires
        other != id,
    ensures
        prover.holds_same_of(other, prover.status_noted(id, status)),
        prover.holds_same_of(other, prover.status_stored(id, status)),
        prover.holds_same_of(other, prover.status_refused(id, status)),
        prover.holds_same_of(other, prover.submitted(id, market_request_id)),
        prover.holds_same_of(other, prover.submit_stepped(id, event).0),
        ({
            let (after, plan) = prover.polled(id, outcome, threshold);
            &&& prover.holds_same_of(other, after)
            &&& prover.holds_same_of(other, after.poll_stored(id, plan, took))
        }),
{
}

/// A proof that is submitted again while its request is stored as it was accepted is answered by
/// that request, and nothing changes.
pub proof fn law_same_proof_is_requested_once(
    prover: ProverView,
    request_id: Seq<char>,
    other_id: Seq<char>,
    proof_type: ProofType,
    input: Seq<u8>,
    output: Seq<u8>,
    other_output: Seq<u8>,
    config: Value,
    other_config: Value,
)
    ensures
        ({
            let first = new_request(request_id, proof_type, input, output, config);
            let again = new_request(other_id, proof_type, input, other_output, other_config);
            let (after, answer) = prover.run(first, None);
            &&& answer == RunView::New { request: first }
            &&& after.run(again, Some(first)) == (after, RunView::Existing { request_id })
        }),
{
}

/// A submitted proof gets a new request exactly where storage holds none for the same input, or
/// one that has failed; any other answers it, and is then in memory unless it is fulfilled.
pub proof fn law_new_request_only_where_none_serves(
    prover: ProverView,
    request: RequestView,
    existing: Option<RequestView>,
)
    ensures
        prover.run(request, existing).1 is New <==> (existing matches Some(found) ==> found.status is
            Failed),
        existing matches Some(found) ==> (!(found.status is Failed) ==> prover.run(
            request,
            existing,
        ).1.request_id() == found.request_id),
        existing matches Some(found) ==> (!found.status.is_terminal() ==> prover.run(
            request,
            existing,
        ).0.active.contains_key(found.request_id)),
{
}

/// A request can be retried exactly where storage holds it as failed. The retried request asks
/// for the same proof as before, is the same as a newly accepted one, and cannot be retried again
/// before it fails again.
pub proof fn law_retry_starts_the_same_request_over(id: Seq<char>, request: RequestView)
    ensures
        retry_refusal(id, Ok(Some(request))) is None <==> request.status is Failed,
        request.reset() == new_request(
            request.request_id,
            request.proof_type,
            request.input,
            request.output,
            request.config,
        ),
        retry_refusal(id, Ok(Some(request.reset()))) is Some,
        retry_refusal(id, Ok(None)) is Some,
{
}

/// After storage was asked for a request, memory holds the stored request where it is not done,
/// and no request of that id where it is.
pub proof fn law_memory_follows_storage(prover: ProverView, id: Seq<char>, request: RequestView)
    ensures
        ({
            let after = prover.looked_up(id, Ok(Some(request)));
            if request.status.is_terminal() {
                !after.active.contains_key(id)
            } else {
                after.active.contains_key(id) && after.active[id] == request
            }
        }),
{
}

/// Where memory holds no request that is done, the list of active requests is all that it holds.
pub proof fn law_active_list_is_complete(
    prover: ProverView,
    requests: Seq<RequestView>,
    ids: Seq<Seq<char>>,
)
    requires
        prover.lists_active_as(requests, ids),
    ensures
        forall|i: int|
            0 <= i < requests.len() ==> !(#[trigger] requests[i]).status.is_terminal(),
        prover.only_active() ==> ids.to_set() == prover.active.dom(),
{
    assert forall|i: int| 0 <= i < requests.len() implies !(
    #[trigger] requests[i]).status.is_terminal() by {
        assert(ids.contains(ids[i]));
        assert(prover.active.contains_key(ids[i]));
    }
    if prover.only_active() {
        assert forall|id: Seq<char>| ids.to_set().contains(id) <==> prover.active.dom().contains(
            id,
        ) by {
            assert(prover.active.contains_key(id) ==> ids.contains(id));
        }
        assert(ids.to_set() =~= prover.active.dom());
    }
}

/// What memory holds after the polls of a request have failed one after the other, the last of
/// them with the last error.
pub open spec fn after_failed_polls(
    prover: ProverView,
    id: Seq<char>,
    errors: Seq<AgentErrorView>,
    threshold: u32,
) -> ProverView
    decreases errors.len(),
{
    if errors.len() == 0 {
        prover
    } else {
        after_failed_polls(prover, id, errors.drop_last(), threshold).polled(
            id,
            Err(errors.last()),
            threshold,
        ).0
    }
}

/// Polls that fail in a row are tolerated up to the threshold: before it, nothing becomes of the
/// request and it is polled again; the failure that reaches the threshold marks it as failed and
/// ends the polling.
pub proof fn law_polls_in_a_row_are_tolerated_up_to_the_threshold(
    prover: ProverView,
    id: Seq<char>,
    errors: Seq<AgentErrorView>,
    error: AgentErrorView,
    threshold: u32,
)
    requires
        prover.poll_error_count(id) == 0,
        errors.len() < threshold,
    ensures
        ({
            let before = after_failed_polls(prover, id, errors, threshold);
            let plan = before.polled(id, Err(error), threshold).1;
            &&& before.poll_error_count(id) == errors.len()
            &&& before.active == prover.active
            &&& errors.len() + 1 < threshold ==> plan is Wait && plan.keeps_polling()
            &&& errors.len() + 1 == threshold ==> plan is GiveUp && !plan.keeps_polling() && (
            plan.status() matches Some(status) && status is Failed)
        }),
    decreases errors.len(),
{
    if errors.len() > 0 {
        law_polls_in_a_row_are_tolerated_up_to_the_threshold(
            prover,
            id,
            errors.drop_last(),
            errors.last(),
            threshold,
        );
    }
}

/// A poll that succeeds starts the count of failed polls anew.
pub proof fn law_successful_poll_forgives_failures(
    prover: ProverView,
    id: Seq<char>,
    status: StatusView,
    threshold: u32,
)
    ensures
        prover.polled(id, Ok(status), threshold).0.poll_error_count(id) == 0,
        prover.polled(id, Ok(status), threshold).1 == PollView::Report(status),
{
}

/// Polling goes on exactly until there is a status to store that ends the request.
pub proof fn law_polling_ends_with_the_request(
    prover: ProverView,
    id: Seq<char>,
    outcome: Result<StatusView, AgentErrorView>,
    threshold: u32,
)
    ensures
        ({
            let plan = prover.polled(id, outcome, threshold).1;
            plan.keeps_polling() <==> (plan.status() matches Some(status) ==> !status.is_terminal())
        }),
{
}

} // verus!
