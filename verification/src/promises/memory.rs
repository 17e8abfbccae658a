//! What the calls on the requests in memory promise.

use crate::error::{AgentError, AgentResult};
use crate::prover::{BoundlessProver, ProverView, RunPlan};
use crate::text::decimal;
use crate::types::{AsyncProofRequest, ProofRequestStatus, ProofType, RequestView, StatusView};
use crate::u256::U256;
use crate::market::{PollPlan, POLLING_TIMEOUT_SECS};
use serde_json::Value;
use vstd::prelude::*;

verus! {

/// Whether the settings of the agent are the same before and after.
pub open spec fn settings_kept(before: ProverView, after: ProverView) -> bool {
    &&& after.config == before.config
    &&& after.deployment == before.deployment
    &&& after.boundless_config == before.boundless_config
}

/// Whether memory holds the same of every request but one, and the settings are the same.
pub open spec fn others_kept(before: ProverView, after: ProverView, id: Seq<char>) -> bool {
    &&& settings_kept(before, after)
    &&& forall|other: Seq<char>|
        #![trigger after.active.contains_key(other)]
        #![trigger before.active.contains_key(other)]
        other != id ==> (after.active.contains_key(other) <==> before.active.contains_key(other))
            && (before.active.contains_key(other) ==> after.active[other] == before.active[other])
    &&& forall|other: Seq<char>|
        #![trigger after.poll_errors.contains_key(other)]
        #![trigger before.poll_errors.contains_key(other)]
        other != id ==> (after.poll_errors.contains_key(other) <==> before.poll_errors.contains_key(
            other,
        )) && (before.poll_errors.contains_key(other) ==> after.poll_errors[other]
            == before.poll_errors[other])
}

/// Whether what memory counts of failed polls of a request is the same before and after.
pub open spec fn count_kept(before: ProverView, after: ProverView, id: Seq<char>) -> bool {
    &&& after.poll_errors.contains_key(id) <==> before.poll_errors.contains_key(id)
    &&& before.poll_errors.contains_key(id) ==> after.poll_errors[id] == before.poll_errors[id]
}

/// Whether what memory holds of a request is the same before and after, but for the failed polls.
pub open spec fn request_kept(before: ProverView, after: ProverView, id: Seq<char>) -> bool {
    &&& after.active.contains_key(id) <==> before.active.contains_key(id)
    &&& before.active.contains_key(id) ==> after.active[id] == before.active[id]
}

/// Whether memory holds a request under an id.
pub open spec fn holds(prover: ProverView, id: Seq<char>, request: RequestView) -> bool {
    prover.active.contains_key(id) && prover.active[id] == request
}

/// Whether a request asks for the proof that was submitted, under the id that was given, and
/// nothing has become of it yet.
pub open spec fn is_as_submitted(
    request: RequestView,
    id: Seq<char>,
    proof_type: ProofType,
    input: Seq<u8>,
    output: Seq<u8>,
    config: Value,
) -> bool {
    &&& request.request_id == id
    &&& request.proof_type == proof_type
    &&& request.input == input
    &&& request.output == output
    &&& request.config == config
    &&& request.status is Preparing
    &&& request.market_request_id@ == 0
    &&& request.last_error is None
}

/// Whether a request is the same as another but for what has become of it.
pub open spec fn same_task(a: RequestView, b: RequestView) -> bool {
    &&& a.request_id == b.request_id
    &&& a.proof_type == b.proof_type
    &&& a.input == b.input
    &&& a.output == b.output
    &&& a.config == b.config
}

/// Whether a request has a status and what the status carries, and is otherwise as it was.
pub open spec fn has_status(after: RequestView, before: RequestView, status: StatusView) -> bool {
    &&& same_task(after, before)
    &&& after.status == status
    &&& match status {
        StatusView::Submitted { market_request_id } => after.market_request_id == market_request_id,
        StatusView::Locked { market_request_id, .. } => after.market_request_id
            == market_request_id,
        StatusView::Fulfilled { market_request_id, .. } => after.market_request_id
            == market_request_id,
        _ => after.market_request_id == before.market_request_id,
    }
    &&& match status {
        StatusView::Failed { error } => after.last_error == Some(error),
        _ => after.last_error is None,
    }
}

/// Whether a status ends a request.
pub open spec fn ends(status: StatusView) -> bool {
    status is Fulfilled || status is Failed
}

/// What the answer to a submitted proof is, given what storage holds for the same input: a new
/// request that is exactly what was submitted where there is none or a failed one, whatever the
/// failed one asked for; else the one that is there, which memory then holds unless it is done.
pub open spec fn answered(
    before: ProverView,
    after: ProverView,
    plan: RunPlan,
    id: Seq<char>,
    proof_type: ProofType,
    input: Seq<u8>,
    output: Seq<u8>,
    config: Value,
    existing: Option<AsyncProofRequest>,
) -> bool {
    match existing {
        Some(found) if !(found.status is Failed) => {
            &&& plan matches RunPlan::Existing { request_id } && request_id@ == found.request_id@
            &&& others_kept(before, after, found.request_id@)
            &&& count_kept(before, after, found.request_id@)
            &&& if found.status is Fulfilled || before.active.contains_key(found.request_id@) {
                request_kept(before, after, found.request_id@)
            } else {
                holds(after, found.request_id@, found@)
            }
        },
        _ => {
            &&& plan matches RunPlan::New { request } && is_as_submitted(
                request@,
                id,
                proof_type,
                input,
                output,
                config,
            ) && holds(after, id, request@)
            &&& others_kept(before, after, id)
            &&& count_kept(before, after, id)
        },
    }
}

/// A submitted batch proof is answered by the request that serves it, new or known; where storage
/// fails, its error is handed on and nothing changes.
pub proof fn law_batch_is_answered(
    prover: &mut BoundlessProver,
    id: String,
    input: Vec<u8>,
    output: Vec<u8>,
    config: Value,
    existing: AgentResult<Option<AsyncProofRequest>>,
    r: AgentResult<RunPlan>,
)
    requires
        call_ensures(
            BoundlessProver::batch_run,
            (prover, id, input, output, &config, existing),
            r,
        ),
    ensures
        match existing {
            Ok(found) => r matches Ok(plan) && answered(
                old(prover)@,
                final(prover)@,
                plan,
                id@,
                ProofType::Batch,
                input@,
                output@,
                config,
                found,
            ),
            Err(error) => (r matches Err(same) && same@ == error@) && final(prover)@
                == old(prover)@,
        },
{
}

/// A submitted aggregation proof is answered by the request that serves it, new or known; where
/// storage fails, its error is handed on and nothing changes.
pub proof fn law_aggregation_is_answered(
    prover: &mut BoundlessProver,
    id: String,
    input: Vec<u8>,
    output: Vec<u8>,
    config: Value,
    existing: AgentResult<Option<AsyncProofRequest>>,
    r: AgentResult<RunPlan>,
)
    requires
        call_ensures(
            BoundlessProver::aggregate,
            (prover, id, input, output, &config, existing),
            r,
        ),
    ensures
        match existing {
            Ok(found) => r matches Ok(plan) && answered(
                old(prover)@,
                final(prover)@,
                plan,
                id@,
                ProofType::Aggregate,
                input@,
                output@,
                config,
                found,
            ),
            Err(error) => (r matches Err(same) && same@ == error@) && final(prover)@
                == old(prover)@,
        },
{
}

/// An answer names the request that it is about.
pub proof fn law_answer_names_its_request(plan: RunPlan, r: String)
    requires
        call_ensures(RunPlan::request_id, (&plan,), r),
    ensures
        plan matches RunPlan::Existing { request_id } ==> r@ == request_id@,
        plan matches RunPlan::New { request } ==> r@ == request.request_id@,
{
}

/// A request that is accepted is exactly what was submitted, and memory holds it.
pub proof fn law_accepted_request_is_as_submitted(
    prover: &mut BoundlessProver,
    id: String,
    proof_type: ProofType,
    input: Vec<u8>,
    output: Vec<u8>,
    config: Value,
    r: AsyncProofRequest,
)
    requires
        call_ensures(
            BoundlessProver::prepare_async_request,
            (prover, id, proof_type, input, output, &config),
            r,
        ),
    ensures
        is_as_submitted(r@, id@, proof_type, input@, output@, config),
        holds(final(prover)@, id@, r@),
        others_kept(old(prover)@, final(prover)@, id@),
        count_kept(old(prover)@, final(prover)@, id@),
{
}

/// What is asked of memory is what memory holds.
pub proof fn law_memory_is_told(
    prover: BoundlessProver,
    id: &str,
    r: Option<&AsyncProofRequest>,
    count: u32,
)
    requires
        call_ensures(BoundlessProver::cached, (&prover, id), r),
        call_ensures(BoundlessProver::poll_error_count, (&prover, id), count),
    ensures
        match r {
            Some(request) => holds(prover@, id@, request@),
            None => !prover@.active.contains_key(id@),
        },
        prover.poll_error_counts@.contains_key(id@) ==> count == prover.poll_error_counts@[id@],
        !prover.poll_error_counts@.contains_key(id@) ==> count == 0,
{
}

/// A request is taken up again exactly where storage holds it as failed: the same task, with
/// nothing become of it, and no failed polls on record. Otherwise the reason is told and nothing
/// changes.
pub proof fn law_failed_request_is_taken_up_again(
    prover: &mut BoundlessProver,
    id: &str,
    stored: AgentResult<Option<AsyncProofRequest>>,
    r: AgentResult<AsyncProofRequest>,
)
    requires
        call_ensures(BoundlessProver::retry_failed_request, (prover, id, stored), r),
    ensures
        r is Ok <==> (stored matches Ok(Some(found)) && found.status is Failed),
        r matches Ok(request) ==> (stored matches Ok(Some(found)) && is_as_submitted(
            request@,
            found.request_id@,
            found.proof_type,
            found.input@,
            found.output@,
            found.config,
        )) && !final(prover)@.poll_errors.contains_key(id@) && request_kept(
            old(prover)@,
            final(prover)@,
            id@,
        ) && others_kept(old(prover)@, final(prover)@, id@),
        r is Err ==> final(prover)@ == old(prover)@,
        stored matches Err(error) ==> (r matches Err(same) && same@ == error@),
        stored matches Ok(None) ==> (r matches Err(AgentError::RetryError(text)) && text@
            == "Request "@ + id@ + " not found"@),
        stored matches Ok(Some(found)) ==> (!(found.status is Failed) ==> (r matches Err(
            AgentError::RetryError(text),
        ) && text@ == "Request "@ + id@ + " is not in a failed state"@)),
{
}

/// A request that was taken up again is in memory once it is stored, and not before.
pub proof fn law_retried_request_is_held_once_stored(
    prover: &mut BoundlessProver,
    id: &str,
    request: AsyncProofRequest,
    stored: AgentResult<()>,
    r: AgentResult<String>,
)
    requires
        call_ensures(BoundlessProver::finish_retry, (prover, id, &request, stored), r),
    ensures
        stored is Ok ==> (r matches Ok(same) && same@ == id@) && holds(
            final(prover)@,
            id@,
            request@,
        ) && others_kept(old(prover)@, final(prover)@, id@) && count_kept(
            old(prover)@,
            final(prover)@,
            id@,
        ),
        stored matches Err(error) ==> (r matches Err(same) && same@ == error@) && final(prover)@
            == old(prover)@,
{
}

/// The request that storage holds is the one that is told, and memory holds it exactly where it is
/// not done. Where storage has none or fails, memory tells what it holds, and nothing changes.
pub proof fn law_storage_tells_before_memory(
    prover: &mut BoundlessProver,
    id: &str,
    stored: AgentResult<Option<AsyncProofRequest>>,
    r: Option<AsyncProofRequest>,
)
    requires
        call_ensures(BoundlessProver::get_request_status, (prover, id, stored), r),
    ensures
        match stored {
            Ok(Some(found)) => {
                &&& r matches Some(told) && told@ == found@
                &&& if found.status is Fulfilled || found.status is Failed {
                    !final(prover)@.active.contains_key(id@)
                } else {
                    holds(final(prover)@, id@, found@)
                }
                &&& others_kept(old(prover)@, final(prover)@, id@)
                &&& count_kept(old(prover)@, final(prover)@, id@)
            },
            _ => {
                &&& match r {
                    Some(told) => holds(old(prover)@, id@, told@),
                    None => !old(prover)@.active.contains_key(id@),
                }
                &&& final(prover)@ == old(prover)@
            },
        },
{
}

/// Where storage lists the active requests its list is told. Where it fails, every request that
/// memory holds and that is not done is told, once, and no other.
pub proof fn law_active_requests_are_listed(
    prover: BoundlessProver,
    stored: AgentResult<Vec<AsyncProofRequest>>,
    r: Vec<AsyncProofRequest>,
    id: Seq<char>,
)
    requires
        call_ensures(BoundlessProver::list_active_requests, (&prover, stored), r),
    ensures
        stored matches Ok(listed) ==> r@ == listed@,
        stored is Err ==> {
            &&& prover@.active.contains_key(id) && !ends(prover@.active[id].status) ==> exists|i: int|
                0 <= i < r@.len() && #[trigger] r@[i]@ == prover@.active[id]
            &&& forall|i: int|
                0 <= i < r@.len() ==> !ends((#[trigger] r@[i]).status@) && exists|key: Seq<char>| #[trigger]
                    holds(prover@, key, r@[i]@)
        },
{
    if stored is Err {
        let requests = r@.map_values(|request: AsyncProofRequest| request@);
        assert(prover@.lists_active(requests));
        let ids = choose|ids: Seq<Seq<char>>| #[trigger] prover@.lists_active_as(requests, ids);
        if prover@.active.contains_key(id) && !ends(prover@.active[id].status) {
            assert(ids.contains(id));
            let i = choose|i: int| 0 <= i < ids.len() && ids[i] == id;
            assert(requests[i] == r@[i]@);
            assert(prover@.active.contains_key(ids[i]));
        }
        assert forall|i: int| 0 <= i < r@.len() implies !ends((#[trigger] r@[i]).status@) && exists|
            key: Seq<char>,
        | #[trigger] holds(prover@, key, r@[i]@) by {
            assert(requests[i] == r@[i]@);
            assert(ids.contains(ids[i]));
            assert(prover@.active.contains_key(ids[i]));
            assert(holds(prover@, ids[i], r@[i]@));
        }
    }
}

/// The fallback list tells no request twice: it is as long as there are requests in memory that
/// are not done.
pub proof fn law_active_requests_are_listed_once(
    prover: BoundlessProver,
    stored: AgentResult<Vec<AsyncProofRequest>>,
    r: Vec<AsyncProofRequest>,
)
    requires
        call_ensures(BoundlessProver::list_active_requests, (&prover, stored), r),
        stored is Err,
    ensures
        exists|ids: Seq<Seq<char>>|
            #![trigger ids.no_duplicates()]
            ids.no_duplicates() && ids.len() == r@.len() && forall|i: int|
                0 <= i < r@.len() ==> holds(prover@, #[trigger] ids[i], r@[i]@),
{
    let requests = r@.map_values(|request: AsyncProofRequest| request@);
    assert(prover@.lists_active(requests));
    let ids = choose|ids: Seq<Seq<char>>| #[trigger] prover@.lists_active_as(requests, ids);
    assert(ids.no_duplicates());
    assert forall|i: int| 0 <= i < r@.len() implies holds(prover@, #[trigger] ids[i], r@[i]@) by {
        assert(requests[i] == r@[i]@);
        assert(prover@.active.contains_key(ids[i]));
    }
}

/// Once storage has deleted all requests memory holds nothing, and the number is handed on; where
/// storage fails nothing changes.
pub proof fn law_all_requests_are_deleted(
    prover: &mut BoundlessProver,
    deleted: AgentResult<usize>,
    r: AgentResult<usize>,
    id: Seq<char>,
)
    requires
        call_ensures(BoundlessProver::delete_all_requests, (prover, deleted), r),
    ensures
        deleted matches Ok(n) ==> (r matches Ok(m) && m == n) && !final(prover)@.active.contains_key(id) && !final(prover)@.poll_errors.contains_key(id),
        deleted matches Err(error) ==> (r matches Err(same) && same@ == error@) && final(prover)@
            == old(prover)@,
        settings_kept(old(prover)@, final(prover)@),
{
}

/// A new status is on record of a request that memory holds, with what it carries; no request gets
/// into memory by a status.
pub proof fn law_new_status_is_noted(
    prover: &mut BoundlessProver,
    id: &str,
    status: ProofRequestStatus,
)
    requires
        call_ensures(BoundlessProver::begin_status_update, (prover, id, &status), ()),
    ensures
        final(prover)@.active.contains_key(id@) <==> old(prover)@.active.contains_key(id@),
        old(prover)@.active.contains_key(id@) ==> has_status(
            final(prover)@.active[id@],
            old(prover)@.active[id@],
            status@,
        ),
        others_kept(old(prover)@, final(prover)@, id@),
        count_kept(old(prover)@, final(prover)@, id@),
{
}

/// Once storage has answered, a request that is done is not in memory, and any other is as it was.
/// The failed polls of a request that is done are forgotten where storage took the status; where it
/// did not, its error is told.
pub proof fn law_answered_update_leaves_no_done_request(
    prover: &mut BoundlessProver,
    id: &str,
    status: ProofRequestStatus,
    stored: AgentResult<()>,
    shown: String,
    r: AgentResult<()>,
)
    requires
        call_ensures(BoundlessProver::finish_status_update, (prover, id, &status, stored), r),
        stored matches Err(error) ==> call_ensures(AgentError::message, (&error,), shown),
    ensures
        stored is Ok <==> r is Ok,
        stored is Err ==> (r matches Err(AgentError::ClientBuildError(text)) && text@
            == "Storage update failed: "@ + shown@),
        ends(status@) ==> !final(prover)@.active.contains_key(id@),
        !ends(status@) ==> request_kept(old(prover)@, final(prover)@, id@),
        ends(status@) && stored is Ok ==> !final(prover)@.poll_errors.contains_key(id@),
        !ends(status@) || stored is Err ==> count_kept(old(prover)@, final(prover)@, id@),
        others_kept(old(prover)@, final(prover)@, id@),
{
}

/// Expired requests leave memory exactly where storage has deleted them.
pub proof fn law_expired_requests_leave_memory(
    prover: &mut BoundlessProver,
    deleted: AgentResult<Vec<String>>,
    id: Seq<char>,
)
    requires
        call_ensures(BoundlessProver::finish_ttl_cleanup, (prover, &deleted), ()),
    ensures
        deleted is Err ==> final(prover)@ == old(prover)@,
        deleted matches Ok(ids) ==> (final(prover)@.active.contains_key(id) <==> old(prover)@.active.contains_key(id) && !exists|i: int|
            0 <= i < ids@.len() && #[trigger] ids@[i]@ == id),
        final(prover)@.active.contains_key(id) ==> final(prover)@.active[id] == old(prover)@.active[id],
        final(prover)@.poll_errors == old(prover)@.poll_errors,
        settings_kept(old(prover)@, final(prover)@),
{
}

/// Forgetting the failed polls of a request touches nothing else.
pub proof fn law_failed_polls_are_forgotten(prover: &mut BoundlessProver, id: &str)
    requires
        call_ensures(BoundlessProver::clear_poll_errors, (prover, id), ()),
    ensures
        !final(prover)@.poll_errors.contains_key(id@),
        request_kept(old(prover)@, final(prover)@, id@),
        others_kept(old(prover)@, final(prover)@, id@),
{
}

/// A failed poll counts one more, and touches nothing else.
pub proof fn law_failed_poll_counts_once(
    prover: &mut BoundlessProver,
    id: &str,
    before: u32,
    r: u32,
)
    requires
        call_ensures(BoundlessProver::poll_error_count, (&*old(prover), id), before),
        call_ensures(BoundlessProver::record_poll_error, (prover, id), r),
        before < u32::MAX,
    ensures
        r == before + 1,
        final(prover)@.poll_errors.contains_key(id@) && final(prover)@.poll_errors[id@] == r,
        request_kept(old(prover)@, final(prover)@, id@),
        others_kept(old(prover)@, final(prover)@, id@),
{
}

/// A poll that succeeded is reported as it is and forgives the failures before it. One that failed
/// is counted; below the threshold the request is left as it is and there is nothing to store, and
/// from the threshold on it has failed, with a text that tells the threshold and the last error.
pub proof fn law_poll_is_reported_counted_or_given_up(
    prover: &mut BoundlessProver,
    id: &str,
    outcome: AgentResult<ProofRequestStatus>,
    threshold: u32,
    before: u32,
    shown: String,
    r: PollPlan,
)
    requires
        call_ensures(BoundlessProver::poll_error_count, (&*old(prover), id), before),
        call_ensures(BoundlessProver::begin_poll, (prover, id, outcome, threshold), r),
        outcome matches Err(error) ==> call_ensures(AgentError::message, (&error,), shown),
        before < u32::MAX,
    ensures
        others_kept(old(prover)@, final(prover)@, id@),
        outcome matches Ok(status) ==> {
            &&& r matches PollPlan::Report(reported) && reported@ == status@
            &&& !final(prover)@.poll_errors.contains_key(id@)
            &&& final(prover)@.active.contains_key(id@) <==> old(prover)@.active.contains_key(id@)
            &&& old(prover)@.active.contains_key(id@) ==> has_status(
                final(prover)@.active[id@],
                old(prover)@.active[id@],
                status@,
            )
        },
        outcome is Err ==> final(prover)@.poll_errors.contains_key(id@) && final(prover)@.poll_errors[id@] == before + 1,
        outcome is Err && before + 1 < threshold ==> r is Wait && request_kept(
            old(prover)@,
            final(prover)@,
            id@,
        ),
        outcome is Err && before + 1 >= threshold ==> {
            &&& r matches PollPlan::GiveUp(ProofRequestStatus::Failed { error }) && error@
                == "Polling error threshold exceeded ("@ + decimal(threshold as nat)
                + " consecutive errors). Last error: "@ + shown@
            &&& final(prover)@.active.contains_key(id@) <==> old(prover)@.active.contains_key(id@)
            &&& old(prover)@.active.contains_key(id@) ==> (r matches PollPlan::GiveUp(failed)
                && has_status(
                final(prover)@.active[id@],
                old(prover)@.active[id@],
                failed@,
            ))
        },
{
}

/// After a poll, whether or not storage took what it came to, no request that is done stays in
/// memory; polling goes on exactly where the request does.
pub proof fn law_answered_poll_leaves_no_done_request(
    prover: &mut BoundlessProver,
    id: &str,
    plan: PollPlan,
    stored: AgentResult<()>,
    r: bool,
)
    requires
        call_ensures(BoundlessProver::finish_poll, (prover, id, &plan, stored), r),
    ensures
        others_kept(old(prover)@, final(prover)@, id@),
        match plan {
            PollPlan::Report(status) => if ends(status@) {
                &&& !r
                &&& !final(prover)@.active.contains_key(id@)
                &&& stored is Ok ==> !final(prover)@.poll_errors.contains_key(id@)
                &&& stored is Err ==> count_kept(old(prover)@, final(prover)@, id@)
            } else {
                r && final(prover)@ == old(prover)@
            },
            PollPlan::GiveUp(status) => {
                &&& !r
                &&& ends(status@) ==> !final(prover)@.active.contains_key(id@)
                &&& !ends(status@) ==> request_kept(old(prover)@, final(prover)@, id@)
                &&& !final(prover)@.poll_errors.contains_key(id@)
            },
            PollPlan::Wait => r && final(prover)@ == old(prover)@,
        },
{
}

/// A request that was not fulfilled in time has failed, and leaves memory whatever storage says.
pub proof fn law_timed_out_request_leaves_memory(
    prover: &mut BoundlessProver,
    later: &mut BoundlessProver,
    id: &str,
    status: ProofRequestStatus,
    stored: AgentResult<()>,
)
    requires
        call_ensures(BoundlessProver::handle_polling_timeout, (prover, id), status),
        *old(later) == *final(prover),
        call_ensures(BoundlessProver::finish_polling_timeout, (later, id, &status, stored), ()),
    ensures
        status matches ProofRequestStatus::Failed { error } && error@
            == "Request timed out after 1 hour"@,
        final(prover)@.active.contains_key(id@) <==> old(prover)@.active.contains_key(id@),
        old(prover)@.active.contains_key(id@) ==> has_status(
            final(prover)@.active[id@],
            old(prover)@.active[id@],
            status@,
        ),
        count_kept(old(prover)@, final(prover)@, id@),
        !final(later)@.active.contains_key(id@),
        stored is Ok ==> !final(later)@.poll_errors.contains_key(id@),
        stored is Err ==> count_kept(old(prover)@, final(later)@, id@),
        others_kept(old(prover)@, final(prover)@, id@),
        others_kept(old(prover)@, final(later)@, id@),
{
}

/// A request whose time is over leaves memory, whatever its last status and whatever storage says;
/// the time is the hour that its failure tells of.
pub proof fn law_time_is_over_after_an_hour(
    prover: &mut BoundlessProver,
    id: &str,
    status: ProofRequestStatus,
    stored: AgentResult<()>,
)
    requires
        call_ensures(BoundlessProver::finish_polling_timeout, (prover, id, &status, stored), ()),
    ensures
        !final(prover)@.active.contains_key(id@),
        ends(status@) && stored is Ok ==> !final(prover)@.poll_errors.contains_key(id@),
        !ends(status@) || stored is Err ==> count_kept(old(prover)@, final(prover)@, id@),
        others_kept(old(prover)@, final(prover)@, id@),
        POLLING_TIMEOUT_SECS == 60 * 60,
{
}

/// A request that got onto the market has the market's id on record and as its status, and is
/// otherwise as it was.
pub proof fn law_submitted_request_has_its_market_id(
    prover: &mut BoundlessProver,
    id: &str,
    market_id: U256,
    r: ProofRequestStatus,
)
    requires
        call_ensures(BoundlessProver::mark_submitted, (prover, id, market_id), r),
    ensures
        r matches ProofRequestStatus::Submitted { market_request_id } && market_request_id
            == market_id,
        final(prover)@.active.contains_key(id@) <==> old(prover)@.active.contains_key(id@),
        old(prover)@.active.contains_key(id@) ==> ({
            let before = old(prover)@.active[id@];
            let after = final(prover)@.active[id@];
            &&& same_task(after, before)
            &&& after.market_request_id == market_id
            &&& after.status == (StatusView::Submitted { market_request_id: market_id })
            &&& after.last_error == before.last_error
        }),
        others_kept(old(prover)@, final(prover)@, id@),
        count_kept(old(prover)@, final(prover)@, id@),
{
}

} // verus!
