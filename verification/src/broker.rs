//! The broker that callers talk to: it hands single completions to the
//! client that serves them, and batches of completions to the same client
//! under a ceiling on how many are in flight at once.

use vstd::prelude::*;
use vstd::string::*;
use tokio::sync::mpsc::UnboundedSender;
use crate::dispatch::{
    DispatchBroker, OutcomeView, Slot, may_start, outcome_view, result_views,
};
use crate::openai::{OpenAIClient, completion_outcome, completion_view};
use crate::provider::{CredentialsView, LLMProvider, LLMProviderAPIKeys};
use crate::stream::{BackendReply, ReplyView};
use crate::types::{
    LLMClientCompletionRequest, LLMClientCompletionResponse, LLMClientError, RequestView,
};

verus! {

/// One completion of a batch: what to ask, the credentials to ask with, the
/// backend family the caller names, and the labels the caller files it under.
#[derive(Debug)]
pub struct DispatchRequest {
    pub request: LLMClientCompletionRequest,
    pub api_key: LLMProviderAPIKeys,
    pub provider: LLMProvider,
    pub metadata: Vec<(String, String)>,
}

/// One completion of a batch together with what the backend does with it,
/// as plain values.
pub struct CallView {
    pub credentials: CredentialsView,
    pub request: RequestView,
    pub reply: ReplyView,
}

/// The views of the calls of a batch.
pub open spec fn call_views(calls: Seq<(DispatchRequest, BackendReply)>) -> Seq<CallView> {
    Seq::new(
        calls.len(),
        |i: int|
            CallView {
                credentials: calls[i].0.api_key@,
                request: calls[i].0.request@,
                reply: calls[i].1@,
            },
    )
}

/// How each call of a batch ends: each as it would end alone.
pub open spec fn batch_outcomes(calls: Seq<CallView>) -> Seq<OutcomeView> {
    Seq::new(
        calls.len(),
        |i: int| completion_outcome(calls[i].credentials, calls[i].request, calls[i].reply),
    )
}

/// How a call ends does not depend on the calls around it: two batches that
/// hold the same call at one place end alike at that place, whatever the
/// other calls are and however they end.
pub proof fn lemma_outcomes_are_independent(first: Seq<CallView>, second: Seq<CallView>, i: int)
    requires
        0 <= i < first.len(),
        0 <= i < second.len(),
        first[i] == second[i],
    ensures
        batch_outcomes(first)[i] == batch_outcomes(second)[i],
{
}

/// The broker: the one door through which completions go out.
#[derive(Debug)]
pub struct LLMBroker {
    openai: OpenAIClient,
}

impl LLMBroker {
    pub fn new() -> Self {
        Self { openai: OpenAIClient::new() }
    }

    /// Runs one completion against what the backend replied, and sends every
    /// step of the answer to `sender`. The family that the caller names and
    /// the labels it files the call under do not change how the call ends.
    pub fn stream_completion(
        &self,
        api_key: LLMProviderAPIKeys,
        request: LLMClientCompletionRequest,
        _provider: LLMProvider,
        _metadata: Vec<(String, String)>,
        reply: &BackendReply,
        sender: UnboundedSender<LLMClientCompletionResponse>,
    ) -> (outcome: Result<String, LLMClientError>)
        ensures
            completion_view(outcome) == completion_outcome(api_key@, request@, reply@),
    {
        self.openai.stream_completion(api_key, request, reply, sender)
    }

    /// Runs a batch of completions, each against what the backend replied to
    /// it, with at most `concurrency_limit` of them in flight at once.
    ///
    /// Every call gets one outcome, filed under its place in the batch, and
    /// each ends as it would end alone: a call that fails takes no other
    /// call with it. With no room for any request nothing could ever start,
    /// so the limit must be at least one.
    pub fn dispatch_all(&self, calls: &[(DispatchRequest, BackendReply)], concurrency_limit: usize) -> (results:
        Vec<(usize, Result<String, LLMClientError>)>)
        requires
            concurrency_limit > 0,
        ensures
            results@.len() == calls@.len(),
            forall|i: int|
                0 <= i < calls@.len() ==> (#[trigger] results@[i]).0 == i && outcome_view(
                    results@[i].1,
                ) == batch_outcomes(call_views(calls@))[i],
    {
        let mut broker = DispatchBroker::new(calls.len(), concurrency_limit);
        let ghost expected = batch_outcomes(call_views(calls@));
        let mut reported: usize = 0;
        while reported < calls.len()
            invariant
                concurrency_limit > 0,
                broker.well_formed(),
                broker@.concurrency_limit == concurrency_limit,
                broker@.status.len() == calls@.len(),
                expected == batch_outcomes(call_views(calls@)),
                reported <= broker@.started <= calls@.len(),
                broker@.results.len() == reported,
                forall|k: int|
                    0 <= k < reported ==> #[trigger] broker@.results[k] == (k as nat, expected[k]),
                forall|i: int|
                    reported <= i < broker@.started ==> #[trigger] broker@.status[i]
                        == Slot::InFlight,
            decreases calls.len() - reported,
        {
            loop
                invariant
                    broker.well_formed(),
                    broker@.concurrency_limit == concurrency_limit,
                    broker@.status.len() == calls@.len(),
                    expected.len() == calls@.len(),
                    reported <= broker@.started <= calls@.len(),
                    broker@.results.len() == reported,
                    forall|k: int|
                        0 <= k < reported ==> #[trigger] broker@.results[k] == (
                            k as nat,
                            expected[k],
                        ),
                    forall|i: int|
                        reported <= i < broker@.started ==> #[trigger] broker@.status[i]
                            == Slot::InFlight,
                ensures
                    !may_start(broker@),
                decreases broker@.status.len() - broker@.started,
            {
                proof {
                    broker.lemma_books_in_order();
                }
                match broker.next_request() {
                    Some(_) => {},
                    None => {
                        break ;
                    },
                }
            }
            proof {
                broker.lemma_books_in_order();
            }
            let call = &calls[reported];
            let outcome = self.openai.completion(call.0.api_key.clone(), call.0.request.clone(), &call.1);
            let ghost before = broker@;
            let taken = broker.complete(reported, outcome);
            assert(taken);
            assert(broker@.results[reported as int] == (reported as nat, expected[reported as int]));
            assert forall|k: int| 0 <= k < reported + 1 implies #[trigger] broker@.results[k] == (
                k as nat,
                expected[k],
            ) by {
                if k < reported {
                    assert(broker@.results[k] == before.results[k]);
                }
            }
            reported += 1;
        }
        let results = broker.into_results();
        assert(result_views(results@).len() == results@.len());
        assert forall|i: int| 0 <= i < calls@.len() implies (#[trigger] results@[i]).0 == i
            && outcome_view(results@[i].1) == expected[i] by {
            assert(result_views(results@)[i] == (i as nat, expected[i]));
        }
        results
    }
}

} // verus!
