use llm_client::broker::{DispatchRequest, LLMBroker};
use llm_client::dispatch::{DispatchBroker, Slot};
use llm_client::provider::{LLMProvider, LLMProviderAPIKeys, OpenAIProvider};
use llm_client::stream::{BackendReply, StreamChunk, StreamEvent};
use llm_client::types::{
    FloatBits, LLMClientCompletionRequest, LLMClientError, LLMClientMessage, LLMType,
};

fn call(text: &str) -> DispatchRequest {
    DispatchRequest {
        request: LLMClientCompletionRequest::new(
            LLMType::Gpt4,
            vec![LLMClientMessage::user(text.to_owned())],
            FloatBits::from_bits(0.2f32.to_bits()),
            None,
        ),
        api_key: LLMProviderAPIKeys::OpenAI(OpenAIProvider { api_key: "k".to_owned() }),
        provider: LLMProvider::OpenAI,
        metadata: vec![],
    }
}

fn answers(text: &str) -> BackendReply {
    BackendReply::Opened(vec![StreamEvent::Chunk(StreamChunk {
        choices: vec![Some(text.to_owned())],
    })])
}

// A latency for each request, spread widely and without a pattern.
fn latency(index: usize) -> u64 {
    let mut x = (index as u64).wrapping_mul(6364136223846793005).wrapping_add(1442695040888963407);
    x ^= x >> 29;
    1 + x % 997
}

#[test]
fn five_hundred_requests_never_exceed_fifty_in_flight() {
    let total = 500;
    let limit = 50;
    let mut broker = DispatchBroker::new(total, limit);
    assert_eq!(broker.total(), total);
    assert_eq!(broker.concurrency_limit(), limit);
    let mut open: Vec<(u64, usize)> = Vec::new();
    let mut now: u64 = 0;
    let mut most_open = 0;
    let mut completion_order = Vec::new();
    while !broker.is_finished() {
        while let Some(index) = broker.next_request() {
            open.push((now + latency(index), index));
            assert!(open.len() <= limit);
            assert_eq!(broker.in_flight(), open.len());
        }
        most_open = most_open.max(open.len());
        let soonest = (0..open.len()).min_by_key(|&k| open[k]).unwrap();
        let (at, index) = open.swap_remove(soonest);
        now = at;
        assert!(broker.complete(index, Ok(format!("answer {}", index))));
        assert_eq!(broker.in_flight(), open.len());
        completion_order.push(index);
    }
    assert_eq!(most_open, limit);
    assert!(open.is_empty());
    let results = broker.into_results();
    assert_eq!(results.len(), total);
    let mut seen = vec![0usize; total];
    for (place, (index, outcome)) in results.iter().enumerate() {
        assert_eq!(*index, completion_order[place]);
        assert_eq!(outcome.as_ref().unwrap(), &format!("answer {}", index));
        seen[*index] += 1;
    }
    assert!(seen.iter().all(|&count| count == 1));
    let in_order: Vec<usize> = (0..total).collect();
    assert_ne!(completion_order, in_order);
}

#[test]
fn requests_start_in_batch_order_up_to_the_limit() {
    let mut broker = DispatchBroker::new(5, 2);
    assert_eq!(broker.status(0), Some(Slot::Waiting));
    assert_eq!(broker.status(5), None);
    assert_eq!(broker.next_request(), Some(0));
    assert_eq!(broker.next_request(), Some(1));
    assert_eq!(broker.next_request(), None);
    assert_eq!(broker.in_flight(), 2);
    assert_eq!(broker.status(1), Some(Slot::InFlight));
    assert_eq!(broker.status(2), Some(Slot::Waiting));
    assert!(broker.complete(1, Ok("b".to_owned())));
    assert_eq!(broker.status(1), Some(Slot::Done));
    assert_eq!(broker.in_flight(), 1);
    assert_eq!(broker.next_request(), Some(2));
    assert_eq!(broker.next_request(), None);
    assert!(!broker.is_finished());
}

#[test]
fn an_outcome_is_taken_once_and_only_from_a_request_in_flight() {
    let mut broker = DispatchBroker::new(3, 3);
    assert!(!broker.complete(0, Ok("early".to_owned())));
    assert_eq!(broker.next_request(), Some(0));
    assert!(broker.complete(0, Ok("first".to_owned())));
    assert!(!broker.complete(0, Ok("again".to_owned())));
    assert!(!broker.complete(7, Ok("nowhere".to_owned())));
    assert_eq!(broker.results().len(), 1);
    assert_eq!(broker.results()[0].0, 0);
    assert_eq!(broker.results()[0].1.as_ref().unwrap(), "first");
}

#[test]
fn an_empty_batch_is_through_at_once() {
    let mut broker = DispatchBroker::new(0, 4);
    assert!(broker.is_finished());
    assert_eq!(broker.next_request(), None);
    assert!(broker.into_results().is_empty());
}

#[test]
fn without_room_nothing_starts() {
    let mut broker = DispatchBroker::new(3, 0);
    assert_eq!(broker.next_request(), None);
    assert_eq!(broker.in_flight(), 0);
    assert!(!broker.is_finished());
}

#[test]
fn a_failure_is_recorded_beside_the_other_outcomes() {
    let mut broker = DispatchBroker::new(3, 2);
    broker.next_request();
    broker.next_request();
    assert!(broker.complete(1, Err(LLMClientError::OpenAPIError("reset".to_owned()))));
    assert!(broker.complete(0, Ok("zero".to_owned())));
    assert_eq!(broker.next_request(), Some(2));
    assert!(broker.complete(2, Ok("two".to_owned())));
    assert!(broker.is_finished());
    let results = broker.into_results();
    assert_eq!(results.len(), 3);
    assert_eq!(results[0].0, 1);
    assert!(matches!(&results[0].1, Err(LLMClientError::OpenAPIError(reason)) if reason == "reset"));
    assert_eq!(results[1].0, 0);
    assert_eq!(results[1].1.as_ref().unwrap(), "zero");
    assert_eq!(results[2].0, 2);
    assert_eq!(results[2].1.as_ref().unwrap(), "two");
}

#[test]
fn dispatch_all_gives_each_call_its_own_outcome() {
    let calls: Vec<(DispatchRequest, BackendReply)> =
        (0..500).map(|i| (call("q"), answers(&format!("a{}", i)))).collect();
    let results = LLMBroker::new().dispatch_all(&calls, 50);
    assert_eq!(results.len(), 500);
    for (i, (index, outcome)) in results.iter().enumerate() {
        assert_eq!(*index, i);
        assert_eq!(outcome.as_ref().unwrap(), &format!("a{}", i));
    }
}

#[test]
fn one_transport_error_leaves_the_other_results_alone() {
    let healthy: Vec<(DispatchRequest, BackendReply)> =
        (0..20).map(|i| (call("q"), answers(&format!("a{}", i)))).collect();
    let mut faulty: Vec<(DispatchRequest, BackendReply)> =
        (0..20).map(|i| (call("q"), answers(&format!("a{}", i)))).collect();
    faulty[7].1 = BackendReply::Refused("connection reset".to_owned());
    let broker = LLMBroker::new();
    for limit in [1, 3, 20, 64] {
        let expected = broker.dispatch_all(&healthy, limit);
        let results = broker.dispatch_all(&faulty, limit);
        assert_eq!(results.len(), 20);
        for i in 0..20 {
            assert_eq!(results[i].0, i);
            if i == 7 {
                assert!(matches!(
                    &results[i].1,
                    Err(LLMClientError::OpenAPIError(reason)) if reason == "connection reset"
                ));
            } else {
                assert_eq!(results[i].1.as_ref().unwrap(), expected[i].1.as_ref().unwrap());
                assert_eq!(results[i].1.as_ref().unwrap(), &format!("a{}", i));
            }
        }
    }
}

#[test]
fn dispatch_all_of_nothing_gives_nothing() {
    assert!(LLMBroker::new().dispatch_all(&[], 1).is_empty());
}
