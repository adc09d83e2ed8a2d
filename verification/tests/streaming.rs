use llm_client::broker::LLMBroker;
use llm_client::openai::{OpenAIClient, OpenAIClientType};
use llm_client::provider::{AzureConfig, LLMProvider, LLMProviderAPIKeys, OpenAIProvider};
use llm_client::stream::{BackendReply, StreamAggregator, StreamChunk, StreamEvent, StreamState};
use llm_client::types::{
    FloatBits, LLMClientCompletionRequest, LLMClientCompletionResponse,
    LLMClientCompletionStringRequest, LLMClientError, LLMClientMessage, LLMType,
};
use llm_client::wire::WireMessage;

fn chunk(text: &str) -> StreamEvent {
    StreamEvent::Chunk(StreamChunk { choices: vec![Some(text.to_owned())] })
}

fn request(model: LLMType) -> LLMClientCompletionRequest {
    LLMClientCompletionRequest::new(
        model,
        vec![LLMClientMessage::user("hi".to_owned())],
        FloatBits::from_bits(0.2f32.to_bits()),
        None,
    )
}

fn openai_key() -> LLMProviderAPIKeys {
    LLMProviderAPIKeys::OpenAI(OpenAIProvider { api_key: "sk-test".to_owned() })
}

fn azure_key() -> LLMProviderAPIKeys {
    LLMProviderAPIKeys::OpenAIAzureConfig(AzureConfig {
        deployment_id: "d".to_owned(),
        api_base: "https://example.openai.azure.com".to_owned(),
        api_key: "k".to_owned(),
        api_version: "v".to_owned(),
    })
}

#[test]
fn stream_publishes_growing_snapshots_in_order() {
    let (sender, mut receiver) =
        tokio::sync::mpsc::unbounded_channel::<LLMClientCompletionResponse>();
    let reply = BackendReply::Opened(vec![chunk("Hel"), chunk("lo, "), chunk("world")]);
    let outcome =
        OpenAIClient::new().stream_completion(openai_key(), request(LLMType::Gpt4), &reply, sender);
    assert_eq!(outcome.unwrap(), "Hello, world");
    let expected = [("Hel", "Hel"), ("Hello, ", "lo, "), ("Hello, world", "world")];
    for (transcript, delta) in expected {
        let response = receiver.try_recv().unwrap();
        assert_eq!(response.answer_up_until_now(), transcript);
        assert_eq!(response.delta(), Some(delta));
        assert_eq!(response.model(), "gpt-4-0613");
    }
    assert!(receiver.try_recv().is_err());
}

#[test]
fn collected_snapshots_match_what_is_published() {
    let mut aggregator = StreamAggregator::new("gpt-4o".to_owned());
    let responses = aggregator.collect(&[chunk("Hel"), chunk("lo, "), chunk("world")]);
    let snapshots: Vec<&str> = responses.iter().map(|r| r.answer_up_until_now()).collect();
    assert_eq!(snapshots, vec!["Hel", "Hello, ", "Hello, world"]);
    let deltas: Vec<Option<&str>> = responses.iter().map(|r| r.delta()).collect();
    assert_eq!(deltas, vec![Some("Hel"), Some("lo, "), Some("world")]);
    assert_eq!(aggregator.state(), StreamState::Streaming);
    assert_eq!(aggregator.finish(), "Hello, world");
}

#[test]
fn stream_fault_keeps_partial_transcript() {
    let (sender, mut receiver) =
        tokio::sync::mpsc::unbounded_channel::<LLMClientCompletionResponse>();
    let reply = BackendReply::Opened(vec![
        chunk("Hel"),
        StreamEvent::Fault("unexpected end of JSON".to_owned()),
        chunk("lo"),
    ]);
    let outcome =
        OpenAIClient::new().stream_completion(azure_key(), request(LLMType::Gpt4), &reply, sender);
    assert_eq!(outcome.unwrap(), "Hel");
    assert_eq!(receiver.try_recv().unwrap().answer_up_until_now(), "Hel");
    assert!(receiver.try_recv().is_err());
}

#[test]
fn fault_is_recorded_and_ends_the_stream() {
    let mut aggregator = StreamAggregator::new("m".to_owned());
    assert!(aggregator.step(&chunk("Hel")).is_some());
    assert!(aggregator.fault().is_none());
    assert!(aggregator.step(&StreamEvent::Fault("bad chunk".to_owned())).is_none());
    assert_eq!(aggregator.state(), StreamState::Failed);
    assert_eq!(aggregator.fault(), Some("bad chunk"));
    assert!(aggregator.is_terminal());
    assert!(aggregator.step(&chunk("lo")).is_none());
    assert!(aggregator.step(&StreamEvent::End).is_none());
    assert_eq!(aggregator.state(), StreamState::Failed);
    assert_eq!(aggregator.transcript(), "Hel");
}

#[test]
fn fault_before_any_chunk_gives_an_empty_transcript() {
    let reply = BackendReply::Opened(vec![StreamEvent::Fault("broken".to_owned())]);
    let outcome = OpenAIClient::new().completion(openai_key(), request(LLMType::Gpt4), &reply);
    assert_eq!(outcome.unwrap(), "");
}

#[test]
fn aggregator_walks_its_states() {
    let mut aggregator = StreamAggregator::new("gpt-4o".to_owned());
    assert_eq!(aggregator.state(), StreamState::Idle);
    assert!(!aggregator.is_terminal());
    assert_eq!(aggregator.model(), "gpt-4o");
    assert!(aggregator.step(&chunk("a")).is_some());
    assert_eq!(aggregator.state(), StreamState::Streaming);
    assert!(aggregator.step(&StreamEvent::End).is_none());
    assert_eq!(aggregator.state(), StreamState::Completed);
    assert!(aggregator.is_terminal());
    assert!(aggregator.step(&chunk("b")).is_none());
    assert_eq!(aggregator.transcript(), "a");
}

#[test]
fn empty_stream_completes_with_an_empty_transcript() {
    let mut aggregator = StreamAggregator::new("m".to_owned());
    assert!(aggregator.step(&StreamEvent::End).is_none());
    assert_eq!(aggregator.state(), StreamState::Completed);
    assert_eq!(aggregator.finish(), "");
}

#[test]
fn chunk_without_text_publishes_an_empty_delta() {
    let mut aggregator = StreamAggregator::new("m".to_owned());
    aggregator.step(&chunk("a"));
    let silent = StreamEvent::Chunk(StreamChunk { choices: vec![None, Some("x".to_owned())] });
    let response = aggregator.step(&silent).unwrap();
    assert_eq!(response.answer_up_until_now(), "a");
    assert_eq!(response.delta(), Some(""));
    let no_choice = StreamEvent::Chunk(StreamChunk { choices: vec![] });
    let response = aggregator.step(&no_choice).unwrap();
    assert_eq!(response.answer_up_until_now(), "a");
    assert_eq!(response.delta(), Some(""));
    assert_eq!(aggregator.state(), StreamState::Streaming);
}

#[test]
fn only_the_first_choice_counts() {
    let mut aggregator = StreamAggregator::new("m".to_owned());
    let two = StreamEvent::Chunk(StreamChunk {
        choices: vec![Some("first".to_owned()), Some("second".to_owned())],
    });
    let response = aggregator.step(&two).unwrap();
    assert_eq!(response.answer_up_until_now(), "first");
    assert_eq!(response.delta(), Some("first"));
}

#[test]
fn dropped_receiver_does_not_stop_the_stream() {
    let (sender, receiver) = tokio::sync::mpsc::unbounded_channel::<LLMClientCompletionResponse>();
    drop(receiver);
    let reply = BackendReply::Opened(vec![chunk("Hel"), chunk("lo")]);
    let outcome =
        OpenAIClient::new().stream_completion(openai_key(), request(LLMType::Gpt4), &reply, sender);
    assert_eq!(outcome.unwrap(), "Hello");
}

#[test]
fn forward_moves_like_step() {
    let (sender, mut receiver) =
        tokio::sync::mpsc::unbounded_channel::<LLMClientCompletionResponse>();
    let mut aggregator = StreamAggregator::new("m".to_owned());
    aggregator.forward(&chunk("ab"), &sender);
    aggregator.forward(&StreamEvent::End, &sender);
    aggregator.forward(&chunk("cd"), &sender);
    assert_eq!(aggregator.state(), StreamState::Completed);
    assert_eq!(aggregator.transcript(), "ab");
    assert_eq!(receiver.try_recv().unwrap().delta(), Some("ab"));
    assert!(receiver.try_recv().is_err());
}

#[test]
fn refused_stream_fails_the_call() {
    let reply = BackendReply::Refused("connection refused".to_owned());
    let outcome = OpenAIClient::new().completion(openai_key(), request(LLMType::Gpt4), &reply);
    assert!(
        matches!(outcome, Err(LLMClientError::OpenAPIError(reason)) if reason == "connection refused")
    );
}

#[test]
fn errors_come_in_order_model_then_messages_then_credentials() {
    let client = OpenAIClient::new();
    let reply = BackendReply::Opened(vec![chunk("x")]);
    let invalid = |model| {
        LLMClientCompletionRequest::new(
            model,
            vec![LLMClientMessage::function("".to_owned())],
            FloatBits::from_bits(0),
            None,
        )
    };
    let outcome = client.completion(LLMProviderAPIKeys::Ollama, invalid(LLMType::ClaudeOpus), &reply);
    assert!(matches!(outcome, Err(LLMClientError::UnSupportedModel)));
    let outcome = client.completion(LLMProviderAPIKeys::Ollama, invalid(LLMType::Gpt4), &reply);
    assert!(matches!(outcome, Err(LLMClientError::FunctionCallNotPresent)));
    let outcome = client.completion(LLMProviderAPIKeys::Ollama, request(LLMType::Gpt4), &reply);
    assert!(matches!(outcome, Err(LLMClientError::WrongAPIKeyType)));
    let outcome = client.completion(
        LLMProviderAPIKeys::Ollama,
        request(LLMType::ClaudeOpus),
        &BackendReply::Refused("down".to_owned()),
    );
    assert!(matches!(outcome, Err(LLMClientError::UnSupportedModel)));
}

#[test]
fn prepared_request_asks_for_a_stream() {
    let completion = LLMClientCompletionRequest::new(
        LLMType::Gpt4O,
        vec![
            LLMClientMessage::system("s".to_owned()),
            LLMClientMessage::user("u".to_owned()),
        ],
        FloatBits::from_bits(0.2f32.to_bits()),
        Some(FloatBits::from_bits(0.5f32.to_bits())),
    );
    let prepared = OpenAIClient::new().prepare(openai_key(), &completion).unwrap();
    assert_eq!(prepared.request.model, "gpt-4o");
    assert!(prepared.request.stream);
    assert_eq!(f32::from_bits(prepared.request.temperature.to_bits()), 0.2);
    assert_eq!(prepared.request.frequency_penalty.map(|p| f32::from_bits(p.to_bits())), Some(0.5));
    assert_eq!(prepared.request.messages.len(), 2);
    assert!(matches!(&prepared.request.messages[0], WireMessage::System { content, .. } if content == "s"));
    assert!(matches!(&prepared.request.messages[1], WireMessage::User { content, .. } if content == "u"));
    assert!(matches!(prepared.client, OpenAIClientType::OpenAIClient { api_base: None, .. }));
}

#[test]
fn prompt_completion_is_refused() {
    let (sender, _receiver) = tokio::sync::mpsc::unbounded_channel::<LLMClientCompletionResponse>();
    let prompt = LLMClientCompletionStringRequest::new(
        LLMType::Gpt4,
        "once upon a time".to_owned(),
        FloatBits::from_bits(0.7f32.to_bits()),
        None,
    );
    assert_eq!(prompt.prompt(), "once upon a time");
    assert_eq!(*prompt.model(), LLMType::Gpt4);
    assert_eq!(prompt.temperature().to_bits(), 0.7f32.to_bits());
    assert!(prompt.frequency_penalty().is_none());
    let outcome = OpenAIClient::new().stream_prompt_completion(openai_key(), prompt, sender);
    assert!(matches!(outcome, Err(LLMClientError::OpenAIDoesNotSupportCompletion)));
}

#[test]
fn broker_hands_the_call_to_its_client() {
    let (sender, mut receiver) =
        tokio::sync::mpsc::unbounded_channel::<LLMClientCompletionResponse>();
    let reply = BackendReply::Opened(vec![chunk("ok")]);
    let outcome = LLMBroker::new().stream_completion(
        openai_key(),
        request(LLMType::Gpt4Turbo),
        LLMProvider::OpenAI,
        vec![("event_type".to_owned(), "test".to_owned())],
        &reply,
        sender,
    );
    assert_eq!(outcome.unwrap(), "ok");
    assert_eq!(receiver.try_recv().unwrap().model(), "gpt-4-1106-preview");
}

#[test]
fn request_keeps_what_it_was_made_with() {
    let completion = request(LLMType::Gpt4);
    assert_eq!(*completion.model(), LLMType::Gpt4);
    assert_eq!(completion.messages().len(), 1);
    assert_eq!(completion.messages()[0].content(), "hi");
    assert_eq!(f32::from_bits(completion.temperature().to_bits()), 0.2);
    assert!(completion.frequency_penalty().is_none());
    let copy = completion.clone();
    assert_eq!(copy.messages()[0].content(), "hi");
    let response =
        LLMClientCompletionResponse::new("abc".to_owned(), None, "gpt-4-0613".to_owned());
    assert_eq!(response.answer_up_until_now(), "abc");
    assert_eq!(response.delta(), None);
    assert_eq!(response.model(), "gpt-4-0613");
}
