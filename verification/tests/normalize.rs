use llm_client::openai::OpenAIClient;
use llm_client::types::{
    LLMClientError, LLMClientMessage, LLMClientMessageFunctionCall, LLMClientRole,
};
use llm_client::wire::{normalize_message, WireMessage, WireRole};

fn call(name: &str, arguments: &str) -> LLMClientMessageFunctionCall {
    LLMClientMessageFunctionCall::new(name.to_owned(), arguments.to_owned())
}

#[test]
fn user_and_system_keep_role_and_text() {
    let wired = OpenAIClient::new()
        .messages(&[
            LLMClientMessage::system("be brief".to_owned()),
            LLMClientMessage::user("hello".to_owned()),
        ])
        .unwrap();
    assert_eq!(wired.len(), 2);
    match &wired[0] {
        WireMessage::System { role, content } => {
            assert_eq!(*role, WireRole::System);
            assert_eq!(content, "be brief");
        }
        other => panic!("unexpected {:?}", other),
    }
    match &wired[1] {
        WireMessage::User { role, content } => {
            assert_eq!(*role, WireRole::User);
            assert_eq!(content, "hello");
        }
        other => panic!("unexpected {:?}", other),
    }
}

#[test]
fn plain_assistant_keeps_role_and_text() {
    let wired = normalize_message(&LLMClientMessage::assistant("sure".to_owned())).unwrap();
    match wired {
        WireMessage::Assistant { role, content, function_call } => {
            assert_eq!(role, WireRole::Assistant);
            assert_eq!(content.as_deref(), Some("sure"));
            assert!(function_call.is_none());
        }
        other => panic!("unexpected {:?}", other),
    }
}

#[test]
fn assistant_with_call_carries_the_call_instead_of_text() {
    let message = LLMClientMessage::assistant("ignored text".to_owned())
        .with_function_call(call("search", "{\"q\":\"x\"}"));
    match normalize_message(&message).unwrap() {
        WireMessage::Assistant { role, content, function_call } => {
            assert_eq!(role, WireRole::Function);
            assert!(content.is_none());
            let function_call = function_call.unwrap();
            assert_eq!(function_call.name, "search");
            assert_eq!(function_call.arguments, "{\"q\":\"x\"}");
        }
        other => panic!("unexpected {:?}", other),
    }
}

#[test]
fn function_call_constructor_is_an_assistant_call() {
    let message = LLMClientMessage::function_call("lookup".to_owned(), "{}".to_owned());
    assert_eq!(*message.role(), LLMClientRole::Assistant);
    assert_eq!(message.content(), "");
    assert_eq!(message.get_function_call().unwrap().name(), "lookup");
    assert_eq!(message.get_function_call().unwrap().arguments(), "{}");
}

#[test]
fn function_with_call_carries_text_and_call() {
    let message =
        LLMClientMessage::function("42".to_owned()).with_function_call(call("answer", "[]"));
    match normalize_message(&message).unwrap() {
        WireMessage::Assistant { role, content, function_call } => {
            assert_eq!(role, WireRole::Function);
            assert_eq!(content.as_deref(), Some("42"));
            let function_call = function_call.unwrap();
            assert_eq!(function_call.name, "answer");
            assert_eq!(function_call.arguments, "[]");
        }
        other => panic!("unexpected {:?}", other),
    }
}

#[test]
fn function_without_call_is_refused_for_any_text() {
    for text in ["", "some result", "with\nnewline", "ünïcödé"] {
        let outcome = normalize_message(&LLMClientMessage::function(text.to_owned()));
        assert!(matches!(outcome, Err(LLMClientError::FunctionCallNotPresent)));
        let outcome = normalize_message(&LLMClientMessage::new(
            LLMClientRole::Function,
            text.to_owned(),
        ));
        assert!(matches!(outcome, Err(LLMClientError::FunctionCallNotPresent)));
    }
}

#[test]
fn one_invalid_message_fails_the_whole_sequence() {
    let messages = vec![
        LLMClientMessage::system("s".to_owned()),
        LLMClientMessage::user("u".to_owned()),
        LLMClientMessage::function("".to_owned()),
        LLMClientMessage::assistant("a".to_owned()),
    ];
    let outcome = OpenAIClient::new().messages(&messages);
    assert!(matches!(outcome, Err(LLMClientError::FunctionCallNotPresent)));
}

#[test]
fn empty_sequence_normalizes_to_nothing() {
    assert!(OpenAIClient::new().messages(&[]).unwrap().is_empty());
}

fn render(messages: &[WireMessage]) -> Vec<String> {
    messages.iter().map(|message| format!("{:?}", message)).collect()
}

#[test]
fn normalizing_twice_gives_the_same_wire_messages() {
    let messages = vec![
        LLMClientMessage::system("s".to_owned()),
        LLMClientMessage::user("u".to_owned()),
        LLMClientMessage::assistant("a".to_owned()),
        LLMClientMessage::function_call("f".to_owned(), "{}".to_owned()),
        LLMClientMessage::function("r".to_owned()).with_function_call(call("f", "{}")),
    ];
    let client = OpenAIClient::new();
    let first = client.messages(&messages).unwrap();
    let second = client.messages(&messages).unwrap();
    assert_eq!(first.len(), messages.len());
    assert_eq!(render(&first), render(&second));
    let copies: Vec<LLMClientMessage> = messages.iter().map(|m| m.clone()).collect();
    assert_eq!(render(&first), render(&client.messages(&copies).unwrap()));
}
