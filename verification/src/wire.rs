//! The wire format of an OpenAI-compatible chat backend, as plain values.
//!
//! A backend takes three shapes of request message. Each carries a role tag of
//! its own, which need not be the role its shape is named after.

use vstd::prelude::*;
use vstd::string::*;
use crate::types::{
    ClientErrorView, FloatBits, FunctionCallView, LLMClientError, LLMClientMessage,
    LLMClientMessageFunctionCall, LLMClientRole, MessageView, message_views,
};

verus! {

/// The role tag that a wire message carries.
#[derive(Clone, Copy, Debug, PartialEq, Eq, Structural, Hash)]
pub enum WireRole {
    System,
    User,
    Assistant,
    Function,
}

/// A function call on the wire.
#[derive(Debug)]
pub struct WireFunctionCall {
    pub name: String,
    pub arguments: String,
}

/// A request message in the shape the backend takes.
#[allow(inconsistent_fields)]
#[derive(Debug)]
pub enum WireMessage {
    /// The system shape: a role tag and text.
    System { role: WireRole, content: String },
    /// The user shape: a role tag and text.
    User { role: WireRole, content: String },
    /// The assistant shape: a role tag, text if there is any, and a function
    /// call if there is one.
    Assistant { role: WireRole, content: Option<String>, function_call: Option<WireFunctionCall> },
}

/// What a wire message holds, as plain values.
#[allow(inconsistent_fields)]
pub enum WireMessageView {
    System { role: WireRole, content: Seq<char> },
    User { role: WireRole, content: Seq<char> },
    Assistant {
        role: WireRole,
        content: Option<Seq<char>>,
        function_call: Option<FunctionCallView>,
    },
}

impl View for WireFunctionCall {
    type V = FunctionCallView;

    open spec fn view(&self) -> FunctionCallView {
        FunctionCallView { name: self.name@, arguments: self.arguments@ }
    }
}

impl View for WireMessage {
    type V = WireMessageView;

    open spec fn view(&self) -> WireMessageView {
        match *self {
            WireMessage::System { role, content } => WireMessageView::System {
                role,
                content: content@,
            },
            WireMessage::User { role, content } => WireMessageView::User { role, content: content@ },
            WireMessage::Assistant { role, content, function_call } => WireMessageView::Assistant {
                role,
                content: match content {
                    Some(content) => Some(content@),
                    None => None,
                },
                function_call: match function_call {
                    Some(call) => Some(call@),
                    None => None,
                },
            },
        }
    }
}

/// The views of a sequence of wire messages.
pub open spec fn wire_views(messages: Seq<WireMessage>) -> Seq<WireMessageView> {
    Seq::new(messages.len(), |i: int| messages[i]@)
}

/// The wire message that a chat message becomes, or why it becomes none.
///
/// User and system messages keep their role and text. An assistant message
/// with a function call becomes a function-tagged message that carries the
/// call and no text; without one it keeps its role and text. A function
/// message must carry a call, and becomes a function-tagged message with both
/// its text and the call.
pub open spec fn normalize(message: MessageView) -> Result<WireMessageView, ClientErrorView> {
    match message.role {
        LLMClientRole::User => Ok(
            WireMessageView::User { role: WireRole::User, content: message.content },
        ),
        LLMClientRole::System => Ok(
            WireMessageView::System { role: WireRole::System, content: message.content },
        ),
        LLMClientRole::Assistant => match message.function_call {
            Some(call) => Ok(
                WireMessageView::Assistant {
                    role: WireRole::Function,
                    content: None,
                    function_call: Some(call),
                },
            ),
            None => Ok(
                WireMessageView::Assistant {
                    role: WireRole::Assistant,
                    content: Some(message.content),
                    function_call: None,
                },
            ),
        },
        LLMClientRole::Function => match message.function_call {
            Some(call) => Ok(
                WireMessageView::Assistant {
                    role: WireRole::Function,
                    content: Some(message.content),
                    function_call: Some(call),
                },
            ),
            None => Err(ClientErrorView::FunctionCallNotPresent),
        },
    }
}

/// A message is valid unless it speaks in the function role without a call.
pub open spec fn valid_message(message: MessageView) -> bool {
    message.role == LLMClientRole::Function ==> message.function_call is Some
}

/// Every message of the sequence is valid.
pub open spec fn valid_messages(messages: Seq<MessageView>) -> bool {
    forall|i: int| 0 <= i < messages.len() ==> valid_message(#[trigger] messages[i])
}

/// The wire messages that a sequence of chat messages becomes: one for each,
/// in order, when all are valid, and nothing but the error when one is not.
pub open spec fn normalize_all(messages: Seq<MessageView>) -> Result<
    Seq<WireMessageView>,
    ClientErrorView,
> {
    if valid_messages(messages) {
        Ok(Seq::new(messages.len(), |i: int| normalize(messages[i])->Ok_0))
    } else {
        Err(ClientErrorView::FunctionCallNotPresent)
    }
}

/// The view of the outcome of normalizing a sequence.
pub open spec fn wire_result_view(outcome: Result<Vec<WireMessage>, LLMClientError>) -> Result<
    Seq<WireMessageView>,
    ClientErrorView,
> {
    match outcome {
        Ok(messages) => Ok(wire_views(messages@)),
        Err(error) => Err(error@),
    }
}

/// Copies a function call onto the wire.
fn wire_call(call: &LLMClientMessageFunctionCall) -> (wired: WireFunctionCall)
    ensures
        wired@ == call@,
{
    WireFunctionCall { name: call.name().to_owned(), arguments: call.arguments().to_owned() }
}

/// Normalizes one chat message.
pub fn normalize_message(message: &LLMClientMessage) -> (wired: Result<WireMessage, LLMClientError>)
    ensures
        match wired {
            Ok(wire) => normalize(message@) == Ok::<WireMessageView, ClientErrorView>(wire@),
            Err(error) => normalize(message@) == Err::<WireMessageView, ClientErrorView>(error@),
        },
{
    match message.role() {
        LLMClientRole::User => Ok(
            WireMessage::User { role: WireRole::User, content: message.content().to_owned() },
        ),
        LLMClientRole::System => Ok(
            WireMessage::System { role: WireRole::System, content: message.content().to_owned() },
        ),
        LLMClientRole::Assistant => match message.get_function_call() {
            Some(call) => Ok(
                WireMessage::Assistant {
                    role: WireRole::Function,
                    content: None,
                    function_call: Some(wire_call(call)),
                },
            ),
            None => Ok(
                WireMessage::Assistant {
                    role: WireRole::Assistant,
                    content: Some(message.content().to_owned()),
                    function_call: None,
                },
            ),
        },
        LLMClientRole::Function => match message.get_function_call() {
            Some(call) => Ok(
                WireMessage::Assistant {
                    role: WireRole::Function,
                    content: Some(message.content().to_owned()),
                    function_call: Some(wire_call(call)),
                },
            ),
            None => Err(LLMClientError::FunctionCallNotPresent),
        },
    }
}

/// Normalizes a sequence of chat messages: all of them, or none.
pub fn normalize_messages(messages: &[LLMClientMessage]) -> (wired: Result<
    Vec<WireMessage>,
    LLMClientError,
>)
    ensures
        wire_result_view(wired) == normalize_all(message_views(messages@)),
        wired matches Ok(wired) ==> wired@.len() == messages@.len(),
{
    let mut wired: Vec<WireMessage> = Vec::new();
    let mut i: usize = 0;
    while i < messages.len()
        invariant
            i <= messages.len(),
            wired@.len() == i,
            forall|k: int|
                0 <= k < i ==> normalize(#[trigger] messages@[k]@) == Ok::<
                    WireMessageView,
                    ClientErrorView,
                >(wired@[k]@),
        decreases messages.len() - i,
    {
        match normalize_message(&messages[i]) {
            Ok(wire) => {
                wired.push(wire);
            },
            Err(error) => {
                assert(!valid_message(message_views(messages@)[i as int]));
                return Err(error);
            },
        }
        i += 1;
    }
    proof {
        let views = message_views(messages@);
        assert forall|k: int| 0 <= k < views.len() implies valid_message(#[trigger] views[k]) by {
            assert(normalize(messages@[k]@) is Ok);
        }
        assert(wire_views(wired@) =~= normalize_all(views)->Ok_0);
    }
    Ok(wired)
}

/// What goes to the backend for one completion.
#[derive(Debug)]
pub struct WireRequest {
    /// The backend model to ask.
    pub model: String,
    pub messages: Vec<WireMessage>,
    pub temperature: FloatBits,
    pub frequency_penalty: Option<FloatBits>,
    /// Whether the answer is to come as a stream.
    pub stream: bool,
}

/// What a wire request holds, as plain values.
pub struct WireRequestView {
    pub model: Seq<char>,
    pub messages: Seq<WireMessageView>,
    pub temperature: FloatBits,
    pub frequency_penalty: Option<FloatBits>,
    pub stream: bool,
}

impl View for WireRequest {
    type V = WireRequestView;

    open spec fn view(&self) -> WireRequestView {
        WireRequestView {
            model: self.model@,
            messages: wire_views(self.messages@),
            temperature: self.temperature,
            frequency_penalty: self.frequency_penalty,
            stream: self.stream,
        }
    }
}

/// Normalizing is total on valid input: a sequence of valid messages gives
/// one wire message for each message, in order.
pub proof fn lemma_normalize_total(messages: Seq<MessageView>)
    requires
        valid_messages(messages),
    ensures
        normalize_all(messages) is Ok,
        normalize_all(messages)->Ok_0.len() == messages.len(),
        forall|i: int|
            0 <= i < messages.len() ==> normalize(#[trigger] messages[i]) == Ok::<
                WireMessageView,
                ClientErrorView,
            >(normalize_all(messages)->Ok_0[i]),
{
    assert forall|i: int| 0 <= i < messages.len() implies normalize(#[trigger] messages[i])
        == Ok::<WireMessageView, ClientErrorView>(normalize_all(messages)->Ok_0[i]) by {
        assert(valid_message(messages[i]));
    }
}

/// Normalizing is a function of what the messages hold: two runs on the same
/// messages give the same wire messages, or the same error.
pub proof fn lemma_normalize_deterministic(
    messages: Seq<LLMClientMessage>,
    first: Result<Vec<WireMessage>, LLMClientError>,
    second: Result<Vec<WireMessage>, LLMClientError>,
)
    requires
        wire_result_view(first) == normalize_all(message_views(messages)),
        wire_result_view(second) == normalize_all(message_views(messages)),
    ensures
        wire_result_view(first) == wire_result_view(second),
{
}

/// A message in the function role without a function call is refused,
/// whatever its text.
pub proof fn lemma_function_role_needs_call(content: Seq<char>)
    ensures
        normalize(MessageView { role: LLMClientRole::Function, content, function_call: None })
            == Err::<WireMessageView, ClientErrorView>(ClientErrorView::FunctionCallNotPresent),
{
}

/// One message in the function role without a function call makes the whole
/// sequence fail, whatever the other messages are.
pub proof fn lemma_missing_call_fails_sequence(messages: Seq<MessageView>, i: int)
    requires
        0 <= i < messages.len(),
        messages[i].role == LLMClientRole::Function,
        messages[i].function_call is None,
    ensures
        normalize_all(messages) == Err::<Seq<WireMessageView>, ClientErrorView>(
            ClientErrorView::FunctionCallNotPresent,
        ),
{
    assert(!valid_message(messages[i]));
}

} // verus!
