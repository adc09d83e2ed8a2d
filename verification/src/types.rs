//! The provider-agnostic vocabulary: models, roles, chat messages, completion
//! requests and responses, and the errors a client can report.

use vstd::prelude::*;
use vstd::string::*;

verus! {

/// A model family, named independently of the backend that serves it.
#[allow(non_camel_case_types)]
#[derive(Clone, Copy, Debug, PartialEq, Eq, Structural, Hash)]
pub enum LLMType {
    Mixtral,
    MistralInstruct,
    Gpt4,
    GPT3_5_16k,
    Gpt4_32k,
    Gpt4O,
    Gpt4OMini,
    Gpt4Turbo,
    DeepSeekCoder1_3BInstruct,
    DeepSeekCoder33BInstruct,
    DeepSeekCoder6BInstruct,
    CodeLLama70BInstruct,
    CodeLlama13BInstruct,
    CodeLlama7BInstruct,
    Llama3_8bInstruct,
    ClaudeOpus,
    ClaudeSonnet,
    ClaudeHaiku,
    PPLXSonnetSmall,
    CohereRerankV3,
    GeminiPro,
    GeminiProFlash,
}

/// Who speaks in a chat message.
#[derive(Clone, Copy, Debug, PartialEq, Eq, Structural, Hash)]
pub enum LLMClientRole {
    System,
    User,
    Assistant,
    Function,
}

/// A single-precision number carried as its IEEE-754 bit pattern. The library
/// hands sampling parameters through without computing on them, so the bits
/// are all it keeps.
#[derive(Clone, Copy, Debug, PartialEq, Eq, Structural, Hash)]
pub struct FloatBits {
    pub bits: u32,
}

impl FloatBits {
    /// The number with the given bit pattern.
    pub open spec fn spec_from_bits(bits: u32) -> Self {
        Self { bits }
    }

    /// The bit pattern of the number.
    pub open spec fn spec_to_bits(self) -> u32 {
        self.bits
    }

    /// Wraps a bit pattern.
    #[verifier::when_used_as_spec(spec_from_bits)]
    pub fn from_bits(bits: u32) -> (value: Self)
        ensures
            value == Self::spec_from_bits(bits),
    {
        Self { bits }
    }

    /// The bit pattern that was wrapped.
    #[verifier::when_used_as_spec(spec_to_bits)]
    pub fn to_bits(self) -> (bits: u32)
        ensures
            bits == self.spec_to_bits(),
    {
        self.bits
    }
}

/// What a function call holds, as sequences of characters.
pub struct FunctionCallView {
    pub name: Seq<char>,
    pub arguments: Seq<char>,
}

/// The name of a function and the arguments it is called with.
#[derive(Debug)]
pub struct LLMClientMessageFunctionCall {
    name: String,
    // The arguments, as the model wrote them: most often a JSON document.
    arguments: String,
}

impl View for LLMClientMessageFunctionCall {
    type V = FunctionCallView;

    closed spec fn view(&self) -> FunctionCallView {
        FunctionCallView { name: self.name@, arguments: self.arguments@ }
    }
}

impl LLMClientMessageFunctionCall {
    pub fn new(name: String, arguments: String) -> (call: Self)
        ensures
            call@ == (FunctionCallView { name: name@, arguments: arguments@ }),
    {
        Self { name, arguments }
    }

    pub fn name(&self) -> (name: &str)
        ensures
            name@ == self@.name,
    {
        self.name.as_str()
    }

    pub fn arguments(&self) -> (arguments: &str)
        ensures
            arguments@ == self@.arguments,
    {
        self.arguments.as_str()
    }
}

impl Clone for LLMClientMessageFunctionCall {
    fn clone(&self) -> (copy: Self)
        ensures
            copy == *self,
    {
        Self { name: self.name.clone(), arguments: self.arguments.clone() }
    }
}

/// What a chat message holds, as plain values.
pub struct MessageView {
    pub role: LLMClientRole,
    pub content: Seq<char>,
    pub function_call: Option<FunctionCallView>,
}

/// The view of an optional function call.
pub open spec fn function_call_view(call: Option<LLMClientMessageFunctionCall>) -> Option<
    FunctionCallView,
> {
    match call {
        Some(call) => Some(call@),
        None => None,
    }
}

/// A role-tagged chat message, with the function call it carries if any.
#[derive(Debug)]
pub struct LLMClientMessage {
    role: LLMClientRole,
    message: String,
    function_call: Option<LLMClientMessageFunctionCall>,
}

impl View for LLMClientMessage {
    type V = MessageView;

    closed spec fn view(&self) -> MessageView {
        MessageView {
            role: self.role,
            content: self.message@,
            function_call: function_call_view(self.function_call),
        }
    }
}

impl LLMClientMessage {
    /// A message of the given role with free text and no function call.
    pub fn new(role: LLMClientRole, message: String) -> (created: Self)
        ensures
            created@ == (MessageView { role, content: message@, function_call: None }),
    {
        Self { role, message, function_call: None }
    }

    pub fn user(message: String) -> (created: Self)
        ensures
            created@ == (MessageView {
                role: LLMClientRole::User,
                content: message@,
                function_call: None,
            }),
    {
        Self::new(LLMClientRole::User, message)
    }

    pub fn system(message: String) -> (created: Self)
        ensures
            created@ == (MessageView {
                role: LLMClientRole::System,
                content: message@,
                function_call: None,
            }),
    {
        Self::new(LLMClientRole::System, message)
    }

    pub fn assistant(message: String) -> (created: Self)
        ensures
            created@ == (MessageView {
                role: LLMClientRole::Assistant,
                content: message@,
                function_call: None,
            }),
    {
        Self::new(LLMClientRole::Assistant, message)
    }

    pub fn function(message: String) -> (created: Self)
        ensures
            created@ == (MessageView {
                role: LLMClientRole::Function,
                content: message@,
                function_call: None,
            }),
    {
        Self::new(LLMClientRole::Function, message)
    }

    /// An assistant message that asks for a function to be called and says
    /// nothing else.
    pub fn function_call(name: String, arguments: String) -> (created: Self)
        ensures
            created@ == (MessageView {
                role: LLMClientRole::Assistant,
                content: Seq::empty(),
                function_call: Some(FunctionCallView { name: name@, arguments: arguments@ }),
            }),
    {
        Self {
            role: LLMClientRole::Assistant,
            message: String::new(),
            function_call: Some(LLMClientMessageFunctionCall::new(name, arguments)),
        }
    }

    /// The same message with `call` attached in place of any call it carried.
    pub fn with_function_call(self, call: LLMClientMessageFunctionCall) -> (updated: Self)
        ensures
            updated@ == (MessageView { function_call: Some(call@), ..self@ }),
    {
        Self { role: self.role, message: self.message, function_call: Some(call) }
    }

    pub fn role(&self) -> (role: &LLMClientRole)
        ensures
            *role == self@.role,
    {
        &self.role
    }

    pub fn content(&self) -> (content: &str)
        ensures
            content@ == self@.content,
    {
        self.message.as_str()
    }

    pub fn get_function_call(&self) -> (call: Option<&LLMClientMessageFunctionCall>)
        ensures
            match call {
                Some(call) => self@.function_call == Some(call@),
                None => self@.function_call is None,
            },
    {
        self.function_call.as_ref()
    }
}

impl Clone for LLMClientMessage {
    fn clone(&self) -> (copy: Self)
        ensures
            copy == *self,
    {
        let function_call = match &self.function_call {
            Some(call) => Some(call.clone()),
            None => None,
        };
        Self { role: self.role, message: self.message.clone(), function_call }
    }
}

/// Why a client could not serve a call.
#[derive(Debug)]
pub enum LLMClientError {
    /// No backend model is known for the model that was asked for.
    UnSupportedModel,
    /// The credentials belong to another backend family than the one that
    /// serves the model.
    WrongAPIKeyType,
    /// A message speaks in the function role and carries no function call.
    FunctionCallNotPresent,
    /// The backend was asked for plain prompt completion, which it cannot do.
    OpenAIDoesNotSupportCompletion,
    /// The endpoint or credential data would not make a backend handle.
    InvalidClientConfiguration(String),
    /// The backend's transport failed before any of the stream was read.
    OpenAPIError(String),
}

/// What an error holds, as plain values.
pub enum ClientErrorView {
    UnSupportedModel,
    WrongAPIKeyType,
    FunctionCallNotPresent,
    OpenAIDoesNotSupportCompletion,
    InvalidClientConfiguration(Seq<char>),
    OpenAPIError(Seq<char>),
}

impl View for LLMClientError {
    type V = ClientErrorView;

    open spec fn view(&self) -> ClientErrorView {
        match *self {
            LLMClientError::UnSupportedModel => ClientErrorView::UnSupportedModel,
            LLMClientError::WrongAPIKeyType => ClientErrorView::WrongAPIKeyType,
            LLMClientError::FunctionCallNotPresent => ClientErrorView::FunctionCallNotPresent,
            LLMClientError::OpenAIDoesNotSupportCompletion => {
                ClientErrorView::OpenAIDoesNotSupportCompletion
            },
            LLMClientError::InvalidClientConfiguration(reason) => {
                ClientErrorView::InvalidClientConfiguration(reason@)
            },
            LLMClientError::OpenAPIError(reason) => ClientErrorView::OpenAPIError(reason@),
        }
    }
}

impl Clone for LLMClientError {
    fn clone(&self) -> (copy: Self)
        ensures
            copy == *self,
    {
        match self {
            LLMClientError::UnSupportedModel => LLMClientError::UnSupportedModel,
            LLMClientError::WrongAPIKeyType => LLMClientError::WrongAPIKeyType,
            LLMClientError::FunctionCallNotPresent => LLMClientError::FunctionCallNotPresent,
            LLMClientError::OpenAIDoesNotSupportCompletion => {
                LLMClientError::OpenAIDoesNotSupportCompletion
            },
            LLMClientError::InvalidClientConfiguration(reason) => {
                LLMClientError::InvalidClientConfiguration(reason.clone())
            },
            LLMClientError::OpenAPIError(reason) => LLMClientError::OpenAPIError(reason.clone()),
        }
    }
}

/// The views of a sequence of messages.
pub open spec fn message_views(messages: Seq<LLMClientMessage>) -> Seq<MessageView> {
    Seq::new(messages.len(), |i: int| messages[i]@)
}


/// What a completion request holds, as plain values.
pub struct RequestView {
    pub model: LLMType,
    pub messages: Seq<MessageView>,
    pub temperature: FloatBits,
    pub frequency_penalty: Option<FloatBits>,
}

/// A chat completion to ask of a model: the conversation so far and the
/// sampling parameters. A request always holds at least one message.
#[derive(Debug)]
pub struct LLMClientCompletionRequest {
    model: LLMType,
    messages: Vec<LLMClientMessage>,
    temperature: FloatBits,
    frequency_penalty: Option<FloatBits>,
}

impl View for LLMClientCompletionRequest {
    type V = RequestView;

    closed spec fn view(&self) -> RequestView {
        RequestView {
            model: self.model,
            messages: message_views(self.messages@),
            temperature: self.temperature,
            frequency_penalty: self.frequency_penalty,
        }
    }
}

impl LLMClientCompletionRequest {
    #[verifier::type_invariant]
    spec fn holds_a_message(&self) -> bool {
        self.messages@.len() > 0
    }

    /// A request for `model` to continue `messages`.
    pub fn new(
        model: LLMType,
        messages: Vec<LLMClientMessage>,
        temperature: FloatBits,
        frequency_penalty: Option<FloatBits>,
    ) -> (request: Self)
        requires
            messages@.len() > 0,
        ensures
            request@ == (RequestView {
                model,
                messages: message_views(messages@),
                temperature,
                frequency_penalty,
            }),
    {
        Self { model, messages, temperature, frequency_penalty }
    }

    pub fn model(&self) -> (model: &LLMType)
        ensures
            *model == self@.model,
    {
        &self.model
    }

    pub fn messages(&self) -> (messages: &[LLMClientMessage])
        ensures
            message_views(messages@) == self@.messages,
            messages@.len() > 0,
    {
        proof {
            use_type_invariant(self);
        }
        self.messages.as_slice()
    }

    pub fn temperature(&self) -> (temperature: FloatBits)
        ensures
            temperature == self@.temperature,
    {
        self.temperature
    }

    pub fn frequency_penalty(&self) -> (frequency_penalty: Option<FloatBits>)
        ensures
            frequency_penalty == self@.frequency_penalty,
    {
        self.frequency_penalty
    }
}

/// Copies a run of messages.
fn clone_messages(messages: &Vec<LLMClientMessage>) -> (copy: Vec<LLMClientMessage>)
    ensures
        copy@ == messages@,
{
    let mut copy: Vec<LLMClientMessage> = Vec::new();
    let mut i: usize = 0;
    while i < messages.len()
        invariant
            i <= messages.len(),
            copy@ == messages@.take(i as int),
        decreases messages.len() - i,
    {
        copy.push(messages[i].clone());
        assert(messages@.take(i + 1) == messages@.take(i as int).push(messages@[i as int]));
        i += 1;
    }
    assert(messages@.take(messages.len() as int) == messages@);
    copy
}

impl Clone for LLMClientCompletionRequest {
    fn clone(&self) -> (copy: Self)
        ensures
            copy@ == self@,
    {
        proof {
            use_type_invariant(self);
        }
        Self {
            model: self.model,
            messages: clone_messages(&self.messages),
            temperature: self.temperature,
            frequency_penalty: self.frequency_penalty,
        }
    }
}

/// What a prompt completion request holds, as plain values.
pub struct StringRequestView {
    pub model: LLMType,
    pub prompt: Seq<char>,
    pub temperature: FloatBits,
    pub frequency_penalty: Option<FloatBits>,
}

/// A plain prompt to complete, outside any chat.
#[derive(Debug)]
pub struct LLMClientCompletionStringRequest {
    model: LLMType,
    prompt: String,
    temperature: FloatBits,
    frequency_penalty: Option<FloatBits>,
}

impl View for LLMClientCompletionStringRequest {
    type V = StringRequestView;

    closed spec fn view(&self) -> StringRequestView {
        StringRequestView {
            model: self.model,
            prompt: self.prompt@,
            temperature: self.temperature,
            frequency_penalty: self.frequency_penalty,
        }
    }
}

impl LLMClientCompletionStringRequest {
    pub fn new(
        model: LLMType,
        prompt: String,
        temperature: FloatBits,
        frequency_penalty: Option<FloatBits>,
    ) -> (request: Self)
        ensures
            request@ == (StringRequestView {
                model,
                prompt: prompt@,
                temperature,
                frequency_penalty,
            }),
    {
        Self { model, prompt, temperature, frequency_penalty }
    }

    pub fn model(&self) -> (model: &LLMType)
        ensures
            *model == self@.model,
    {
        &self.model
    }

    pub fn prompt(&self) -> (prompt: &str)
        ensures
            prompt@ == self@.prompt,
    {
        self.prompt.as_str()
    }

    pub fn temperature(&self) -> (temperature: FloatBits)
        ensures
            temperature == self@.temperature,
    {
        self.temperature
    }

    pub fn frequency_penalty(&self) -> (frequency_penalty: Option<FloatBits>)
        ensures
            frequency_penalty == self@.frequency_penalty,
    {
        self.frequency_penalty
    }
}

/// What a completion response holds, as plain values.
pub struct ResponseView {
    pub answer_up_until_now: Seq<char>,
    pub delta: Option<Seq<char>>,
    pub model: Seq<char>,
}

/// One step of a streamed answer: the transcript so far, the text that the
/// step appended to it, and the backend model that answers.
#[derive(Debug)]
pub struct LLMClientCompletionResponse {
    answer_up_until_now: String,
    delta: Option<String>,
    model: String,
}

impl View for LLMClientCompletionResponse {
    type V = ResponseView;

    closed spec fn view(&self) -> ResponseView {
        ResponseView {
            answer_up_until_now: self.answer_up_until_now@,
            delta: match self.delta {
                Some(delta) => Some(delta@),
                None => None,
            },
            model: self.model@,
        }
    }
}

impl LLMClientCompletionResponse {
    pub fn new(answer_up_until_now: String, delta: Option<String>, model: String) -> (response:
        Self)
        ensures
            response@ == (ResponseView {
                answer_up_until_now: answer_up_until_now@,
                delta: match delta {
                    Some(delta) => Some(delta@),
                    None => None,
                },
                model: model@,
            }),
    {
        Self { answer_up_until_now, delta, model }
    }

    pub fn answer_up_until_now(&self) -> (answer: &str)
        ensures
            answer@ == self@.answer_up_until_now,
    {
        self.answer_up_until_now.as_str()
    }

    pub fn delta(&self) -> (delta: Option<&str>)
        ensures
            match delta {
                Some(delta) => self@.delta == Some(delta@),
                None => self@.delta is None,
            },
    {
        match &self.delta {
            Some(delta) => Some(delta.as_str()),
            None => None,
        }
    }

    pub fn model(&self) -> (model: &str)
        ensures
            model@ == self@.model,
    {
        self.model.as_str()
    }
}

} // verus!
