//! The client for OpenAI-compatible backends: which backend model serves a
//! model, how chat messages go on the wire, and which backend variant the
//! credentials at hand open.

use vstd::prelude::*;
use vstd::string::*;
use crate::provider::{AzureConfigView, CredentialsView, LLMProvider, LLMProviderAPIKeys};
use tokio::sync::mpsc::{UnboundedReceiver, UnboundedSender};
use crate::stream::{
    BackendReply, EventView, ReplyView, StreamAggregator, StreamEvent, fresh, leading_text,
    lemma_transcript_is_leading_text,
};
use crate::types::{
    ClientErrorView, LLMClientCompletionRequest, LLMClientCompletionResponse,
    LLMClientCompletionStringRequest, LLMClientError, LLMClientMessage, LLMType, RequestView,
    message_views,
};
use crate::wire::{
    WireMessage, WireRequest, WireRequestView, normalize_all, normalize_messages,
    wire_result_view,
};

verus! {

/// The backend variant that a call goes to, with all it takes to reach it.
#[allow(inconsistent_fields)]
#[derive(Debug)]
pub enum OpenAIClientType {
    /// An Azure-hosted deployment.
    AzureClient { api_base: String, api_key: String, deployment_id: String, api_version: String },
    /// An OpenAI-compatible endpoint: the default one, or the one at `api_base`.
    OpenAIClient { api_key: String, api_base: Option<String> },
}

/// What a backend variant holds, as plain values.
pub enum ClientTypeView {
    AzureClient(AzureConfigView),
    OpenAIClient { api_key: Seq<char>, api_base: Option<Seq<char>> },
}

impl View for OpenAIClientType {
    type V = ClientTypeView;

    open spec fn view(&self) -> ClientTypeView {
        match *self {
            OpenAIClientType::AzureClient { api_base, api_key, deployment_id, api_version } => {
                ClientTypeView::AzureClient(
                    AzureConfigView {
                        deployment_id: deployment_id@,
                        api_base: api_base@,
                        api_key: api_key@,
                        api_version: api_version@,
                    },
                )
            },
            OpenAIClientType::OpenAIClient { api_key, api_base } => ClientTypeView::OpenAIClient {
                api_key: api_key@,
                api_base: match api_base {
                    Some(api_base) => Some(api_base@),
                    None => None,
                },
            },
        }
    }
}

/// The backend model that serves `model`, if this client serves it at all.
pub open spec fn backend_model(model: LLMType) -> Option<Seq<char>> {
    match model {
        LLMType::GPT3_5_16k => Some("gpt-3.5-turbo-16k-0613"@),
        LLMType::Gpt4 => Some("gpt-4-0613"@),
        LLMType::Gpt4Turbo => Some("gpt-4-1106-preview"@),
        LLMType::Gpt4_32k => Some("gpt-4-32k-0613"@),
        LLMType::Gpt4O => Some("gpt-4o"@),
        LLMType::Gpt4OMini => Some("gpt-4o-mini"@),
        LLMType::DeepSeekCoder33BInstruct => Some("deepseek-coder-33b"@),
        _ => None,
    }
}

/// Whether `model` is pinned to the OpenAI-compatible variant, whatever
/// family its credentials are tagged with.
pub open spec fn routed_through_shim(model: LLMType) -> bool {
    model == LLMType::DeepSeekCoder33BInstruct
}

/// The backend variant that `credentials` open for `model`, or why none.
///
/// A model without a backend model is refused before the credentials are
/// looked at. A pinned model goes to the OpenAI-compatible endpoint that an
/// Azure descriptor names, and takes no other credentials. Any other model
/// goes where its credentials point: a plain key to the default endpoint, an
/// Azure descriptor to its deployment.
pub open spec fn resolve(credentials: CredentialsView, model: LLMType) -> Result<
    ClientTypeView,
    ClientErrorView,
> {
    if backend_model(model) is None {
        Err(ClientErrorView::UnSupportedModel)
    } else if routed_through_shim(model) {
        match credentials {
            CredentialsView::OpenAIAzureConfig(config) => Ok(
                ClientTypeView::OpenAIClient {
                    api_key: config.api_key,
                    api_base: Some(config.api_base),
                },
            ),
            _ => Err(ClientErrorView::WrongAPIKeyType),
        }
    } else {
        match credentials {
            CredentialsView::OpenAI { api_key } => Ok(
                ClientTypeView::OpenAIClient { api_key, api_base: None },
            ),
            CredentialsView::OpenAIAzureConfig(config) => Ok(ClientTypeView::AzureClient(config)),
            _ => Err(ClientErrorView::WrongAPIKeyType),
        }
    }
}

/// The view of the outcome of resolving credentials.
pub open spec fn resolved_view(outcome: Result<OpenAIClientType, LLMClientError>) -> Result<
    ClientTypeView,
    ClientErrorView,
> {
    match outcome {
        Ok(client) => Ok(client@),
        Err(error) => Err(error@),
    }
}

/// A completion that is ready to go out: what to send, and to which backend
/// variant.
#[derive(Debug)]
pub struct PreparedCompletion {
    pub request: WireRequest,
    pub client: OpenAIClientType,
}

/// What a prepared completion holds, as plain values.
pub struct PreparedView {
    pub request: WireRequestView,
    pub client: ClientTypeView,
}

impl View for PreparedCompletion {
    type V = PreparedView;

    open spec fn view(&self) -> PreparedView {
        PreparedView { request: self.request@, client: self.client@ }
    }
}

/// What a request becomes before anything goes out, or the first reason why
/// it cannot go out: no backend model, a message that is not valid, or
/// credentials that do not fit, looked for in this order. The request that
/// goes out always asks for a stream.
pub open spec fn prepared(credentials: CredentialsView, request: RequestView) -> Result<
    PreparedView,
    ClientErrorView,
> {
    match backend_model(request.model) {
        None => Err(ClientErrorView::UnSupportedModel),
        Some(model) => match normalize_all(request.messages) {
            Err(error) => Err(error),
            Ok(messages) => match resolve(credentials, request.model) {
                Err(error) => Err(error),
                Ok(client) => Ok(
                    PreparedView {
                        request: WireRequestView {
                            model,
                            messages,
                            temperature: request.temperature,
                            frequency_penalty: request.frequency_penalty,
                            stream: true,
                        },
                        client,
                    },
                ),
            },
        },
    }
}

/// The view of the outcome of preparing a completion.
pub open spec fn prepared_view(outcome: Result<PreparedCompletion, LLMClientError>) -> Result<
    PreparedView,
    ClientErrorView,
> {
    match outcome {
        Ok(prepared) => Ok(prepared@),
        Err(error) => Err(error@),
    }
}

/// How a completion ends, given what the backend does with it.
///
/// A request that cannot be prepared fails for that reason, and a backend
/// that opens no stream fails the call with its reason. Once the stream is
/// open the call succeeds: its answer is the text of the chunks that lead
/// the stream, up to the first item that cannot be read or to the end.
pub open spec fn completion_outcome(
    credentials: CredentialsView,
    request: RequestView,
    reply: ReplyView,
) -> Result<Seq<char>, ClientErrorView> {
    match prepared(credentials, request) {
        Err(error) => Err(error),
        Ok(_) => match reply {
            ReplyView::Refused(reason) => Err(ClientErrorView::OpenAPIError(reason)),
            ReplyView::Opened(events) => Ok(leading_text(events)),
        },
    }
}

/// The view of the outcome of a completion.
pub open spec fn completion_view(outcome: Result<String, LLMClientError>) -> Result<
    Seq<char>,
    ClientErrorView,
> {
    match outcome {
        Ok(transcript) => Ok(transcript@),
        Err(error) => Err(error@),
    }
}

/// A model without a backend model is refused as unsupported whatever the
/// credentials are: also where they would not fit.
pub proof fn lemma_unmapped_model_is_unsupported(credentials: CredentialsView, model: LLMType)
    requires
        backend_model(model) is None,
    ensures
        resolve(credentials, model) == Err::<ClientTypeView, ClientErrorView>(
            ClientErrorView::UnSupportedModel,
        ),
{
}

/// A completion for a model without a backend model fails as unsupported,
/// whatever the messages, the credentials and the backend are.
pub proof fn lemma_unmapped_model_fails_completion(
    credentials: CredentialsView,
    request: RequestView,
    reply: ReplyView,
)
    requires
        backend_model(request.model) is None,
    ensures
        prepared(credentials, request) == Err::<PreparedView, ClientErrorView>(
            ClientErrorView::UnSupportedModel,
        ),
        completion_outcome(credentials, request, reply) == Err::<Seq<char>, ClientErrorView>(
            ClientErrorView::UnSupportedModel,
        ),
{
}

/// Once the stream is open, the call succeeds whatever the stream does.
pub proof fn lemma_open_stream_never_fails(
    credentials: CredentialsView,
    request: RequestView,
    events: Seq<EventView>,
)
    requires
        prepared(credentials, request) is Ok,
    ensures
        completion_outcome(credentials, request, ReplyView::Opened(events)) is Ok,
{
}

/// The receiving half of tokio's unbounded channel, `UnboundedReceiver`. It
/// is carried through as it is: nothing is known or claimed of what it holds.
#[verifier::external_type_specification]
#[verifier::external_body]
#[verifier::reject_recursive_types(T)]
pub struct ExUnboundedReceiver<T>(UnboundedReceiver<T>);

/// `unbounded_channel` of tokio makes the two halves of a fresh channel.
/// Nothing is claimed of them.
pub assume_specification<T>[ tokio::sync::mpsc::unbounded_channel::<T> ]() -> (halves: (
    UnboundedSender<T>,
    UnboundedReceiver<T>,
));

/// The view of an optional string.
pub open spec fn optional_text(text: Option<String>) -> Option<Seq<char>> {
    match text {
        Some(text) => Some(text@),
        None => None,
    }
}

/// The client for OpenAI-compatible backends. It holds no state: all it
/// needs comes with each call.
#[derive(Debug)]
pub struct OpenAIClient {}

impl OpenAIClient {
    pub fn new() -> Self {
        Self {  }
    }

    /// The backend model that serves `model`.
    pub fn model(&self, model: &LLMType) -> (name: Option<String>)
        ensures
            optional_text(name) == backend_model(*model),
    {
        match model {
            LLMType::GPT3_5_16k => Some("gpt-3.5-turbo-16k-0613".to_owned()),
            LLMType::Gpt4 => Some("gpt-4-0613".to_owned()),
            LLMType::Gpt4Turbo => Some("gpt-4-1106-preview".to_owned()),
            LLMType::Gpt4_32k => Some("gpt-4-32k-0613".to_owned()),
            LLMType::Gpt4O => Some("gpt-4o".to_owned()),
            LLMType::Gpt4OMini => Some("gpt-4o-mini".to_owned()),
            LLMType::DeepSeekCoder33BInstruct => Some("deepseek-coder-33b".to_owned()),
            _ => None,
        }
    }

    /// The wire messages for `messages`: one for each, in order, or the error
    /// and no message at all.
    pub fn messages(&self, messages: &[LLMClientMessage]) -> (wired: Result<
        Vec<WireMessage>,
        LLMClientError,
    >)
        ensures
            wire_result_view(wired) == normalize_all(message_views(messages@)),
            wired matches Ok(wired) ==> wired@.len() == messages@.len(),
    {
        normalize_messages(messages)
    }

    /// The backend variant that `api_key` opens for `llm_model`.
    pub fn generate_openai_client(&self, api_key: LLMProviderAPIKeys, llm_model: &LLMType) -> (client:
        Result<OpenAIClientType, LLMClientError>)
        ensures
            resolved_view(client) == resolve(api_key@, *llm_model),
    {
        if self.model(llm_model).is_none() {
            return Err(LLMClientError::UnSupportedModel);
        }
        if *llm_model == LLMType::DeepSeekCoder33BInstruct {
            return match api_key {
                LLMProviderAPIKeys::OpenAIAzureConfig(config) => Ok(
                    OpenAIClientType::OpenAIClient {
                        api_key: config.api_key,
                        api_base: Some(config.api_base),
                    },
                ),
                _ => Err(LLMClientError::WrongAPIKeyType),
            };
        }
        match api_key {
            LLMProviderAPIKeys::OpenAI(key) => Ok(
                OpenAIClientType::OpenAIClient { api_key: key.api_key, api_base: None },
            ),
            LLMProviderAPIKeys::OpenAIAzureConfig(config) => Ok(
                OpenAIClientType::AzureClient {
                    api_base: config.api_base,
                    api_key: config.api_key,
                    deployment_id: config.deployment_id,
                    api_version: config.api_version,
                },
            ),
            _ => Err(LLMClientError::WrongAPIKeyType),
        }
    }

    /// Checks a request and puts it in the shape in which it goes out.
    pub fn prepare(&self, api_key: LLMProviderAPIKeys, request: &LLMClientCompletionRequest) -> (outcome:
        Result<PreparedCompletion, LLMClientError>)
        ensures
            prepared_view(outcome) == prepared(api_key@, request@),
    {
        let llm_model = request.model();
        let model = match self.model(llm_model) {
            Some(model) => model,
            None => {
                return Err(LLMClientError::UnSupportedModel);
            },
        };
        let messages = match self.messages(request.messages()) {
            Ok(messages) => messages,
            Err(error) => {
                return Err(error);
            },
        };
        let client = match self.generate_openai_client(api_key, llm_model) {
            Ok(client) => client,
            Err(error) => {
                return Err(error);
            },
        };
        Ok(
            PreparedCompletion {
                request: WireRequest {
                    model,
                    messages,
                    temperature: request.temperature(),
                    frequency_penalty: request.frequency_penalty(),
                    stream: true,
                },
                client,
            },
        )
    }

    /// Runs one completion against what the backend replied: prepares the
    /// request, folds the stream into a transcript, sends every step of it to
    /// `sender`, and returns the transcript.
    pub fn stream_completion(
        &self,
        api_key: LLMProviderAPIKeys,
        request: LLMClientCompletionRequest,
        reply: &BackendReply,
        sender: UnboundedSender<LLMClientCompletionResponse>,
    ) -> (outcome: Result<String, LLMClientError>)
        ensures
            completion_view(outcome) == completion_outcome(api_key@, request@, reply@),
    {
        let prepared = match self.prepare(api_key, &request) {
            Ok(prepared) => prepared,
            Err(error) => {
                return Err(error);
            },
        };
        match reply {
            BackendReply::Refused(reason) => Err(LLMClientError::OpenAPIError(reason.clone())),
            BackendReply::Opened(events) => {
                let mut aggregator = StreamAggregator::new(prepared.request.model);
                aggregator.drain(events.as_slice(), &sender);
                aggregator.forward(&StreamEvent::End, &sender);
                proof {
                    lemma_transcript_is_leading_text(
                        fresh(prepared.request.model@),
                        reply@->Opened_0,
                    );
                }
                Ok(aggregator.finish())
            },
        }
    }

    /// Runs one completion for a caller that wants the transcript alone: the
    /// steps go to a channel that nobody reads.
    pub fn completion(
        &self,
        api_key: LLMProviderAPIKeys,
        request: LLMClientCompletionRequest,
        reply: &BackendReply,
    ) -> (outcome: Result<String, LLMClientError>)
        ensures
            completion_view(outcome) == completion_outcome(api_key@, request@, reply@),
    {
        let (sender, _receiver) = tokio::sync::mpsc::unbounded_channel();
        self.stream_completion(api_key, request, reply, sender)
    }

    /// Refuses: these backends complete chats, not plain prompts.
    pub fn stream_prompt_completion(
        &self,
        _api_key: LLMProviderAPIKeys,
        _request: LLMClientCompletionStringRequest,
        _sender: UnboundedSender<LLMClientCompletionResponse>,
    ) -> (outcome: Result<String, LLMClientError>)
        ensures
            completion_view(outcome) == Err::<Seq<char>, ClientErrorView>(
                ClientErrorView::OpenAIDoesNotSupportCompletion,
            ),
    {
        Err(LLMClientError::OpenAIDoesNotSupportCompletion)
    }

    /// The backend family this client stands for.
    pub fn client(&self) -> (family: &LLMProvider)
        ensures
            *family == LLMProvider::OpenAI,
    {
        &LLMProvider::OpenAI
    }
}

} // verus!
