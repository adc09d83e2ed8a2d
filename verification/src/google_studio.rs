//! The search planner: it asks a model for the keywords to search a
//! codebase with.

use std::sync::Arc;
use vstd::prelude::*;
use vstd::string::*;
use crate::broker::{DispatchRequest, LLMBroker};
use crate::identifier::LLMProperties;
use crate::provider::{CredentialsView, LLMProvider, LLMProviderAPIKeys};
use crate::ref_filter::metadata_views;
use crate::types::{
    FloatBits, LLMClientCompletionRequest, LLMClientMessage, LLMClientRole, LLMType, MessageView,
    RequestView,
};

verus! {

/// The bits of the sampling temperature that the planner asks with: 0.2.
pub const SEARCH_PLAN_TEMPERATURE: u32 = 0x3E4C_CCCD;

/// What a query for a search plan holds, as plain values.
pub struct SearchPlanQueryView {
    pub user_query: Seq<char>,
    pub llm: LLMType,
    pub provider: LLMProvider,
    pub api_keys: CredentialsView,
    pub root_request_id: Seq<char>,
}

/// A query for a search plan: what the user looks for, and which model to
/// ask about it.
#[derive(Debug)]
pub struct SearchPlanQuery {
    user_query: String,
    llm: LLMType,
    provider: LLMProvider,
    api_keys: LLMProviderAPIKeys,
    root_request_id: String,
}

impl View for SearchPlanQuery {
    type V = SearchPlanQueryView;

    closed spec fn view(&self) -> SearchPlanQueryView {
        SearchPlanQueryView {
            user_query: self.user_query@,
            llm: self.llm,
            provider: self.provider,
            api_keys: self.api_keys@,
            root_request_id: self.root_request_id@,
        }
    }
}

impl SearchPlanQuery {
    pub fn new(
        user_query: String,
        llm: LLMType,
        provider: LLMProvider,
        api_keys: LLMProviderAPIKeys,
        root_request_id: String,
    ) -> (query: Self)
        ensures
            query@ == (SearchPlanQueryView {
                user_query: user_query@,
                llm,
                provider,
                api_keys: api_keys@,
                root_request_id: root_request_id@,
            }),
    {
        Self { user_query, llm, provider, api_keys, root_request_id }
    }

    pub fn user_query(&self) -> (user_query: &str)
        ensures
            user_query@ == self@.user_query,
    {
        self.user_query.as_str()
    }

    pub fn llm(&self) -> (llm: &LLMType)
        ensures
            *llm == self@.llm,
    {
        &self.llm
    }

    pub fn provider(&self) -> (provider: &LLMProvider)
        ensures
            *provider == self@.provider,
    {
        &self.provider
    }

    pub fn api_keys(&self) -> (api_keys: &LLMProviderAPIKeys)
        ensures
            api_keys@ == self@.api_keys,
    {
        &self.api_keys
    }

    pub fn root_request_id(&self) -> (root_request_id: &str)
        ensures
            root_request_id@ == self@.root_request_id,
    {
        self.root_request_id.as_str()
    }
}

/// The labels under which a keyword search is filed.
pub open spec fn search_metadata(root_id: Seq<char>) -> Seq<(Seq<char>, Seq<char>)> {
    seq![("event_type"@, "keyword_search"@), ("root_id"@, root_id)]
}

/// The request that asks the model for a search plan.
pub open spec fn search_plan_request(
    query: SearchPlanQueryView,
    system_message: Seq<char>,
    user_message: Seq<char>,
) -> RequestView {
    RequestView {
        model: query.llm,
        messages: seq![
            MessageView {
                role: LLMClientRole::System,
                content: system_message,
                function_call: None,
            },
            MessageView { role: LLMClientRole::User, content: user_message, function_call: None },
        ],
        temperature: FloatBits::from_bits(SEARCH_PLAN_TEMPERATURE),
        frequency_penalty: None,
    }
}

/// Asks a model for search plans.
pub struct GoogleStudioPlanGenerator {
    llm_client: Arc<LLMBroker>,
    _fail_over_llm: LLMProperties,
}

impl GoogleStudioPlanGenerator {
    pub fn new(llm_client: Arc<LLMBroker>, fail_over_llm: LLMProperties) -> (generator: Self)
        ensures
            generator.spec_fail_over_llm() == fail_over_llm,
            generator.spec_llm_client() == llm_client,
    {
        Self { llm_client, _fail_over_llm: fail_over_llm }
    }

    /// The model to fall back on.
    pub closed spec fn spec_fail_over_llm(&self) -> LLMProperties {
        self._fail_over_llm
    }

    /// The broker that the questions go out through.
    pub closed spec fn spec_llm_client(&self) -> Arc<LLMBroker> {
        self.llm_client
    }

    /// The broker that the questions go out through.
    pub fn llm_client(&self) -> (llm_client: &Arc<LLMBroker>)
        ensures
            *llm_client == self.spec_llm_client(),
    {
        &self.llm_client
    }

    /// The completion that asks for the search plan of `request`, with the
    /// instructions and the question given, to the model and with the
    /// credentials that the request names.
    pub fn keyword_search_request(
        &self,
        request: &SearchPlanQuery,
        system_message: String,
        user_message: String,
    ) -> (call: DispatchRequest)
        ensures
            call.request@ == search_plan_request(request@, system_message@, user_message@),
            call.api_key@ == request@.api_keys,
            call.provider == request@.provider,
            metadata_views(call.metadata@) == search_metadata(request@.root_request_id),
    {
        let messages = vec![
            LLMClientMessage::system(system_message),
            LLMClientMessage::user(user_message),
        ];
        let completion = LLMClientCompletionRequest::new(
            *request.llm(),
            messages,
            FloatBits::from_bits(SEARCH_PLAN_TEMPERATURE),
            None,
        );
        let metadata = vec![
            ("event_type".to_owned(), "keyword_search".to_owned()),
            ("root_id".to_owned(), request.root_request_id().to_owned()),
        ];
        proof {
            assert(completion@.messages =~= search_plan_request(
                request@,
                system_message@,
                user_message@,
            ).messages);
            assert(metadata_views(metadata@) =~= search_metadata(request@.root_request_id));
        }
        DispatchRequest {
            request: completion,
            api_key: request.api_keys().clone(),
            provider: *request.provider(),
            metadata,
        }
    }
}

} // verus!
