//! Backend families and the credential bundles that open them.

use vstd::prelude::*;
use vstd::string::*;

verus! {

/// A backend family: one class of transport and wire protocol.
#[derive(Clone, Copy, Debug, PartialEq, Eq, Structural, Hash)]
pub enum LLMProvider {
    OpenAI,
    TogetherAI,
    Ollama,
    LMStudio,
    CodeStory,
    Azure,
}

/// A plain API key for the OpenAI family.
#[derive(Debug)]
pub struct OpenAIProvider {
    pub api_key: String,
}

/// A plain API key for the TogetherAI family.
#[derive(Debug)]
pub struct TogetherAIProvider {
    pub api_key: String,
}

/// Where a local LM Studio server listens.
#[derive(Debug)]
pub struct LMStudioConfig {
    pub api_base: String,
}

/// An Azure-hosted deployment: where it lives, which deployment and API
/// version to address, and the key that opens it.
#[derive(Debug)]
pub struct AzureConfig {
    pub deployment_id: String,
    pub api_base: String,
    pub api_key: String,
    pub api_version: String,
}

/// Credential material, tagged by the backend family it belongs to.
#[derive(Debug)]
pub enum LLMProviderAPIKeys {
    OpenAI(OpenAIProvider),
    TogetherAI(TogetherAIProvider),
    Ollama,
    OpenAIAzureConfig(AzureConfig),
    LMStudio(LMStudioConfig),
    CodeStory,
}

/// What an Azure deployment descriptor holds, as sequences of characters.
pub struct AzureConfigView {
    pub deployment_id: Seq<char>,
    pub api_base: Seq<char>,
    pub api_key: Seq<char>,
    pub api_version: Seq<char>,
}

/// What a credential bundle holds, as plain values.
pub enum CredentialsView {
    OpenAI { api_key: Seq<char> },
    TogetherAI { api_key: Seq<char> },
    Ollama,
    OpenAIAzureConfig(AzureConfigView),
    LMStudio { api_base: Seq<char> },
    CodeStory,
}

impl View for AzureConfig {
    type V = AzureConfigView;

    open spec fn view(&self) -> AzureConfigView {
        AzureConfigView {
            deployment_id: self.deployment_id@,
            api_base: self.api_base@,
            api_key: self.api_key@,
            api_version: self.api_version@,
        }
    }
}

impl View for LLMProviderAPIKeys {
    type V = CredentialsView;

    open spec fn view(&self) -> CredentialsView {
        match *self {
            LLMProviderAPIKeys::OpenAI(key) => CredentialsView::OpenAI { api_key: key.api_key@ },
            LLMProviderAPIKeys::TogetherAI(key) => CredentialsView::TogetherAI {
                api_key: key.api_key@,
            },
            LLMProviderAPIKeys::Ollama => CredentialsView::Ollama,
            LLMProviderAPIKeys::OpenAIAzureConfig(config) => CredentialsView::OpenAIAzureConfig(
                config@,
            ),
            LLMProviderAPIKeys::LMStudio(config) => CredentialsView::LMStudio {
                api_base: config.api_base@,
            },
            LLMProviderAPIKeys::CodeStory => CredentialsView::CodeStory,
        }
    }
}

/// The backend family that a credential bundle is tagged with.
pub open spec fn family_of(credentials: CredentialsView) -> LLMProvider {
    match credentials {
        CredentialsView::OpenAI { .. } => LLMProvider::OpenAI,
        CredentialsView::TogetherAI { .. } => LLMProvider::TogetherAI,
        CredentialsView::Ollama => LLMProvider::Ollama,
        CredentialsView::OpenAIAzureConfig(_) => LLMProvider::Azure,
        CredentialsView::LMStudio { .. } => LLMProvider::LMStudio,
        CredentialsView::CodeStory => LLMProvider::CodeStory,
    }
}

impl Clone for AzureConfig {
    fn clone(&self) -> (copy: Self)
        ensures
            copy == *self,
    {
        Self {
            deployment_id: self.deployment_id.clone(),
            api_base: self.api_base.clone(),
            api_key: self.api_key.clone(),
            api_version: self.api_version.clone(),
        }
    }
}

impl Clone for LLMProviderAPIKeys {
    fn clone(&self) -> (copy: Self)
        ensures
            copy == *self,
    {
        match self {
            LLMProviderAPIKeys::OpenAI(key) => LLMProviderAPIKeys::OpenAI(
                OpenAIProvider { api_key: key.api_key.clone() },
            ),
            LLMProviderAPIKeys::TogetherAI(key) => LLMProviderAPIKeys::TogetherAI(
                TogetherAIProvider { api_key: key.api_key.clone() },
            ),
            LLMProviderAPIKeys::Ollama => LLMProviderAPIKeys::Ollama,
            LLMProviderAPIKeys::OpenAIAzureConfig(config) => LLMProviderAPIKeys::OpenAIAzureConfig(
                config.clone(),
            ),
            LLMProviderAPIKeys::LMStudio(config) => LLMProviderAPIKeys::LMStudio(
                LMStudioConfig { api_base: config.api_base.clone() },
            ),
            LLMProviderAPIKeys::CodeStory => LLMProviderAPIKeys::CodeStory,
        }
    }
}

impl LLMProviderAPIKeys {
    /// Whether the bundle is a plain OpenAI key.
    pub fn is_openai(&self) -> (answer: bool)
        ensures
            answer == (family_of(self@) == LLMProvider::OpenAI),
    {
        match self {
            LLMProviderAPIKeys::OpenAI(_) => true,
            _ => false,
        }
    }

    /// The backend family that the bundle is tagged with.
    pub fn provider_type(&self) -> (family: LLMProvider)
        ensures
            family == family_of(self@),
    {
        match self {
            LLMProviderAPIKeys::OpenAI(_) => LLMProvider::OpenAI,
            LLMProviderAPIKeys::TogetherAI(_) => LLMProvider::TogetherAI,
            LLMProviderAPIKeys::Ollama => LLMProvider::Ollama,
            LLMProviderAPIKeys::OpenAIAzureConfig(_) => LLMProvider::Azure,
            LLMProviderAPIKeys::LMStudio(_) => LLMProvider::LMStudio,
            LLMProviderAPIKeys::CodeStory => LLMProvider::CodeStory,
        }
    }

    /// The bundle itself where it belongs to `llm_provider`, nothing where it
    /// belongs to another family.
    pub fn key(&self, llm_provider: &LLMProvider) -> (found: Option<Self>)
        ensures
            found == if family_of(self@) == *llm_provider {
                Some(*self)
            } else {
                None::<Self>
            },
    {
        if self.provider_type() == *llm_provider {
            Some(self.clone())
        } else {
            None
        }
    }
}

} // verus!
