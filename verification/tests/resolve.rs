use llm_client::openai::{OpenAIClient, OpenAIClientType};
use llm_client::provider::{
    AzureConfig, LLMProvider, LLMProviderAPIKeys, LMStudioConfig, OpenAIProvider,
    TogetherAIProvider,
};
use llm_client::types::{LLMClientError, LLMType};

fn openai_key() -> LLMProviderAPIKeys {
    LLMProviderAPIKeys::OpenAI(OpenAIProvider { api_key: "sk-test".to_owned() })
}

fn azure_key() -> LLMProviderAPIKeys {
    LLMProviderAPIKeys::OpenAIAzureConfig(AzureConfig {
        deployment_id: "gpt35-turbo-access".to_owned(),
        api_base: "https://example.openai.azure.com".to_owned(),
        api_key: "azure-key".to_owned(),
        api_version: "2023-08-01-preview".to_owned(),
    })
}

fn other_keys() -> Vec<LLMProviderAPIKeys> {
    vec![
        LLMProviderAPIKeys::TogetherAI(TogetherAIProvider { api_key: "t".to_owned() }),
        LLMProviderAPIKeys::Ollama,
        LLMProviderAPIKeys::LMStudio(LMStudioConfig { api_base: "http://localhost".to_owned() }),
        LLMProviderAPIKeys::CodeStory,
    ]
}

#[test]
fn backend_model_names() {
    let client = OpenAIClient::new();
    let expected = [
        (LLMType::GPT3_5_16k, "gpt-3.5-turbo-16k-0613"),
        (LLMType::Gpt4, "gpt-4-0613"),
        (LLMType::Gpt4Turbo, "gpt-4-1106-preview"),
        (LLMType::Gpt4_32k, "gpt-4-32k-0613"),
        (LLMType::Gpt4O, "gpt-4o"),
        (LLMType::Gpt4OMini, "gpt-4o-mini"),
        (LLMType::DeepSeekCoder33BInstruct, "deepseek-coder-33b"),
    ];
    for (model, name) in expected {
        assert_eq!(client.model(&model).as_deref(), Some(name));
    }
    for model in [
        LLMType::Mixtral,
        LLMType::MistralInstruct,
        LLMType::DeepSeekCoder1_3BInstruct,
        LLMType::DeepSeekCoder6BInstruct,
        LLMType::CodeLLama70BInstruct,
        LLMType::ClaudeOpus,
        LLMType::GeminiPro,
    ] {
        assert_eq!(client.model(&model), None);
    }
}

#[test]
fn plain_key_opens_the_default_endpoint() {
    match OpenAIClient::new().generate_openai_client(openai_key(), &LLMType::Gpt4).unwrap() {
        OpenAIClientType::OpenAIClient { api_key, api_base } => {
            assert_eq!(api_key, "sk-test");
            assert_eq!(api_base, None);
        }
        other => panic!("unexpected {:?}", other),
    }
}

#[test]
fn azure_descriptor_opens_its_deployment() {
    match OpenAIClient::new().generate_openai_client(azure_key(), &LLMType::GPT3_5_16k).unwrap() {
        OpenAIClientType::AzureClient { api_base, api_key, deployment_id, api_version } => {
            assert_eq!(api_base, "https://example.openai.azure.com");
            assert_eq!(api_key, "azure-key");
            assert_eq!(deployment_id, "gpt35-turbo-access");
            assert_eq!(api_version, "2023-08-01-preview");
        }
        other => panic!("unexpected {:?}", other),
    }
}

#[test]
fn pinned_model_goes_through_the_compatible_endpoint() {
    let client = OpenAIClient::new();
    match client.generate_openai_client(azure_key(), &LLMType::DeepSeekCoder33BInstruct).unwrap() {
        OpenAIClientType::OpenAIClient { api_key, api_base } => {
            assert_eq!(api_key, "azure-key");
            assert_eq!(api_base.as_deref(), Some("https://example.openai.azure.com"));
        }
        other => panic!("unexpected {:?}", other),
    }
    let refused = client.generate_openai_client(openai_key(), &LLMType::DeepSeekCoder33BInstruct);
    assert!(matches!(refused, Err(LLMClientError::WrongAPIKeyType)));
}

#[test]
fn credentials_of_another_family_are_refused() {
    let client = OpenAIClient::new();
    for key in other_keys() {
        let refused = client.generate_openai_client(key.clone(), &LLMType::Gpt4);
        assert!(matches!(refused, Err(LLMClientError::WrongAPIKeyType)));
        let refused = client.generate_openai_client(key, &LLMType::DeepSeekCoder33BInstruct);
        assert!(matches!(refused, Err(LLMClientError::WrongAPIKeyType)));
    }
}

#[test]
fn unmapped_model_is_unsupported_before_credentials_are_checked() {
    let client = OpenAIClient::new();
    let mut keys = other_keys();
    keys.push(openai_key());
    keys.push(azure_key());
    for key in keys {
        let refused = client.generate_openai_client(key, &LLMType::ClaudeSonnet);
        assert!(matches!(refused, Err(LLMClientError::UnSupportedModel)));
    }
}

#[test]
fn keys_know_their_family() {
    assert!(openai_key().is_openai());
    assert!(!azure_key().is_openai());
    assert_eq!(openai_key().provider_type(), LLMProvider::OpenAI);
    assert_eq!(azure_key().provider_type(), LLMProvider::Azure);
    assert_eq!(LLMProviderAPIKeys::Ollama.provider_type(), LLMProvider::Ollama);
    assert_eq!(LLMProviderAPIKeys::CodeStory.provider_type(), LLMProvider::CodeStory);
    assert!(azure_key().key(&LLMProvider::Azure).is_some());
    assert!(azure_key().key(&LLMProvider::OpenAI).is_none());
    match openai_key().key(&LLMProvider::OpenAI) {
        Some(LLMProviderAPIKeys::OpenAI(key)) => assert_eq!(key.api_key, "sk-test"),
        other => panic!("unexpected {:?}", other),
    }
    assert_eq!(*OpenAIClient::new().client(), LLMProvider::OpenAI);
}
