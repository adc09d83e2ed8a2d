use llm_client::model_selection::{LLMClientConfig, Model};
use llm_client::provider::{
    AzureConfig, LLMProvider, LLMProviderAPIKeys, OpenAIProvider, TogetherAIProvider,
};
use llm_client::types::{FloatBits, LLMType};

fn model(provider: LLMProvider) -> Model {
    Model { context_length: 16000, temperature: FloatBits::from_bits(0.2f32.to_bits()), provider }
}

fn azure(deployment: &str) -> LLMProviderAPIKeys {
    LLMProviderAPIKeys::OpenAIAzureConfig(AzureConfig {
        deployment_id: deployment.to_owned(),
        api_base: "https://example.openai.azure.com".to_owned(),
        api_key: "key".to_owned(),
        api_version: "v1".to_owned(),
    })
}

#[test]
fn slow_and_fast_model_find_the_credentials_of_their_family() {
    let config = LLMClientConfig {
        slow_model: LLMType::GPT3_5_16k,
        fast_model: LLMType::Mixtral,
        models: vec![
            (LLMType::GPT3_5_16k, model(LLMProvider::Azure)),
            (LLMType::Mixtral, model(LLMProvider::TogetherAI)),
        ],
        providers: vec![
            LLMProviderAPIKeys::OpenAI(OpenAIProvider { api_key: "sk".to_owned() }),
            LLMProviderAPIKeys::TogetherAI(TogetherAIProvider { api_key: "tg".to_owned() }),
            azure("gpt35-turbo-access"),
            azure("second"),
        ],
    };
    match config.provider_for_slow_model() {
        Some(LLMProviderAPIKeys::OpenAIAzureConfig(found)) => {
            assert_eq!(found.deployment_id, "gpt35-turbo-access")
        }
        other => panic!("unexpected {:?}", other),
    }
    match config.provider_for_fast_model() {
        Some(LLMProviderAPIKeys::TogetherAI(found)) => assert_eq!(found.api_key, "tg"),
        other => panic!("unexpected {:?}", other),
    }
}

#[test]
fn a_model_that_is_not_listed_has_no_credentials() {
    let config = LLMClientConfig {
        slow_model: LLMType::Gpt4,
        fast_model: LLMType::GPT3_5_16k,
        models: vec![(LLMType::GPT3_5_16k, model(LLMProvider::Azure))],
        providers: vec![azure("d")],
    };
    assert!(config.provider_for_slow_model().is_none());
    assert!(config.provider_for_fast_model().is_some());
}

#[test]
fn a_family_without_credentials_gives_none() {
    let config = LLMClientConfig {
        slow_model: LLMType::GPT3_5_16k,
        fast_model: LLMType::GPT3_5_16k,
        models: vec![(LLMType::GPT3_5_16k, model(LLMProvider::OpenAI))],
        providers: vec![azure("d"), LLMProviderAPIKeys::Ollama],
    };
    assert!(config.provider_for_slow_model().is_none());
    assert!(config.provider_for_fast_model().is_none());
    let empty = LLMClientConfig {
        slow_model: LLMType::Gpt4,
        fast_model: LLMType::Gpt4,
        models: vec![],
        providers: vec![],
    };
    assert!(empty.provider_for_slow_model().is_none());
}

#[test]
fn a_table_that_lists_a_model_twice_makes_no_configuration() {
    let twice = LLMClientConfig::new(
        LLMType::Gpt4,
        LLMType::Gpt4,
        vec![
            (LLMType::Gpt4, model(LLMProvider::OpenAI)),
            (LLMType::Mixtral, model(LLMProvider::TogetherAI)),
            (LLMType::Gpt4, model(LLMProvider::Azure)),
        ],
        vec![],
    );
    assert!(twice.is_none());
    let once = LLMClientConfig::new(
        LLMType::Gpt4,
        LLMType::Mixtral,
        vec![
            (LLMType::Gpt4, model(LLMProvider::Azure)),
            (LLMType::Mixtral, model(LLMProvider::TogetherAI)),
        ],
        vec![azure("d")],
    )
    .unwrap();
    assert_eq!(once.models.len(), 2);
    assert!(once.provider_for_slow_model().is_some());
    assert!(once.provider_for_fast_model().is_none());
    assert!(LLMClientConfig::new(LLMType::Gpt4, LLMType::Gpt4, vec![], vec![]).is_some());
}

fn model_named(name: &str) -> Option<LLMType> {
    match name {
        "GPT3_5_16k" => Some(LLMType::GPT3_5_16k),
        "Gpt4" => Some(LLMType::Gpt4),
        "Gpt4Turbo" => Some(LLMType::Gpt4Turbo),
        "Mixtral" => Some(LLMType::Mixtral),
        _ => None,
    }
}

fn provider_named(name: &str) -> Option<LLMProvider> {
    match name {
        "OpenAI" => Some(LLMProvider::OpenAI),
        "Azure" => Some(LLMProvider::Azure),
        "TogetherAI" => Some(LLMProvider::TogetherAI),
        _ => None,
    }
}

fn text(value: &serde_json::Value, field: &str) -> Option<String> {
    value.get(field)?.as_str().map(|s| s.to_owned())
}

// Builds the configuration that a JSON document describes, by the calls of
// the library.
fn config_of(data: &str) -> Option<LLMClientConfig> {
    let document: serde_json::Value = serde_json::from_str(data).ok()?;
    let slow_model = model_named(document.get("slow_model")?.as_str()?)?;
    let fast_model = model_named(document.get("fast_model")?.as_str()?)?;
    let mut models = Vec::new();
    for (name, entry) in document.get("models")?.as_object()? {
        models.push((
            model_named(name)?,
            Model {
                context_length: u32::try_from(entry.get("context_length")?.as_u64()?).ok()?,
                temperature: FloatBits::from_bits(
                    (entry.get("temperature")?.as_f64()? as f32).to_bits(),
                ),
                provider: provider_named(entry.get("provider")?.as_str()?)?,
            },
        ));
    }
    let mut providers = Vec::new();
    for entry in document.get("providers")?.as_array()? {
        let (tag, body) = entry.as_object()?.iter().next()?;
        providers.push(match tag.as_str() {
            "OpenAI" => {
                LLMProviderAPIKeys::OpenAI(OpenAIProvider { api_key: text(body, "api_key")? })
            }
            "OpenAIAzureConfig" => LLMProviderAPIKeys::OpenAIAzureConfig(AzureConfig {
                deployment_id: text(body, "deployment_id")?,
                api_base: text(body, "api_base")?,
                api_key: text(body, "api_key")?,
                api_version: text(body, "api_version").unwrap_or_default(),
            }),
            _ => return None,
        });
    }
    LLMClientConfig::new(slow_model, fast_model, models, providers)
}

#[test]
fn test_json_should_convert_properly() {
    let data = r#"
        {
			"slow_model": "GPT3_5_16k",
			"fast_model": "GPT3_5_16k",
			"models": {
				"GPT3_5_16k": {
					"context_length": 16000,
					"temperature": 0.2,
					"provider": "Azure"
				}
			},
			"providers": [
				{
					"OpenAIAzureConfig": {
						"deployment_id": "gpt35-turbo-access",
						"api_base": "https://codestory-gpt4.openai.azure.com",
						"api_key": "89ca8a49a33344c9b794b3dabcbbc5d0"
					}
				}
			]
		}
        "#;
    let config = config_of(data);
    assert!(config.is_some());
    let config = config.unwrap();
    assert_eq!(config.slow_model, LLMType::GPT3_5_16k);
    assert_eq!(config.models[0].1.context_length, 16000);
    assert_eq!(f32::from_bits(config.models[0].1.temperature.to_bits()), 0.2);
    match config.provider_for_slow_model() {
        Some(LLMProviderAPIKeys::OpenAIAzureConfig(found)) => {
            assert_eq!(found.deployment_id, "gpt35-turbo-access");
            assert_eq!(found.api_base, "https://codestory-gpt4.openai.azure.com");
        }
        other => panic!("unexpected {:?}", other),
    }
    assert!(config.provider_for_fast_model().is_some());
}
