//! The model providers that an agent can be set up with.

use crate::text::same_text;
use vstd::prelude::*;
use vstd::string::StringExecFns;

verus! {

/// A provider of language models, with what is needed to reach it.
#[derive(Clone)]
pub enum LLMProvider {
    /// Models that run on this machine; no key is needed.
    Ollama { model: String },
    /// Models behind the OpenRouter service.
    OpenRouter { api_key: String, model: String },
    /// Anthropic's models.
    Anthropic { api_key: String, model: String },
}

/// Why a provider could not be set up.
#[derive(Debug)]
pub enum ProviderError {
    /// OpenRouter was asked for without an API key.
    MissingOpenRouterKey,
    /// Anthropic was asked for without an API key.
    MissingAnthropicKey,
    /// No provider has this name.
    Unsupported(String),
}

impl ProviderError {
    /// The error in words.
    pub open spec fn spec_message(self) -> Seq<char> {
        match self {
            ProviderError::MissingOpenRouterKey =>
                "OpenRouter API key is required for openrouter provider. Set --openrouter-api-key or OPENROUTER_API_KEY environment variable."@,
            ProviderError::MissingAnthropicKey =>
                "Anthropic API key is required for anthropic provider. Set --anthropic-api-key or ANTHROPIC_API_KEY environment variable."@,
            ProviderError::Unsupported(name) => "Unsupported provider: "@ + name@
                + ". Supported providers: ollama, openrouter, anthropic"@,
        }
    }

    /// The error in words.
    pub fn message(&self) -> (r: String)
        ensures
            r@ == self.spec_message(),
    {
        match self {
            ProviderError::MissingOpenRouterKey =>
                "OpenRouter API key is required for openrouter provider. Set --openrouter-api-key or OPENROUTER_API_KEY environment variable.".to_string(),
            ProviderError::MissingAnthropicKey =>
                "Anthropic API key is required for anthropic provider. Set --anthropic-api-key or ANTHROPIC_API_KEY environment variable.".to_string(),
            ProviderError::Unsupported(name) => {
                let mut text = "Unsupported provider: ".to_string();
                text.append(name.as_str());
                text.append(". Supported providers: ollama, openrouter, anthropic");
                text
            },
        }
    }
}

/// The outcome of setting up a provider, as plain values.
pub ghost enum ProviderChoice {
    Ollama { model: Seq<char> },
    OpenRouter { api_key: Seq<char>, model: Seq<char> },
    Anthropic { api_key: Seq<char>, model: Seq<char> },
    MissingOpenRouterKey,
    MissingAnthropicKey,
    Unsupported(Seq<char>),
}

/// The provider that a name, a model and an optional key lead to. The
/// name decides; `openrouter` and `anthropic` need a key, and `ollama`
/// takes no notice of one.
pub open spec fn provider_choice(
    provider_name: Seq<char>,
    model: Seq<char>,
    api_key: Option<Seq<char>>,
) -> ProviderChoice {
    if provider_name == "ollama"@ {
        ProviderChoice::Ollama { model }
    } else if provider_name == "openrouter"@ {
        match api_key {
            Some(api_key) => ProviderChoice::OpenRouter { api_key, model },
            None => ProviderChoice::MissingOpenRouterKey,
        }
    } else if provider_name == "anthropic"@ {
        match api_key {
            Some(api_key) => ProviderChoice::Anthropic { api_key, model },
            None => ProviderChoice::MissingAnthropicKey,
        }
    } else {
        ProviderChoice::Unsupported(provider_name)
    }
}

/// The text of an optional text.
pub open spec fn key_text(api_key: Option<&str>) -> Option<Seq<char>> {
    match api_key {
        Some(k) => Some(k@),
        None => None,
    }
}

impl LLMProvider {
    /// The provider as plain values.
    pub open spec fn choice(self) -> ProviderChoice {
        match self {
            LLMProvider::Ollama { model } => ProviderChoice::Ollama { model: model@ },
            LLMProvider::OpenRouter { api_key, model } => ProviderChoice::OpenRouter {
                api_key: api_key@,
                model: model@,
            },
            LLMProvider::Anthropic { api_key, model } => ProviderChoice::Anthropic {
                api_key: api_key@,
                model: model@,
            },
        }
    }

    /// Sets up the provider `provider_name` for `model`.
    pub fn new(provider_name: &str, model: &str, api_key: Option<&str>) -> (r: Result<
        LLMProvider,
        ProviderError,
    >)
        ensures
            match r {
                Ok(p) => p.choice() == provider_choice(provider_name@, model@, key_text(api_key)),
                Err(ProviderError::MissingOpenRouterKey) => provider_choice(
                    provider_name@,
                    model@,
                    key_text(api_key),
                ) is MissingOpenRouterKey,
                Err(ProviderError::MissingAnthropicKey) => provider_choice(
                    provider_name@,
                    model@,
                    key_text(api_key),
                ) is MissingAnthropicKey,
                Err(ProviderError::Unsupported(name)) => provider_choice(
                    provider_name@,
                    model@,
                    key_text(api_key),
                ) == ProviderChoice::Unsupported(name@),
            },
    {
        if same_text(provider_name, "ollama") {
            Ok(LLMProvider::Ollama { model: model.to_string() })
        } else if same_text(provider_name, "openrouter") {
            match api_key {
                Some(key) => Ok(
                    LLMProvider::OpenRouter { api_key: key.to_string(), model: model.to_string() },
                ),
                None => Err(ProviderError::MissingOpenRouterKey),
            }
        } else if same_text(provider_name, "anthropic") {
            match api_key {
                Some(key) => Ok(
                    LLMProvider::Anthropic { api_key: key.to_string(), model: model.to_string() },
                ),
                None => Err(ProviderError::MissingAnthropicKey),
            }
        } else {
            Err(ProviderError::Unsupported(provider_name.to_string()))
        }
    }

    /// The model that the provider was set up for.
    pub fn model(&self) -> (r: &str)
        ensures
            r@ == match *self {
                LLMProvider::Ollama { model } => model@,
                LLMProvider::OpenRouter { model, .. } => model@,
                LLMProvider::Anthropic { model, .. } => model@,
            },
    {
        match self {
            LLMProvider::Ollama { model } => model.as_str(),
            LLMProvider::OpenRouter { model, .. } => model.as_str(),
            LLMProvider::Anthropic { model, .. } => model.as_str(),
        }
    }
}

} // verus!
