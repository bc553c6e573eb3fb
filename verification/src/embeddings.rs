//! The providers of embeddings that the context store can be set up with,
//! and the size of the vectors they give.

use crate::text::same_text;
use vstd::prelude::*;
use vstd::string::StringExecFns;

verus! {

/// A provider of embeddings.
#[derive(Clone, Debug)]
pub enum EmbeddingProvider {
    /// Hash-based embeddings of a fixed size, made on this machine.
    Simple { dimension: usize },
    /// OpenAI's embedding models.
    OpenAI { api_key: String, model: String },
    /// Embedding models that run on this machine under Ollama.
    Ollama { model: String },
}

/// Why a provider of embeddings could not be set up.
#[derive(Debug)]
pub enum EmbeddingError {
    /// OpenAI was asked for without an API key.
    MissingOpenAiKey,
    /// No provider has this name.
    Unsupported(String),
}

impl EmbeddingError {
    /// The error in words.
    pub open spec fn spec_message(self) -> Seq<char> {
        match self {
            EmbeddingError::MissingOpenAiKey =>
                "OpenAI API key is required for OpenAI embedding provider. Set --openai-api-key or OPENAI_API_KEY environment variable."@,
            EmbeddingError::Unsupported(name) => "Unsupported embedding provider: "@ + name@
                + ". Supported providers: simple, openai, ollama"@,
        }
    }

    /// The error in words.
    pub fn message(&self) -> (r: String)
        ensures
            r@ == self.spec_message(),
    {
        match self {
            EmbeddingError::MissingOpenAiKey =>
                "OpenAI API key is required for OpenAI embedding provider. Set --openai-api-key or OPENAI_API_KEY environment variable.".to_string(),
            EmbeddingError::Unsupported(name) => {
                let mut text = "Unsupported embedding provider: ".to_string();
                text.append(name.as_str());
                text.append(". Supported providers: simple, openai, ollama");
                text
            },
        }
    }
}

/// The outcome of setting up a provider, as plain values.
pub ghost enum EmbeddingChoice {
    Simple { dimension: usize },
    OpenAI { api_key: Seq<char>, model: Seq<char> },
    Ollama { model: Seq<char> },
    MissingOpenAiKey,
    Unsupported(Seq<char>),
}

/// The text of an optional text.
pub open spec fn optional_str(text: Option<&str>) -> Option<Seq<char>> {
    match text {
        Some(t) => Some(t@),
        None => None,
    }
}

/// The provider that a name, an optional model and an optional key lead
/// to. Where no model is named, each provider has its own.
pub open spec fn embedding_choice(
    provider_name: Seq<char>,
    model: Option<Seq<char>>,
    openai_api_key: Option<Seq<char>>,
) -> EmbeddingChoice {
    if provider_name == "simple"@ {
        EmbeddingChoice::Simple { dimension: 384 }
    } else if provider_name == "openai"@ {
        match openai_api_key {
            Some(api_key) => EmbeddingChoice::OpenAI {
                api_key,
                model: match model {
                    Some(m) => m,
                    None => "text-embedding-3-small"@,
                },
            },
            None => EmbeddingChoice::MissingOpenAiKey,
        }
    } else if provider_name == "ollama"@ {
        EmbeddingChoice::Ollama {
            model: match model {
                Some(m) => m,
                None => "nomic-embed-text"@,
            },
        }
    } else {
        EmbeddingChoice::Unsupported(provider_name)
    }
}

/// The size of the vectors that a provider gives. For OpenAI and Ollama
/// it goes by the model; a model that is not known counts as one of the
/// common size.
pub open spec fn embedding_dimension(provider: EmbeddingChoice) -> usize {
    match provider {
        EmbeddingChoice::Simple { dimension } => dimension,
        EmbeddingChoice::OpenAI { model, .. } => if model == "text-embedding-3-large"@ {
            3072
        } else {
            1536
        },
        EmbeddingChoice::Ollama { model } => if model == "nomic-embed-text"@ {
            768
        } else if model == "all-minilm"@ {
            384
        } else if model == "mxbai-embed-large"@ {
            1024
        } else {
            768
        },
        _ => 0,
    }
}

impl EmbeddingProvider {
    /// The provider as plain values.
    pub open spec fn choice(self) -> EmbeddingChoice {
        match self {
            EmbeddingProvider::Simple { dimension } => EmbeddingChoice::Simple { dimension },
            EmbeddingProvider::OpenAI { api_key, model } => EmbeddingChoice::OpenAI {
                api_key: api_key@,
                model: model@,
            },
            EmbeddingProvider::Ollama { model } => EmbeddingChoice::Ollama { model: model@ },
        }
    }

    /// Sets up the provider `provider_name`.
    pub fn new(provider_name: &str, model: Option<&str>, openai_api_key: Option<&str>) -> (r:
        Result<EmbeddingProvider, EmbeddingError>)
        ensures
            match r {
                Ok(p) => p.choice() == embedding_choice(
                    provider_name@,
                    optional_str(model),
                    optional_str(openai_api_key),
                ),
                Err(EmbeddingError::MissingOpenAiKey) => embedding_choice(
                    provider_name@,
                    optional_str(model),
                    optional_str(openai_api_key),
                ) is MissingOpenAiKey,
                Err(EmbeddingError::Unsupported(name)) => embedding_choice(
                    provider_name@,
                    optional_str(model),
                    optional_str(openai_api_key),
                ) == EmbeddingChoice::Unsupported(name@),
            },
    {
        if same_text(provider_name, "simple") {
            Ok(EmbeddingProvider::Simple { dimension: 384 })
        } else if same_text(provider_name, "openai") {
            match openai_api_key {
                Some(key) => {
                    let model = match model {
                        Some(m) => m,
                        None => "text-embedding-3-small",
                    };
                    Ok(
                        EmbeddingProvider::OpenAI {
                            api_key: key.to_string(),
                            model: model.to_string(),
                        },
                    )
                },
                None => Err(EmbeddingError::MissingOpenAiKey),
            }
        } else if same_text(provider_name, "ollama") {
            let model = match model {
                Some(m) => m,
                None => "nomic-embed-text",
            };
            Ok(EmbeddingProvider::Ollama { model: model.to_string() })
        } else {
            Err(EmbeddingError::Unsupported(provider_name.to_string()))
        }
    }

    /// The size of the vectors that the provider gives.
    pub fn dimension(&self) -> (r: usize)
        ensures
            r == embedding_dimension(self.choice()),
    {
        match self {
            EmbeddingProvider::Simple { dimension } => *dimension,
            EmbeddingProvider::OpenAI { model, .. } => {
                if same_text(model.as_str(), "text-embedding-3-large") {
                    3072
                } else {
                    1536
                }
            },
            EmbeddingProvider::Ollama { model } => {
                if same_text(model.as_str(), "nomic-embed-text") {
                    768
                } else if same_text(model.as_str(), "all-minilm") {
                    384
                } else if same_text(model.as_str(), "mxbai-embed-large") {
                    1024
                } else {
                    768
                }
            },
        }
    }

    /// The service that makes embeddings with this provider.
    pub fn create_service(self) -> (r: EmbeddingService)
        ensures
            r.provider() == self,
    {
        EmbeddingService::new(self)
    }
}

impl Default for EmbeddingProvider {
    fn default() -> (r: Self)
        ensures
            r == (EmbeddingProvider::Simple { dimension: 384 }),
    {
        EmbeddingProvider::Simple { dimension: 384 }
    }
}

/// Makes embeddings with one provider.
#[derive(Clone, Debug)]
pub struct EmbeddingService {
    provider: EmbeddingProvider,
}

impl EmbeddingService {
    /// The provider that the service works with.
    pub closed spec fn provider(&self) -> EmbeddingProvider {
        self.provider
    }

    /// A service that works with `provider`.
    pub fn new(provider: EmbeddingProvider) -> (r: Self)
        ensures
            r.provider() == provider,
    {
        EmbeddingService { provider }
    }

    /// The size of the vectors that the service gives.
    pub fn dimension(&self) -> (r: usize)
        ensures
            r == embedding_dimension(self.provider().choice()),
    {
        self.provider.dimension()
    }
}

} // verus!
