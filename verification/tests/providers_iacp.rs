use vega::iacp::{
    AgentInfo, AgentRegistry, IacpError, IacpMessage, IacpTransport, MessageMetadata, Priority,
    Recipient, TransportConfig, IACP_VERSION,
};
use vega::embeddings::{EmbeddingError, EmbeddingProvider, EmbeddingService};
use vega::logging::{LogEntry, LogLevel, LoggerConfig};
use vega::mcp::json::Json;
use vega::providers::{LLMProvider, ProviderError};
use vega::text::decimal;

#[test]
fn test_ollama_provider_creation() {
    let provider = LLMProvider::new("ollama", "llama3.2", None);
    assert!(provider.is_ok());

    if let Ok(LLMProvider::Ollama { model, .. }) = provider {
        assert_eq!(model, "llama3.2");
    } else {
        panic!("Expected Ollama provider");
    }
}

#[test]
fn test_openrouter_provider_creation_with_api_key() {
    let provider = LLMProvider::new("openrouter", "gpt-4", Some("test-api-key"));
    assert!(provider.is_ok());

    if let Ok(LLMProvider::OpenRouter { model, .. }) = provider {
        assert_eq!(model, "gpt-4");
    } else {
        panic!("Expected OpenRouter provider");
    }
}

#[test]
fn test_openrouter_provider_creation_without_api_key() {
    let provider = LLMProvider::new("openrouter", "gpt-4", None);
    assert!(provider.is_err());

    let error = provider.err().unwrap();
    assert!(error.message().contains("OpenRouter API key is required"));
}

#[test]
fn test_anthropic_provider_creation_with_api_key() {
    let provider =
        LLMProvider::new("anthropic", "sonnet-3-5-20241022", Some("test-api-key"));
    assert!(provider.is_ok());

    if let Ok(LLMProvider::Anthropic { model, .. }) = provider {
        assert_eq!(model, "sonnet-3-5-20241022");
    } else {
        panic!("Expected Anthropic provider");
    }
}

#[test]
fn test_anthropic_provider_creation_without_api_key() {
    let provider = LLMProvider::new("anthropic", "sonnet-3-5-20241022", None);
    assert!(provider.is_err());

    let error = provider.err().unwrap();
    assert!(error.message().contains("Anthropic API key is required"));
}

#[test]
fn test_unsupported_provider() {
    let provider = LLMProvider::new("unsupported", "model", None);
    assert!(provider.is_err());

    let error = provider.err().unwrap();
    assert!(error.message().contains("Unsupported provider: unsupported"));
}

#[test]
fn test_model_getter() {
    let ollama_provider = LLMProvider::new("ollama", "llama3.2", None).ok().unwrap();
    assert_eq!(ollama_provider.model(), "llama3.2");

    let openrouter_provider =
        LLMProvider::new("openrouter", "gpt-4", Some("test-key")).ok().unwrap();
    assert_eq!(openrouter_provider.model(), "gpt-4");

    let anthropic_provider =
        LLMProvider::new("anthropic", "sonnet-3-5-20241022", Some("test-key")).ok().unwrap();
    assert_eq!(anthropic_provider.model(), "sonnet-3-5-20241022");
}

#[test]
fn providers_keep_their_keys_and_errors_have_exact_texts() {
    match LLMProvider::new("openrouter", "m", Some("k1")) {
        Ok(LLMProvider::OpenRouter { api_key, model }) => {
            assert_eq!(api_key, "k1");
            assert_eq!(model, "m");
        }
        _ => panic!("Expected OpenRouter provider"),
    }
    assert!(matches!(LLMProvider::new("ollama", "m", Some("ignored")), Ok(LLMProvider::Ollama { .. })));
    assert!(matches!(LLMProvider::new("Ollama", "m", None), Err(ProviderError::Unsupported(_))));
    assert_eq!(
        ProviderError::Unsupported("x".to_string()).message(),
        "Unsupported provider: x. Supported providers: ollama, openrouter, anthropic"
    );
    assert_eq!(
        ProviderError::MissingAnthropicKey.message(),
        "Anthropic API key is required for anthropic provider. Set --anthropic-api-key or ANTHROPIC_API_KEY environment variable."
    );
}

#[test]
fn decimal_writes_numbers() {
    assert_eq!(decimal(0), "0");
    assert_eq!(decimal(7), "7");
    assert_eq!(decimal(10), "10");
    assert_eq!(decimal(1234567890), "1234567890");
    assert_eq!(decimal(u64::MAX), "18446744073709551615");
}

fn entry() -> LogEntry {
    LogEntry::new(
        "id-1".to_string(),
        "2025-09-01 21:19:32.454 UTC".to_string(),
        LogLevel::Info,
        "Test message".to_string(),
        "test_session".to_string(),
        Some("test_module".to_string()),
        Some("test.rs".to_string()),
        Some(42),
        Some("test_target".to_string()),
    )
}

#[test]
fn test_log_entry_formatting() {
    let entry = entry();

    let console_format = entry.format_console();
    assert!(console_format.contains("INFO"));
    assert!(console_format.contains("Test message"));
    assert!(console_format.contains("test.rs:42"));

    let json_format = entry.format_json().unwrap();
    assert!(json_format.contains("\"level\":\"INFO\""));
    assert!(json_format.contains("\"message\":\"Test message\""));
    assert!(json_format.contains("\"session_id\":\"test_session\""));

    let vector_format = entry.format_vector_store();
    assert!(vector_format.contains("Level: INFO"));
    assert!(vector_format.contains("Message: Test message"));
    assert!(vector_format.contains("Session: test_session"));
}

#[test]
fn log_entry_exact_formats() {
    let full = entry();
    assert_eq!(
        full.format_console(),
        "2025-09-01 21:19:32.454 UTC [INFO] [test.rs:42] Test message"
    );
    assert_eq!(
        full.format_vector_store(),
        "Level: INFO | Message: Test message | Session: test_session | Module: test_module | Target: test_target"
    );
    let with_meta = entry().with_metadata(vec![
        ("k".to_string(), "v".to_string()),
        ("a".to_string(), "b".to_string()),
    ]);
    assert_eq!(
        with_meta.format_vector_store(),
        "Level: INFO | Message: Test message | Session: test_session | Module: test_module | Target: test_target | Metadata: k: v, a: b"
    );
    let mut by_module = entry();
    by_module.line = None;
    assert_eq!(
        by_module.format_console(),
        "2025-09-01 21:19:32.454 UTC [INFO] [test_module] Test message"
    );
    let bare = LogEntry::new(
        String::new(),
        "t".to_string(),
        LogLevel::Error,
        "m".to_string(),
        "s".to_string(),
        None,
        None,
        Some(3),
        None,
    );
    assert_eq!(bare.format_console(), "t [ERROR] m");
    assert_eq!(bare.format_vector_store(), "Level: ERROR | Message: m | Session: s");
}

#[test]
fn logger_lets_through_what_is_severe_enough() {
    let config = LoggerConfig::new("s".to_string()).with_console_level(LogLevel::Warn);
    assert!(config.allows(LogLevel::Error));
    assert!(config.allows(LogLevel::Warn));
    assert!(!config.allows(LogLevel::Info));
    assert_eq!(config.destinations(LogLevel::Error, true, true), (true, true, false));
    assert_eq!(config.destinations(LogLevel::Debug, true, true), (false, false, false));
    let config = config.with_vector_store(true).with_console_output(false);
    assert_eq!(config.destinations(LogLevel::Warn, false, true), (false, false, true));
    assert_eq!(config.destinations(LogLevel::Warn, false, false), (false, false, false));
}

fn agent(id: &str, capabilities: &[&str]) -> AgentInfo {
    AgentInfo {
        agent_id: id.to_string(),
        agent_name: format!("agent {}", id),
        capabilities: capabilities.iter().map(|c| c.to_string()).collect(),
    }
}

#[test]
fn registry_registers_finds_and_unregisters() {
    let mut registry = AgentRegistry::new();
    assert!(registry.get_all_agents().is_empty());
    registry.register_agent(agent("a", &["search", "code"]));
    registry.register_agent(agent("b", &["code"]));
    registry.register_agent(agent("c", &[]));
    registry.register_agent(agent("a", &["search"]));

    let all: Vec<&str> = registry.get_all_agents().iter().map(|a| a.agent_id.as_str()).collect();
    assert_eq!(all, vec!["a", "b", "c"]);
    assert_eq!(registry.get_agent("a").unwrap().capabilities, vec!["search"]);
    assert!(registry.get_agent("z").is_none());

    let coders: Vec<&str> = registry
        .find_agents_by_capability("code")
        .iter()
        .map(|a| a.agent_id.as_str())
        .collect();
    assert_eq!(coders, vec!["b"]);
    assert!(registry.find_agents_by_capability("fly").is_empty());
    assert!(AgentRegistry::has_capability(&agent("x", &["search"]), "search"));
    assert!(!AgentRegistry::has_capability(&agent("x", &["search"]), "Search"));

    assert!(registry.unregister_agent("b"));
    assert!(!registry.unregister_agent("b"));
    assert_eq!(registry.get_all_agents().len(), 2);
    assert!(AgentRegistry::default().get_all_agents().is_empty());
}

#[test]
fn iacp_message_defaults_and_builders() {
    let message = IacpMessage::new(
        "m-1".to_string(),
        "2025-01-01T00:00:00Z".to_string(),
        agent("a", &[]),
        Recipient { agent_id: Some("b".to_string()), broadcast: false },
        "chat".to_string(),
        Json::text("hello"),
    );
    assert_eq!(message.iacp_version, IACP_VERSION);
    assert_eq!(message.iacp_version, "1.0");
    assert_eq!(message.message_id, "m-1");
    assert!(message.conversation_id.is_none());
    assert_eq!(message.metadata.priority, Priority::Normal);
    assert!(!message.metadata.requires_response);
    assert_eq!(Priority::default(), Priority::Normal);

    let message = message.with_conversation("c-1".to_string(), Some("m-0".to_string()));
    assert_eq!(message.conversation_id.as_deref(), Some("c-1"));
    assert_eq!(message.parent_message_id.as_deref(), Some("m-0"));
    let message = message.with_metadata(MessageMetadata {
        priority: Priority::Urgent,
        expires_at: None,
        requires_response: true,
        response_timeout: Some(5),
    });
    assert_eq!(message.metadata.priority, Priority::Urgent);
    assert_eq!(message.metadata.response_timeout, Some(5));
    assert_eq!(message.payload.as_str(), Some("hello"));
}

#[test]
fn iacp_transport_configuration() {
    let config = TransportConfig::default();
    assert_eq!(config.bind_address, "127.0.0.1");
    assert_eq!(config.port_range, (9000, 9999));
    assert_eq!(config.max_message_size, 16 * 1024 * 1024);
    assert_eq!(config.connection_timeout, 30);
    assert_eq!(config.heartbeat_interval, 30);
    let transport = IacpTransport::new(config.clone());
    assert_eq!(transport.config().port_range, (9000, 9999));
    let error = IacpError::MessageTimeout { timeout_ms: 5 };
    assert!(matches!(error, IacpError::MessageTimeout { timeout_ms: 5 }));
}

#[test]
fn log_level_from_a_setting() {
    assert_eq!(LogLevel::from_env_or_default(Some("DEBUG"), LogLevel::Info), LogLevel::Debug);
    assert_eq!(LogLevel::from_env_or_default(Some("nonsense"), LogLevel::Error), LogLevel::Info);
    assert_eq!(LogLevel::from_env_or_default(None, LogLevel::Trace), LogLevel::Trace);
}

#[test]
fn log_entry_as_json() {
    let full = entry().with_metadata(vec![("k".to_string(), "v".to_string())]);
    assert_eq!(
        full.format_json().unwrap(),
        r#"{"file":"test.rs","id":"id-1","level":"INFO","line":42,"message":"Test message","metadata":{"k":"v"},"module":"test_module","session_id":"test_session","target":"test_target","timestamp":"2025-09-01 21:19:32.454 UTC"}"#
    );
    let bare = LogEntry::new(
        "i".to_string(),
        "t".to_string(),
        LogLevel::Warn,
        "m".to_string(),
        "s".to_string(),
        None,
        None,
        None,
        None,
    );
    assert_eq!(
        bare.to_json().to_text().unwrap(),
        r#"{"file":null,"id":"i","level":"WARN","line":null,"message":"m","metadata":{},"module":null,"session_id":"s","target":null,"timestamp":"t"}"#
    );
}

#[test]
fn test_embedding_service_creation() {
    let provider = EmbeddingProvider::Simple { dimension: 384 };
    let service = EmbeddingService::new(provider);
    assert_eq!(service.dimension(), 384);
}

#[test]
fn test_embedding_provider_default() {
    let provider = EmbeddingProvider::default();
    match provider {
        EmbeddingProvider::Simple { dimension } => {
            assert_eq!(dimension, 384);
        }
        _ => panic!("Default should be Simple provider"),
    }
}

#[test]
fn test_ollama_embedding_dimensions() {
    let dimension_of = |model: &str| {
        let provider = EmbeddingProvider::Ollama { model: model.to_string() };
        EmbeddingService::new(provider).dimension()
    };
    assert_eq!(dimension_of("nomic-embed-text"), 768);
    assert_eq!(dimension_of("all-minilm"), 384);
    assert_eq!(dimension_of("mxbai-embed-large"), 1024);
    assert_eq!(dimension_of("unknown-model"), 768);
}

#[test]
fn embedding_providers_are_set_up_by_name() {
    assert!(matches!(
        EmbeddingProvider::new("simple", Some("x"), None),
        Ok(EmbeddingProvider::Simple { dimension: 384 })
    ));
    match EmbeddingProvider::new("openai", None, Some("key")) {
        Ok(EmbeddingProvider::OpenAI { api_key, model }) => {
            assert_eq!(api_key, "key");
            assert_eq!(model, "text-embedding-3-small");
        }
        other => panic!("unexpected: {:?}", other),
    }
    assert_eq!(
        EmbeddingProvider::new("openai", Some("text-embedding-3-large"), Some("k"))
            .unwrap()
            .dimension(),
        3072
    );
    assert_eq!(
        EmbeddingProvider::new("openai", Some("text-embedding-ada-002"), Some("k"))
            .unwrap()
            .create_service()
            .dimension(),
        1536
    );
    match EmbeddingProvider::new("openai", None, None) {
        Err(e) => {
            assert!(matches!(e, EmbeddingError::MissingOpenAiKey));
            assert!(e.message().starts_with("OpenAI API key is required"));
        }
        Ok(_) => panic!("expected an error"),
    }
    match EmbeddingProvider::new("ollama", None, None) {
        Ok(EmbeddingProvider::Ollama { model }) => assert_eq!(model, "nomic-embed-text"),
        other => panic!("unexpected: {:?}", other),
    }
    match EmbeddingProvider::new("cloud", None, None) {
        Err(e) => assert_eq!(
            e.message(),
            "Unsupported embedding provider: cloud. Supported providers: simple, openai, ollama"
        ),
        Ok(_) => panic!("expected an error"),
    }
}
