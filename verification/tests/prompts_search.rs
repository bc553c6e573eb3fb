use vega::agents::{
    interpret_rendering, render_prompt_template, render_system_prompt, TemplateError,
};
use vega::mcp::json::Json;
use vega::tools::web_search::{WebSearchResult, WebSearchTool};

const NOW: &str = "2025-01-02 03:04:05 UTC";
const HERE: &str = "/home/user/project";

#[test]
fn test_render_prompt_template_empty() {
    let result = render_prompt_template("", NOW, HERE);
    assert!(result.is_ok());
    assert_eq!(result.unwrap(), "");
}

#[test]
fn test_render_prompt_template_no_variables() {
    let template = "Hello, this is a simple template without variables.";
    let result = render_prompt_template(template, NOW, HERE);
    assert!(result.is_ok());
    assert_eq!(result.unwrap(), template);
}

#[test]
fn test_render_prompt_template_with_current_datetime() {
    let template = "The current date and time is {{currentDateTime}}.";
    let result = render_prompt_template(template, NOW, HERE);
    assert!(result.is_ok());
    let rendered = result.unwrap();
    assert!(rendered.starts_with("The current date and time is "));
    assert!(rendered.contains("UTC"));
    assert_eq!(rendered, "The current date and time is 2025-01-02 03:04:05 UTC.");
}

#[test]
fn test_render_prompt_template_with_current_working_directory() {
    let template = "Current working directory: {{currentWorkingDirectory}}";
    let result = render_prompt_template(template, NOW, HERE);
    assert!(result.is_ok());
    let rendered = result.unwrap();
    assert!(rendered.starts_with("Current working directory: "));
    assert_eq!(rendered, "Current working directory: /home/user/project");
}

#[test]
fn test_render_prompt_template_unknown_variable() {
    let template = "Hello {{unknownVariable}}!";
    let result = render_prompt_template(template, NOW, HERE);
    assert!(result.is_err());
    let error_msg = result.unwrap_err().message();
    assert!(error_msg.contains("Unknown template variable"));
    assert!(error_msg.contains("currentDateTime, currentWorkingDirectory"));
}

#[test]
fn test_render_prompt_template_multiple_variables() {
    let template = "Time: {{currentDateTime}}, Directory: {{currentWorkingDirectory}}";
    let result = render_prompt_template(template, NOW, HERE);
    assert!(result.is_ok());
    let rendered = result.unwrap();
    assert!(rendered.contains("Time: "));
    assert!(rendered.contains("Directory: "));
    assert!(rendered.contains("UTC"));
}

#[test]
fn template_errors_are_told_apart() {
    match render_prompt_template("{% if %}", NOW, HERE) {
        Err(TemplateError::Rendering(account)) => {
            assert!(!account.is_empty());
            assert_eq!(
                TemplateError::Rendering(account.clone()).message(),
                format!("Template rendering error: {}", account)
            );
        }
        other => panic!("unexpected: {:?}", other),
    }
    assert!(matches!(
        interpret_rendering(Err("undefined value: x".to_string())),
        Err(TemplateError::UnknownVariable)
    ));
    assert!(matches!(
        interpret_rendering(Err("syntax error".to_string())),
        Err(TemplateError::Rendering(_))
    ));
    assert_eq!(interpret_rendering(Ok("fine".to_string())).unwrap(), "fine");
    assert_eq!(
        TemplateError::UnknownVariable.message(),
        "Unknown template variable. Supported variables are: currentDateTime, currentWorkingDirectory"
    );
}

#[test]
fn system_prompt_rendering() {
    assert_eq!(render_system_prompt("", NOW, HERE).unwrap(), "");
    assert_eq!(
        render_system_prompt("You work in {{currentWorkingDirectory}}.", NOW, HERE).unwrap(),
        "You work in /home/user/project."
    );
    assert!(render_system_prompt("{{nope}}", NOW, HERE).is_err());
}

fn triple(r: &WebSearchResult) -> (&str, &str, &str) {
    (r.title.as_str(), r.url.as_str(), r.snippet.as_str())
}

#[test]
fn search_url_encodes_the_query() {
    assert_eq!(
        WebSearchTool::search_url("rust lang & more/ü"),
        "https://api.duckduckgo.com/?q=rust%20lang%20%26%20more%2F%C3%BC&format=json&no_html=1&skip_disambig=1"
    );
    assert_eq!(
        WebSearchTool::search_url("a-b_c.d~e"),
        "https://api.duckduckgo.com/?q=a-b_c.d~e&format=json&no_html=1&skip_disambig=1"
    );
}

#[test]
fn search_results_from_an_answer() {
    let answer = Json::parse(
        r#"{"Abstract":"Rust is a language.","AbstractURL":"https://rust-lang.org","AbstractSource":"Wikipedia",
            "RelatedTopics":[{"Text":"Cargo","FirstURL":"https://a"},{"Name":"group"},{"Text":"Crates","FirstURL":"https://b"},{"Text":"More","FirstURL":"https://c"}]}"#,
    )
    .unwrap();
    let results = WebSearchTool::results(&answer, "rust", 5);
    let got: Vec<(&str, &str, &str)> = results.iter().map(triple).collect();
    assert_eq!(
        got,
        vec![
            ("Wikipedia", "https://rust-lang.org", "Rust is a language."),
            ("Related Topic", "https://a", "Cargo"),
            ("Related Topic", "https://b", "Crates"),
            ("Related Topic", "https://c", "More"),
        ]
    );
    // Only the first topics are looked at, whether they give a result or not.
    let results = WebSearchTool::results(&answer, "rust", 3);
    let got: Vec<(&str, &str, &str)> = results.iter().map(triple).collect();
    assert_eq!(
        got,
        vec![
            ("Wikipedia", "https://rust-lang.org", "Rust is a language."),
            ("Related Topic", "https://a", "Cargo"),
        ]
    );
    assert_eq!(WebSearchTool::results(&answer, "rust", 0).len(), 1);
}

#[test]
fn search_results_fall_back_to_a_manual_search() {
    let empty = Json::parse(r#"{"Abstract":"","AbstractURL":"https://x","RelatedTopics":[]}"#).unwrap();
    let results = WebSearchTool::results(&empty, "what is up?", 5);
    assert_eq!(results.len(), 1);
    assert_eq!(
        triple(&results[0]),
        (
            "Search Query",
            "https://duckduckgo.com/?q=what%20is%20up%3F",
            "No instant results found for 'what is up?'. You can search manually at the provided URL."
        )
    );
    let no_source =
        Json::parse(r#"{"Abstract":"text","AbstractURL":"https://x","RelatedTopics":"none"}"#).unwrap();
    let results = WebSearchTool::results(&no_source, "q", 5);
    assert_eq!(results.len(), 1);
    assert_eq!(triple(&results[0]), ("DuckDuckGo", "https://x", "text"));
    assert_eq!(WebSearchTool::results(&Json::Null, "q", 5).len(), 1);
}
