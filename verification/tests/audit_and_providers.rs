use comgen::audit::{AuditIssueJson, AuditResult, parse_audit_response};
use comgen::config::Config;
use comgen::providers::{BackendError, Provider, create_provider};

fn issue(severity: &str) -> AuditIssueJson {
    AuditIssueJson {
        severity: severity.to_string(),
        title: "t".to_string(),
        impact: "i".to_string(),
        context: "c".to_string(),
        suggestion: "s".to_string(),
    }
}

fn finding_json() -> String {
    "[{\"severity\": \"HIGH\", \"title\": \"Injection\", \"impact\": \"bad\", \"context\": \"line 3\", \"suggestion\": \"escape input\"}]".to_string()
}

#[test]
fn has_critical_is_true_iff_a_finding_is_critical() {
    let none = AuditResult { issues: vec![], summary: String::new() };
    assert!(!none.has_critical_issues());

    let low = AuditResult { issues: vec![issue("LOW"), issue("HIGH")], summary: String::new() };
    assert!(!low.has_critical_issues());

    let critical = AuditResult {
        issues: vec![issue("LOW"), issue("CRITICAL")],
        summary: String::new(),
    };
    assert!(critical.has_critical_issues());

    let lowercase = AuditResult { issues: vec![issue("critical")], summary: String::new() };
    assert!(!lowercase.has_critical_issues());
}

#[test]
fn audit_response_is_parsed_with_fences_stripped() {
    let fenced = format!("```json\n{}\n```", finding_json());
    let result = parse_audit_response(&fenced).unwrap();
    assert_eq!(result.issues.len(), 1);
    assert_eq!(result.issues[0].severity, "HIGH");
    assert_eq!(result.issues[0].title, "Injection");
    assert_eq!(result.issues[0].suggestion, "escape input");
    assert_eq!(result.summary, "Found 1 issues");
}

#[test]
fn audit_response_without_fences_also_parses() {
    let result = parse_audit_response(&finding_json()).unwrap();
    assert_eq!(result.issues.len(), 1);
    assert_eq!(result.summary, "Found 1 issues");
}

#[test]
fn empty_finding_list_parses_to_zero_findings() {
    let result = parse_audit_response("[]").unwrap();
    assert!(result.issues.is_empty());
    assert_eq!(result.summary, "Found 0 issues");
}

#[test]
fn invalid_audit_text_fails_to_parse() {
    assert!(parse_audit_response("not json at all").is_err());
    assert!(parse_audit_response("{\"severity\": \"HIGH\"}").is_err());
    assert!(parse_audit_response("[{\"severity\": \"HIGH\"}]").is_err());
    assert!(parse_audit_response("[{\"severity\": 3, \"title\": \"t\", \"impact\": \"i\", \"context\": \"c\", \"suggestion\": \"s\"}]").is_err());
}

fn config_for(provider: &str) -> Config {
    let mut config = Config::default();
    config.provider = provider.to_string();
    config.model = "m1".to_string();
    config.openai_api_key = "test-key".to_string();
    config.anthropic_api_key = "test-key".to_string();
    config.ollama_url = "http://localhost:11434".to_string();
    config
}

#[test]
fn create_provider_selects_the_named_backend() {
    let openai = create_provider("openai", &config_for("openai"));
    assert!(matches!(openai, Provider::OpenAI(_)));
    let anthropic = create_provider("anthropic", &config_for("anthropic"));
    assert!(matches!(anthropic, Provider::Anthropic(_)));
    let ollama = create_provider("ollama", &config_for("ollama"));
    match ollama {
        Provider::Ollama(p) => {
            assert_eq!(p.model, "m1");
            assert_eq!(p.base_url, "http://localhost:11434");
        }
        _ => panic!("expected the local backend"),
    }
}

#[test]
fn openai_request_body_is_exact_json() {
    let provider = create_provider("openai", &config_for("openai"));
    let body = provider.request_body("say \"hi\"\nplease");
    assert_eq!(
        body,
        "{\"model\":\"m1\",\"messages\":[{\"role\":\"user\",\"content\":\"say \\\"hi\\\"\\nplease\"}]}"
    );
    let parsed: serde_json::Value = serde_json::from_str(&body).unwrap();
    assert_eq!(parsed["messages"][0]["content"], "say \"hi\"\nplease");
}

#[test]
fn anthropic_request_body_wraps_the_prompt_in_turns() {
    let provider = create_provider("anthropic", &config_for("anthropic"));
    let body = provider.request_body("hello");
    assert_eq!(
        body,
        "{\"model\":\"m1\",\"prompt\":\"\\n\\nHuman: hello\\n\\nAssistant:\",\"max_tokens_to_sample\":1000,\"temperature\":0.7}"
    );
    let parsed: serde_json::Value = serde_json::from_str(&body).unwrap();
    assert_eq!(parsed["prompt"], "\n\nHuman: hello\n\nAssistant:");
    assert_eq!(parsed["max_tokens_to_sample"], 1000);
}

#[test]
fn ollama_request_body_disables_streaming() {
    let provider = create_provider("ollama", &config_for("ollama"));
    let body = provider.request_body("p");
    assert_eq!(body, "{\"model\":\"m1\",\"prompt\":\"p\",\"stream\":false}");
    let parsed: serde_json::Value = serde_json::from_str(&body).unwrap();
    assert_eq!(parsed["stream"], false);
}

#[test]
fn openai_response_text_comes_from_the_first_choice() {
    let provider = create_provider("openai", &config_for("openai"));
    let body = "{\"choices\":[{\"message\":{\"content\":\"fix: it\"}}],\"usage\":{}}";
    assert_eq!(provider.extract_response(200, body).unwrap(), "fix: it");

    let missing = "{\"choices\":[]}";
    assert!(matches!(
        provider.extract_response(200, missing),
        Err(BackendError::MalformedResponse(_))
    ));
    assert!(matches!(
        provider.extract_response(200, "garbage"),
        Err(BackendError::Transport(_))
    ));
}

#[test]
fn anthropic_response_text_comes_from_completion() {
    let provider = create_provider("anthropic", &config_for("anthropic"));
    assert_eq!(
        provider.extract_response(200, "{\"completion\":\"done\"}").unwrap(),
        "done"
    );
    assert!(matches!(
        provider.extract_response(200, "{\"other\":1}"),
        Err(BackendError::MalformedResponse(_))
    ));
}

#[test]
fn ollama_rejects_failing_status_before_reading_the_body() {
    let provider = create_provider("ollama", &config_for("ollama"));
    assert!(matches!(
        provider.extract_response(500, "{\"response\":\"x\"}"),
        Err(BackendError::HttpStatus(500))
    ));
    assert_eq!(
        provider.extract_response(200, "{\"response\":\"x\"}").unwrap(),
        "x"
    );
    assert!(matches!(
        provider.extract_response(200, "{\"response\":7}"),
        Err(BackendError::MalformedResponse(_))
    ));
}

#[test]
fn endpoints_and_auth_headers_follow_the_variant() {
    let openai = create_provider("openai", &config_for("openai"));
    assert_eq!(openai.endpoint(), "https://api.openai.com/v1/chat/completions");
    let headers = openai.auth_headers();
    assert_eq!(headers.len(), 1);
    assert_eq!(headers[0].0, "Authorization");
    assert!(headers[0].1.starts_with("Bearer "));

    let anthropic = create_provider("anthropic", &config_for("anthropic"));
    assert_eq!(anthropic.endpoint(), "https://api.anthropic.com/v1/complete");
    let headers = anthropic.auth_headers();
    assert_eq!(headers.len(), 2);
    assert_eq!(headers[0].0, "x-api-key");
    assert_eq!(headers[1].0, "anthropic-version");
    assert_eq!(headers[1].1, "2023-06-01");

    let ollama = create_provider("ollama", &config_for("ollama"));
    assert_eq!(ollama.endpoint(), "http://localhost:11434/api/generate");
    assert!(ollama.auth_headers().is_empty());
}
