use comgen::cli::Cli;
use comgen::config::{AuditConfig, CommitTemplate, Config, ConfigLoader, LocalTemplate};
use comgen::git::{ChangeStatus, GitCommands};
use comgen::prompt::{build_audit_prompt, build_file_prompt};
use comgen::text::{is_consent, is_rejection, replace_all_str, replace_first_str, usize_to_string};
use comgen::utils::StringUtils;

fn sample_templates() -> LocalTemplate {
    LocalTemplate {
        commit_types: vec!["feat".to_string(), "fix".to_string()],
        output_format: CommitTemplate {
            template: "type: subject".to_string(),
            max_length: 72,
            examples: vec!["feat: add parser".to_string(), "fix: close file".to_string()],
        },
    }
}

#[test]
fn merge_keeps_deleted_first_and_unique() {
    let deleted = vec!["a.txt".to_string(), "b.txt".to_string()];
    let modified = vec!["b.txt".to_string(), "c.txt".to_string()];
    let merged = GitCommands::merge_listings(&deleted, &modified);
    assert_eq!(merged.len(), 3);
    assert_eq!(merged[0].path, "a.txt");
    assert!(matches!(merged[0].status, ChangeStatus::Deleted));
    assert_eq!(merged[1].path, "b.txt");
    assert!(matches!(merged[1].status, ChangeStatus::Deleted));
    assert_eq!(merged[2].path, "c.txt");
    assert!(matches!(merged[2].status, ChangeStatus::Modified));
}

#[test]
fn merge_of_empty_listings_is_empty() {
    let merged = GitCommands::merge_listings(&Vec::new(), &Vec::new());
    assert!(merged.is_empty());
}

#[test]
fn prompt_is_built_in_fixed_order() {
    let templates = sample_templates();
    let built = build_file_prompt("DIFF", &templates, "Describe:\n{{git_diff}}\nEnd");
    let expected = "Describe:\nDIFF\nEnd\n\nAllowed commit types:\n- feat\n- fix\n\nOutput format requirements:\n- Follow this template: type: subject\n- Maximum length: 72 characters\n\nExample commits:\n- feat: add parser\n- fix: close file";
    assert_eq!(built, expected);
}

#[test]
fn prompt_substitutes_only_first_placeholder() {
    let templates = sample_templates();
    let built = build_file_prompt("D", &templates, "{{git_diff}} and {{git_diff}}");
    assert!(built.starts_with("D and {{git_diff}}"));
}

#[test]
fn prompt_construction_is_deterministic() {
    let templates = sample_templates();
    let one = build_file_prompt("same diff", &templates, "base {{git_diff}}");
    let two = build_file_prompt("same diff", &templates, "base {{git_diff}}");
    assert_eq!(one, two);
}

#[test]
fn audit_prompt_substitutes_every_placeholder() {
    let built = build_audit_prompt("DIFF", "Audit this:\n{{git_diff}}");
    assert_eq!(built, "Audit this:\nDIFF");
    let twice = build_audit_prompt("D", "{{git_diff}} then {{git_diff}}");
    assert_eq!(twice, "D then D");
}

#[test]
fn replace_first_leaves_text_without_needle() {
    assert_eq!(replace_first_str("abc", "xyz", "q"), "abc");
    assert_eq!(replace_first_str("aXbXc", "X", "-"), "a-bXc");
}

#[test]
fn replace_all_strips_every_occurrence() {
    assert_eq!(replace_all_str("```json\n[]\n```", "```json", ""), "\n[]\n```");
    assert_eq!(replace_all_str("a``` b``` c", "```", ""), "a b c");
}

#[test]
fn decimal_rendering_is_exact() {
    assert_eq!(usize_to_string(0), "0");
    assert_eq!(usize_to_string(72), "72");
    assert_eq!(usize_to_string(1000), "1000");
}

#[test]
fn rejection_token_is_n_in_either_case() {
    assert!(is_rejection("n"));
    assert!(is_rejection(" N \n"));
    assert!(!is_rejection(""));
    assert!(!is_rejection("no"));
    assert!(!is_rejection("y"));
}

#[test]
fn consent_token_is_exactly_lowercase_y() {
    assert!(is_consent("y"));
    assert!(is_consent(" y\n"));
    assert!(!is_consent("Y"));
    assert!(!is_consent(""));
    assert!(!is_consent("yes"));
    assert!(!is_consent("n"));
}

#[test]
fn truncate_keeps_short_strings_and_marks_cuts() {
    assert_eq!(StringUtils::truncate("short", 10), "short");
    assert_eq!(StringUtils::truncate("a very long file name", 10), "a very ...");
}

#[test]
fn validate_demands_the_selected_providers_credential() {
    let mut config = Config::default();
    config.provider = "openai".to_string();
    config.openai_api_key = String::new();
    assert_eq!(
        config.validate().unwrap_err(),
        "OpenAI API key is required when using OpenAI provider"
    );
    config.openai_api_key = "test-key".to_string();
    assert!(config.validate().is_ok());

    config.provider = "anthropic".to_string();
    assert_eq!(
        config.validate().unwrap_err(),
        "Anthropic API key is required when using Anthropic provider"
    );

    config.provider = "ollama".to_string();
    config.ollama_url = String::new();
    assert_eq!(
        config.validate().unwrap_err(),
        "Ollama URL is required when using Ollama provider"
    );

    config.provider = "something-else".to_string();
    assert!(config.validate().is_ok());
}

#[test]
fn default_config_points_at_the_local_endpoint() {
    let config = Config::default();
    assert_eq!(config.provider, "openai");
    assert_eq!(config.model, "gpt-4");
    assert_eq!(config.ollama_url, "http://localhost:11434");
    assert!(!config.audit.enabled);
    assert!(config.base_prompt.is_empty());
}

#[test]
fn cli_hands_back_its_config_path() {
    let cli = Cli {
        config: "~/.comgen/config.yaml".to_string(),
        prefix: String::new(),
        auto_push: false,
        multi_file: false,
        audit: true,
        audit_level: "MEDIUM".to_string(),
        force: false,
    };
    assert_eq!(cli.get_config_path().unwrap(), "~/.comgen/config.yaml");
}

#[test]
fn config_loader_remembers_its_path() {
    let loader = ConfigLoader::new("/etc/comgen.yaml".to_string());
    assert_eq!(loader.config_path, "/etc/comgen.yaml");
}

#[test]
fn audit_config_carries_prompt_and_flag() {
    let audit = AuditConfig { enabled: true, prompt: "check {{git_diff}}".to_string() };
    assert!(audit.enabled);
    assert_eq!(audit.prompt, "check {{git_diff}}");
}

#[test]
fn git_outcomes_report_success_and_exact_errors() {
    let listing = GitCommands::listing_outcome(true, vec!["a".to_string()], "");
    assert_eq!(listing.unwrap(), vec!["a".to_string()]);
    match GitCommands::listing_outcome(false, vec![], "fatal: not a git repository") {
        Err(comgen::git::GitError::ListingError(m)) => {
            assert_eq!(m, "Git ls-files failed: fatal: not a git repository")
        }
        _ => panic!("expected a listing error"),
    }

    assert_eq!(GitCommands::diff_outcome(true, "the diff".to_string()).unwrap(), "the diff");
    match GitCommands::diff_outcome(false, String::new()) {
        Err(comgen::git::GitError::DiffError(m)) => {
            assert_eq!(m, "Failed to execute git diff")
        }
        _ => panic!("expected a diff error"),
    }

    assert!(GitCommands::stage_outcome("a.txt", true, "").is_ok());
    match GitCommands::stage_outcome("a.txt", false, "pathspec did not match") {
        Err(comgen::git::GitError::StageError(m)) => {
            assert_eq!(m, "Failed to stage file a.txt: pathspec did not match")
        }
        _ => panic!("expected a stage error"),
    }

    assert!(GitCommands::commit_outcome(true, "").is_ok());
    match GitCommands::commit_outcome(false, "nothing to commit") {
        Err(comgen::git::GitError::CommitError(m)) => {
            assert_eq!(m, "Git commit failed: nothing to commit")
        }
        _ => panic!("expected a commit error"),
    }

    assert!(GitCommands::push_outcome(true, "").is_ok());
    match GitCommands::push_outcome(false, "no upstream") {
        Err(comgen::git::GitError::PushError(m)) => {
            assert_eq!(m, "Git push failed: no upstream")
        }
        _ => panic!("expected a push error"),
    }
}
