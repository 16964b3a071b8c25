//! Configuration data as the core consumes it: the commit-template shape,
//! the audit settings, the provider selection, and the validation rule that
//! ties the selected provider to its credentials. Reading and parsing the
//! configuration file is left to the surrounding program; the core takes
//! the values as already loaded.
use vstd::prelude::*;

use crate::text::str_eq;

verus! {

/// A commit message template: the format string, the length cap, and the
/// example messages shown to the backend.
#[derive(Clone, Debug)]
pub struct CommitTemplate {
    pub template: String,
    pub max_length: usize,
    pub examples: Vec<String>,
}

/// The template block of the configuration: the allowed commit types and
/// the output format.
#[derive(Clone, Debug)]
pub struct LocalTemplate {
    pub commit_types: Vec<String>,
    pub output_format: CommitTemplate,
}

/// The audit settings: whether the audit gate runs, and its prompt template.
#[derive(Clone, Debug)]
pub struct AuditConfig {
    pub enabled: bool,
    pub prompt: String,
}

/// The whole configuration as the workflow consumes it.
#[derive(Clone, Debug)]
pub struct Config {
    pub provider: String,
    pub model: String,
    pub base_prompt: String,
    pub templates: LocalTemplate,
    pub anthropic_api_key: String,
    pub openai_api_key: String,
    pub ollama_url: String,
    pub audit: AuditConfig,
}

/// The selected provider demands a credential that the configuration
/// leaves empty.
pub open spec fn missing_openai_key(c: Config) -> bool {
    c.provider@ == "openai"@ && c.openai_api_key@.len() == 0
}

/// The selected provider demands a credential that the configuration
/// leaves empty.
pub open spec fn missing_anthropic_key(c: Config) -> bool {
    c.provider@ == "anthropic"@ && c.anthropic_api_key@.len() == 0
}

/// The selected provider demands an endpoint that the configuration
/// leaves empty.
pub open spec fn missing_ollama_url(c: Config) -> bool {
    c.provider@ == "ollama"@ && c.ollama_url@.len() == 0
}

impl Config {
    /// Accepts the configuration unless the selected provider's credential
    /// or endpoint is empty, and then reports which one is missing.
    pub fn validate(&self) -> (r: Result<(), String>)
        ensures
            r is Err <==> missing_openai_key(*self) || missing_anthropic_key(*self)
                || missing_ollama_url(*self),
            r is Err ==> r->Err_0@ == if missing_openai_key(*self) {
                "OpenAI API key is required when using OpenAI provider"@
            } else if missing_anthropic_key(*self) {
                "Anthropic API key is required when using Anthropic provider"@
            } else {
                "Ollama URL is required when using Ollama provider"@
            },
    {
        if str_eq(self.provider.as_str(), "openai") && self.openai_api_key.as_str().is_empty() {
            Err("OpenAI API key is required when using OpenAI provider".to_owned())
        } else if str_eq(self.provider.as_str(), "anthropic")
            && self.anthropic_api_key.as_str().is_empty() {
            Err("Anthropic API key is required when using Anthropic provider".to_owned())
        } else if str_eq(self.provider.as_str(), "ollama") && self.ollama_url.as_str().is_empty() {
            Err("Ollama URL is required when using Ollama provider".to_owned())
        } else {
            Ok(())
        }
    }
}

impl Default for Config {
    /// The default configuration: the cloud chat provider with an empty
    /// credential, empty templates, and the local endpoint filled in.
    fn default() -> (c: Config)
        ensures
            c.provider@ == "openai"@,
            c.model@ == "gpt-4"@,
            c.base_prompt@.len() == 0,
            c.templates.commit_types@.len() == 0,
            c.templates.output_format.template@.len() == 0,
            c.templates.output_format.max_length == 0,
            c.templates.output_format.examples@.len() == 0,
            c.anthropic_api_key@.len() == 0,
            c.openai_api_key@.len() == 0,
            c.ollama_url@ == "http://localhost:11434"@,
            !c.audit.enabled,
            c.audit.prompt@.len() == 0,
    {
        Config {
            provider: "openai".to_owned(),
            model: "gpt-4".to_owned(),
            base_prompt: String::new(),
            templates: LocalTemplate {
                commit_types: Vec::new(),
                output_format: CommitTemplate {
                    template: String::new(),
                    max_length: 0,
                    examples: Vec::new(),
                },
            },
            anthropic_api_key: String::new(),
            openai_api_key: String::new(),
            ollama_url: "http://localhost:11434".to_owned(),
            audit: AuditConfig { enabled: false, prompt: String::new() },
        }
    }
}

/// An error met while locating, reading or understanding the configuration.
#[derive(Clone, Debug)]
pub enum ConfigError {
    FileReadError(String),
    ParseError(String),
    EnvVarError(String),
    InvalidPath(String),
}

/// Holds the path that the configuration will be read from.
#[derive(Clone, Debug)]
pub struct ConfigLoader {
    pub config_path: String,
}

impl ConfigLoader {
    /// Remembers the path to load the configuration from.
    pub fn new(config_path: String) -> (r: ConfigLoader)
        ensures
            r.config_path@ == config_path@,
    {
        ConfigLoader { config_path }
    }
}

} // verus!
