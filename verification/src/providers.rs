//! The language-model backends. Each variant differs only in wire
//! encoding and authentication, not in contract: a prompt goes in, the
//! generated text comes out. The request body a variant sends and the way
//! it reads a response body are pure functions verified here; the HTTP
//! exchange itself is the surrounding program's work.
use vstd::prelude::*;

use crate::config::Config;
use crate::json::{
    JsonValue, as_str_value, esc, get_field, get_index, parse_json, parsed_json, push_escaped,
    spec_as_str, spec_get, spec_index,
};
use crate::text::str_eq;

verus! {

/// A backend failure: the transport broke or returned something that is
/// not JSON; the endpoint answered with a failing status; or the response
/// was JSON without the expected text field.
#[derive(Clone, Debug)]
pub enum BackendError {
    Transport(String),
    HttpStatus(u16),
    MalformedResponse(String),
}

/// The backend that speaks the chat-completions wire format.
#[derive(Clone, Debug)]
pub struct OpenAIProvider {
    pub model: String,
    pub api_key: String,
}

impl OpenAIProvider {
    /// Remembers the model to ask for and the key to authenticate with.
    pub fn new(model: &str, api_key: &str) -> (r: OpenAIProvider)
        ensures
            r.model@ == model@,
            r.api_key@ == api_key@,
    {
        OpenAIProvider { model: model.to_owned(), api_key: api_key.to_owned() }
    }
}

/// The backend that speaks the completion wire format with turn markers.
#[derive(Clone, Debug)]
pub struct AnthropicProvider {
    pub model: String,
    pub api_key: String,
}

impl AnthropicProvider {
    /// Remembers the model to ask for and the key to authenticate with.
    pub fn new(model: &str, api_key: &str) -> (r: AnthropicProvider)
        ensures
            r.model@ == model@,
            r.api_key@ == api_key@,
    {
        AnthropicProvider { model: model.to_owned(), api_key: api_key.to_owned() }
    }
}

/// The local backend reached over a configurable base URL, without
/// authentication.
#[derive(Clone, Debug)]
pub struct OllamaProvider {
    pub model: String,
    pub base_url: String,
}

impl OllamaProvider {
    /// Remembers the model to ask for and the endpoint to reach.
    pub fn new(model: &str, base_url: &str) -> (r: OllamaProvider)
        ensures
            r.model@ == model@,
            r.base_url@ == base_url@,
    {
        OllamaProvider { model: model.to_owned(), base_url: base_url.to_owned() }
    }
}

/// The chat-completions request body for a model and a prompt.
pub open spec fn openai_body(model: Seq<char>, prompt: Seq<char>) -> Seq<char> {
    "{\"model\":\""@ + esc(model) + "\",\"messages\":[{\"role\":\"user\",\"content\":\""@ + esc(
        prompt,
    ) + "\"}]}"@
}

/// The prompt wrapped in the human/assistant turn markers.
pub open spec fn turn_wrapped(prompt: Seq<char>) -> Seq<char> {
    "\n\nHuman: "@ + prompt + "\n\nAssistant:"@
}

/// The completion request body for a model and a prompt, with the fixed
/// sampling settings.
pub open spec fn anthropic_body(model: Seq<char>, prompt: Seq<char>) -> Seq<char> {
    "{\"model\":\""@ + esc(model) + "\",\"prompt\":\""@ + esc(turn_wrapped(prompt))
        + "\",\"max_tokens_to_sample\":1000,\"temperature\":0.7}"@
}

/// The local generate request body for a model and a prompt.
pub open spec fn ollama_body(model: Seq<char>, prompt: Seq<char>) -> Seq<char> {
    "{\"model\":\""@ + esc(model) + "\",\"prompt\":\""@ + esc(prompt) + "\",\"stream\":false}"@
}

/// The text a chat-completions response carries: the content string of
/// the first choice's message.
pub open spec fn openai_text(doc: JsonValue) -> Option<Seq<char>> {
    match spec_get(doc, "choices"@) {
        Some(choices) => match spec_index(choices, 0) {
            Some(first) => match spec_get(first, "message"@) {
                Some(message) => match spec_get(message, "content"@) {
                    Some(content) => spec_as_str(content),
                    None => None,
                },
                None => None,
            },
            None => None,
        },
        None => None,
    }
}

/// The text a completion response carries: its completion string.
pub open spec fn anthropic_text(doc: JsonValue) -> Option<Seq<char>> {
    match spec_get(doc, "completion"@) {
        Some(completion) => spec_as_str(completion),
        None => None,
    }
}

/// The text a local generate response carries: its response string.
pub open spec fn ollama_text(doc: JsonValue) -> Option<Seq<char>> {
    match spec_get(doc, "response"@) {
        Some(response) => spec_as_str(response),
        None => None,
    }
}

fn extract_openai(body: &str) -> (r: Result<String, BackendError>)
    ensures
        r is Ok <==> parsed_json(body@) is Some && openai_text(parsed_json(body@)->0) is Some,
        r matches Ok(text) ==> text@ == openai_text(parsed_json(body@)->0)->0,
        r matches Err(e) ==> if parsed_json(body@) is Some {
            e is MalformedResponse
        } else {
            e is Transport
        },
{
    let doc = match parse_json(body) {
        Ok(doc) => doc,
        Err(e) => { return Err(BackendError::Transport(e)); },
    };
    let choices = match get_field(&doc, "choices") {
        Some(v) => v,
        None => {
            return Err(BackendError::MalformedResponse("Failed to get response text".to_owned()));
        },
    };
    let first = match get_index(choices, 0) {
        Some(v) => v,
        None => {
            return Err(BackendError::MalformedResponse("Failed to get response text".to_owned()));
        },
    };
    let message = match get_field(first, "message") {
        Some(v) => v,
        None => {
            return Err(BackendError::MalformedResponse("Failed to get response text".to_owned()));
        },
    };
    let content = match get_field(message, "content") {
        Some(v) => v,
        None => {
            return Err(BackendError::MalformedResponse("Failed to get response text".to_owned()));
        },
    };
    match as_str_value(content) {
        Some(text) => Ok(text.clone()),
        None => Err(BackendError::MalformedResponse("Failed to get response text".to_owned())),
    }
}

fn extract_anthropic(body: &str) -> (r: Result<String, BackendError>)
    ensures
        r is Ok <==> parsed_json(body@) is Some && anthropic_text(parsed_json(body@)->0) is Some,
        r matches Ok(text) ==> text@ == anthropic_text(parsed_json(body@)->0)->0,
        r matches Err(e) ==> if parsed_json(body@) is Some {
            e is MalformedResponse
        } else {
            e is Transport
        },
{
    let doc = match parse_json(body) {
        Ok(doc) => doc,
        Err(e) => { return Err(BackendError::Transport(e)); },
    };
    let completion = match get_field(&doc, "completion") {
        Some(v) => v,
        None => {
            return Err(
                BackendError::MalformedResponse("Failed to get completion text".to_owned()),
            );
        },
    };
    match as_str_value(completion) {
        Some(text) => Ok(text.clone()),
        None => Err(BackendError::MalformedResponse("Failed to get completion text".to_owned())),
    }
}

/// The status codes that count as success.
pub open spec fn status_success(status: u16) -> bool {
    200 <= status < 300
}

fn extract_ollama(status: u16, body: &str) -> (r: Result<String, BackendError>)
    ensures
        r is Ok <==> status_success(status) && parsed_json(body@) is Some && ollama_text(
            parsed_json(body@)->0,
        ) is Some,
        r matches Ok(text) ==> text@ == ollama_text(parsed_json(body@)->0)->0,
        r matches Err(e) ==> if !status_success(status) {
            e == BackendError::HttpStatus(status)
        } else if parsed_json(body@) is Some {
            e is MalformedResponse
        } else {
            e is Transport
        },
{
    if !(status >= 200 && status < 300) {
        return Err(BackendError::HttpStatus(status));
    }
    let doc = match parse_json(body) {
        Ok(doc) => doc,
        Err(e) => { return Err(BackendError::Transport(e)); },
    };
    let response = match get_field(&doc, "response") {
        Some(v) => v,
        None => {
            return Err(
                BackendError::MalformedResponse(
                    "Response field not found or not a string".to_owned(),
                ),
            );
        },
    };
    match as_str_value(response) {
        Some(text) => Ok(text.clone()),
        None => Err(
            BackendError::MalformedResponse("Response field not found or not a string".to_owned()),
        ),
    }
}

/// One selected backend.
#[derive(Clone, Debug)]
pub enum Provider {
    OpenAI(OpenAIProvider),
    Anthropic(AnthropicProvider),
    Ollama(OllamaProvider),
}

/// The provider names that the configuration may select.
pub open spec fn known_provider(name: Seq<char>) -> bool {
    name == "openai"@ || name == "anthropic"@ || name == "ollama"@
}

/// Selects the backend that the configuration names and hands it the
/// model and credential it needs.
pub fn create_provider(provider_type: &str, config: &Config) -> (r: Provider)
    requires
        known_provider(provider_type@),
    ensures
        provider_type@ == "openai"@ ==> (r matches Provider::OpenAI(p) && p.model@
            == config.model@ && p.api_key@ == config.openai_api_key@),
        provider_type@ == "anthropic"@ && provider_type@ != "openai"@ ==> (r
            matches Provider::Anthropic(p) && p.model@ == config.model@ && p.api_key@
            == config.anthropic_api_key@),
        provider_type@ == "ollama"@ && provider_type@ != "openai"@ && provider_type@
            != "anthropic"@ ==> (r matches Provider::Ollama(p) && p.model@ == config.model@
            && p.base_url@ == config.ollama_url@),
{
    if str_eq(provider_type, "openai") {
        Provider::OpenAI(OpenAIProvider::new(config.model.as_str(), config.openai_api_key.as_str()))
    } else if str_eq(provider_type, "anthropic") {
        Provider::Anthropic(
            AnthropicProvider::new(config.model.as_str(), config.anthropic_api_key.as_str()),
        )
    } else {
        Provider::Ollama(OllamaProvider::new(config.model.as_str(), config.ollama_url.as_str()))
    }
}

impl Provider {
    /// The wire request body this backend sends for a prompt.
    pub fn request_body(&self, prompt: &str) -> (r: String)
        ensures
            match self {
                Provider::OpenAI(p) => r@ == openai_body(p.model@, prompt@),
                Provider::Anthropic(p) => r@ == anthropic_body(p.model@, prompt@),
                Provider::Ollama(p) => r@ == ollama_body(p.model@, prompt@),
            },
    {
        match self {
            Provider::OpenAI(p) => {
                let mut out = "{\"model\":\"".to_owned();
                push_escaped(&mut out, p.model.as_str());
                out.append("\",\"messages\":[{\"role\":\"user\",\"content\":\"");
                push_escaped(&mut out, prompt);
                out.append("\"}]}");
                out
            },
            Provider::Anthropic(p) => {
                let mut out = "{\"model\":\"".to_owned();
                push_escaped(&mut out, p.model.as_str());
                out.append("\",\"prompt\":\"");
                let mut wrapped = "\n\nHuman: ".to_owned();
                wrapped.append(prompt);
                wrapped.append("\n\nAssistant:");
                push_escaped(&mut out, wrapped.as_str());
                out.append("\",\"max_tokens_to_sample\":1000,\"temperature\":0.7}");
                out
            },
            Provider::Ollama(p) => {
                let mut out = "{\"model\":\"".to_owned();
                push_escaped(&mut out, p.model.as_str());
                out.append("\",\"prompt\":\"");
                push_escaped(&mut out, prompt);
                out.append("\",\"stream\":false}");
                out
            },
        }
    }

    /// Reads a backend's HTTP answer: the status code of the response and
    /// its body text, handed over by the transport.
    pub fn extract_response(&self, status: u16, body: &str) -> (r: Result<String, BackendError>)
        ensures
            match self {
                Provider::OpenAI(_) => {
                    &&& r is Ok <==> parsed_json(body@) is Some && openai_text(
                        parsed_json(body@)->0,
                    ) is Some
                    &&& r matches Ok(text) ==> text@ == openai_text(parsed_json(body@)->0)->0
                    &&& r matches Err(e) ==> if parsed_json(body@) is Some {
                        e is MalformedResponse
                    } else {
                        e is Transport
                    }
                },
                Provider::Anthropic(_) => {
                    &&& r is Ok <==> parsed_json(body@) is Some && anthropic_text(
                        parsed_json(body@)->0,
                    ) is Some
                    &&& r matches Ok(text) ==> text@ == anthropic_text(parsed_json(body@)->0)->0
                    &&& r matches Err(e) ==> if parsed_json(body@) is Some {
                        e is MalformedResponse
                    } else {
                        e is Transport
                    }
                },
                Provider::Ollama(_) => {
                    &&& r is Ok <==> status_success(status) && parsed_json(body@) is Some
                        && ollama_text(parsed_json(body@)->0) is Some
                    &&& r matches Ok(text) ==> text@ == ollama_text(parsed_json(body@)->0)->0
                    &&& r matches Err(e) ==> if !status_success(status) {
                        e == BackendError::HttpStatus(status)
                    } else if parsed_json(body@) is Some {
                        e is MalformedResponse
                    } else {
                        e is Transport
                    }
                },
            },
    {
        match self {
            Provider::OpenAI(_) => extract_openai(body),
            Provider::Anthropic(_) => extract_anthropic(body),
            Provider::Ollama(_) => extract_ollama(status, body),
        }
    }

    /// The endpoint URL this backend posts to.
    pub fn endpoint(&self) -> (r: String)
        ensures
            match self {
                Provider::OpenAI(_) => r@ == "https://api.openai.com/v1/chat/completions"@,
                Provider::Anthropic(_) => r@ == "https://api.anthropic.com/v1/complete"@,
                Provider::Ollama(p) => r@ == p.base_url@ + "/api/generate"@,
            },
    {
        match self {
            Provider::OpenAI(_) => "https://api.openai.com/v1/chat/completions".to_owned(),
            Provider::Anthropic(_) => "https://api.anthropic.com/v1/complete".to_owned(),
            Provider::Ollama(p) => {
                let mut out = p.base_url.clone();
                out.append("/api/generate");
                out
            },
        }
    }

    /// The request headers this backend authenticates with, as name and
    /// value pairs.
    pub fn auth_headers(&self) -> (r: Vec<(String, String)>)
        ensures
            match self {
                Provider::OpenAI(p) => r@.len() == 1 && r@[0].0@ == "Authorization"@ && r@[0].1@
                    == "Bearer "@ + p.api_key@,
                Provider::Anthropic(p) => r@.len() == 2 && r@[0].0@ == "x-api-key"@ && r@[0].1@
                    == p.api_key@ && r@[1].0@ == "anthropic-version"@ && r@[1].1@ == "2023-06-01"@,
                Provider::Ollama(_) => r@.len() == 0,
            },
    {
        let mut r: Vec<(String, String)> = Vec::new();
        match self {
            Provider::OpenAI(p) => {
                let mut value = "Bearer ".to_owned();
                value.append(p.api_key.as_str());
                r.push(("Authorization".to_owned(), value));
            },
            Provider::Anthropic(p) => {
                r.push(("x-api-key".to_owned(), p.api_key.clone()));
                r.push(("anthropic-version".to_owned(), "2023-06-01".to_owned()));
            },
            Provider::Ollama(_) => {},
        }
        r
    }
}

} // verus!
