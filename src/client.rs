use vstd::prelude::*;
use crate::config::{
    clamp_temperature, OllamaConfig, DEFAULT_API_URL, DEFAULT_MAX_TOKENS, DEFAULT_MODEL,
    DEFAULT_TEMPERATURE_MILLI, MAX_TEMPERATURE_MILLI, REQUEST_TIMEOUT_SECS,
};
use crate::error::LlmError;
use crate::sanitize::{ends_with, fence, sanitize, sanitize_command, shell_prefix_len, starts_with};
use crate::text::is_trimmed;

verus! {

#[verifier::external_type_specification]
#[verifier::external_body]
pub struct ExClient(reqwest::Client);

/// Relies on reqwest's `Client::builder`, `ClientBuilder::timeout` and
/// `ClientBuilder::build`: an HTTP client whose requests give up after
/// `timeout_secs`; `build` fails when no TLS backend or resolver can be set
/// up, and its error is passed on as text.
#[verifier::external_body]
fn http_client(timeout_secs: u64) -> (r: Result<reqwest::Client, String>) {
    reqwest::Client::builder().timeout(std::time::Duration::from_secs(timeout_secs)).build().map_err(
        |e| e.to_string(),
    )
}

/// A client of the generation service: an HTTP client and the settings it
/// sends with every call.
#[derive(Debug)]
pub struct OllamaClient {
    client: reqwest::Client,
    config: OllamaConfig,
}

impl OllamaClient {
    /// The settings this client sends.
    pub closed spec fn settings(&self) -> OllamaConfig {
        self.config
    }

    /// A client with the default settings.
    pub fn new() -> (r: Result<Self, LlmError>)
        ensures
            r matches Ok(c) ==> {
                &&& c.settings().api_url@ == DEFAULT_API_URL@
                &&& c.settings().model@ == DEFAULT_MODEL@
                &&& c.settings().temperature_milli == DEFAULT_TEMPERATURE_MILLI
                &&& c.settings().max_tokens == DEFAULT_MAX_TOKENS
                &&& c.settings().timeout_secs == REQUEST_TIMEOUT_SECS
            },
            r matches Err(e) ==> e is TransportError,
    {
        Self::with_config(OllamaConfig::default())
    }

    /// A client with the given settings; fails only when no HTTP client can
    /// be made.
    pub fn with_config(config: OllamaConfig) -> (r: Result<Self, LlmError>)
        ensures
            r matches Ok(c) ==> c.settings() == config,
            r matches Err(e) ==> e is TransportError,
    {
        match http_client(config.timeout_secs) {
            Ok(client) => Ok(OllamaClient { client, config }),
            Err(m) => Err(LlmError::TransportError(m)),
        }
    }

    pub fn config(&self) -> (r: &OllamaConfig)
        ensures
            *r == self.settings(),
    {
        &self.config
    }

    /// The HTTP client that carries this client's calls.
    pub fn http(&self) -> &reqwest::Client {
        &self.client
    }

    /// Replaces the model used from now on.
    pub fn set_model(&mut self, model: &str)
        ensures
            final(self).settings().model@ == model@,
            final(self).settings().api_url == old(self).settings().api_url,
            final(self).settings().temperature_milli == old(self).settings().temperature_milli,
            final(self).settings().max_tokens == old(self).settings().max_tokens,
            final(self).settings().timeout_secs == old(self).settings().timeout_secs,
    {
        self.config.model = String::from_str(model);
    }

    /// Sets the temperature (in thousandths), clamped to 0.0 ..= 1.0.
    pub fn set_temperature(&mut self, temperature_milli: i64)
        ensures
            final(self).settings().temperature_milli == clamp_temperature(
                temperature_milli as int,
            ),
            final(self).settings().wf(),
            final(self).settings().api_url == old(self).settings().api_url,
            final(self).settings().model == old(self).settings().model,
            final(self).settings().max_tokens == old(self).settings().max_tokens,
            final(self).settings().timeout_secs == old(self).settings().timeout_secs,
    {
        self.config.temperature_milli = if temperature_milli < 0 {
            0
        } else if temperature_milli > MAX_TEMPERATURE_MILLI as i64 {
            MAX_TEMPERATURE_MILLI
        } else {
            temperature_milli as u32
        };
    }

    /// The command held in a model's answer; see `sanitize_command`.
    pub fn clean_command_response(&self, response: &str) -> (r: String)
        ensures
            r@ == sanitize(response@),
            is_trimmed(r@),
            !starts_with(r@, fence()),
            !ends_with(r@, fence()),
            shell_prefix_len(r@) == 0,
    {
        sanitize_command(response)
    }
}

} // verus!
