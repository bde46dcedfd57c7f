use vstd::prelude::*;
use crate::config::OllamaConfig;

verus! {

/// Nucleus-sampling threshold sent with every call, in thousandths (0.9).
pub const NUCLEUS_P_MILLI: u32 = 900;

/// Sampling options of a generation request; fractions are in thousandths.
#[derive(Debug, Clone, PartialEq, Eq)]
pub struct SamplingOptions {
    pub temperature_milli: u32,
    pub top_p_milli: Option<u32>,
    pub top_k: Option<u32>,
    pub max_tokens: Option<u32>,
}

/// The body of a call to the service's generation endpoint.
#[derive(Debug, Clone)]
pub struct GenerationRequest {
    pub model: String,
    pub prompt: String,
    pub system: Option<String>,
    pub stream: Option<bool>,
    pub options: Option<SamplingOptions>,
}

/// One decoded answer of the generation endpoint: the whole text of a
/// synchronous call, or one fragment of a stream.
#[derive(Debug, Clone)]
pub struct GenerationFrame {
    pub model: String,
    pub response: String,
    pub done: bool,
}

/// The request that asks `config`'s model for `prompt`, streamed or not.
pub fn generation_request(
    config: &OllamaConfig,
    prompt: &str,
    system: Option<&str>,
    stream: bool,
) -> (r: GenerationRequest)
    ensures
        r.model@ == config.model@,
        r.prompt@ == prompt@,
        match system {
            Some(s) => r.system matches Some(t) && t@ == s@,
            None => r.system is None,
        },
        r.stream == Some(stream),
        r.options == Some(
            (SamplingOptions {
                temperature_milli: config.temperature_milli,
                top_p_milli: Some(NUCLEUS_P_MILLI),
                top_k: None,
                max_tokens: Some(config.max_tokens),
            }),
        ),
{
    let system = match system {
        Some(s) => Some(String::from_str(s)),
        None => None,
    };
    GenerationRequest {
        model: config.model.clone(),
        prompt: String::from_str(prompt),
        system,
        stream: Some(stream),
        options: Some(
            SamplingOptions {
                temperature_milli: config.temperature_milli,
                top_p_milli: Some(NUCLEUS_P_MILLI),
                top_k: None,
                max_tokens: Some(config.max_tokens),
            },
        ),
    }
}

} // verus!
