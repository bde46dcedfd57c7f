use vstd::prelude::*;

verus! {

pub const DEFAULT_API_URL: &'static str = "http://localhost:11434";

pub const DEFAULT_MODEL: &'static str = "gemma3:12b";

/// Sampling temperature in thousandths: 700 stands for 0.7.
pub const DEFAULT_TEMPERATURE_MILLI: u32 = 700;

/// The largest temperature, 1.0, in thousandths.
pub const MAX_TEMPERATURE_MILLI: u32 = 1000;

pub const DEFAULT_MAX_TOKENS: u32 = 2048;

pub const REQUEST_TIMEOUT_SECS: u64 = 120;

/// Settings that govern every call to the generation service.
#[derive(Debug, Clone)]
pub struct OllamaConfig {
    /// Base address of the service.
    pub api_url: String,
    /// Name of the model to use, such as `gemma3:12b`.
    pub model: String,
    /// Sampling temperature in thousandths, from 0 (0.0) to 1000 (1.0).
    pub temperature_milli: u32,
    /// Largest number of tokens to generate.
    pub max_tokens: u32,
    /// Time allowed to a synchronous call, in seconds.
    pub timeout_secs: u64,
}

/// A temperature brought into the range from 0.0 to 1.0 (in thousandths).
pub open spec fn clamp_temperature(t: int) -> int {
    if t < 0 {
        0
    } else if t > MAX_TEMPERATURE_MILLI {
        MAX_TEMPERATURE_MILLI as int
    } else {
        t
    }
}

impl OllamaConfig {
    pub open spec fn wf(&self) -> bool {
        self.temperature_milli <= MAX_TEMPERATURE_MILLI
    }

    /// The address of `path` on the service.
    pub fn endpoint(&self, path: &str) -> (r: String)
        ensures
            r@ == self.api_url@ + path@,
    {
        let mut r = self.api_url.clone();
        r.append(path);
        r
    }
}

impl Default for OllamaConfig {
    fn default() -> (r: Self)
        ensures
            r.api_url@ == DEFAULT_API_URL@,
            r.model@ == DEFAULT_MODEL@,
            r.temperature_milli == DEFAULT_TEMPERATURE_MILLI,
            r.max_tokens == DEFAULT_MAX_TOKENS,
            r.timeout_secs == REQUEST_TIMEOUT_SECS,
            r.wf(),
    {
        OllamaConfig {
            api_url: String::from_str(DEFAULT_API_URL),
            model: String::from_str(DEFAULT_MODEL),
            temperature_milli: DEFAULT_TEMPERATURE_MILLI,
            max_tokens: DEFAULT_MAX_TOKENS,
            timeout_secs: REQUEST_TIMEOUT_SECS,
        }
    }
}

} // verus!
