//! Configuration of the local voice sidecars (Whisper speech-to-text and the
//! Turkish Qwen3-TTS voice) and the reading of their replies. Running the
//! sidecar process is left to the caller.
use vstd::prelude::*;
use crate::path::PathParts;
use crate::json::{
    error_member, json_error_field, json_ok_field, json_parse_result, json_parsed,
    json_text_is_valid, ok_member, parse_json,
};
use crate::text::{owned, opt_text_view};

verus! {

/// How to start a sidecar: program, script, optional working directory and
/// the time allowed for a reply.
#[derive(Debug, Clone)]
pub struct SidecarConfig {
    pub program: String,
    pub script: PathParts,
    pub working_directory: Option<PathParts>,
    /// Milliseconds.
    pub timeout_ms: u64,
}

impl SidecarConfig {
    /// `python3 <script>` in the current directory, with three minutes to
    /// answer.
    pub fn python(script: PathParts) -> (c: SidecarConfig)
        ensures
            c.program@ == "python3"@,
            c.script@ == script@,
            c.working_directory is None,
            c.timeout_ms == 180_000,
    {
        SidecarConfig {
            program: owned("python3"),
            script,
            working_directory: None,
            timeout_ms: 180_000,
        }
    }
}

/// What a synthesis request produced.
#[derive(Debug, Clone)]
pub struct SynthesisResult {
    pub ok: bool,
    pub provider: String,
    pub output_path: Option<String>,
    pub sample_rate: Option<u32>,
    pub experimental: Option<bool>,
    pub error: Option<String>,
}

/// The error a sidecar reply reports: a reply whose `ok` is `false` fails
/// with its `error` text, or "unknown provider error" without one.
pub open spec fn reply_failure(ok: Option<bool>, error: Option<Seq<char>>) -> Option<Seq<char>> {
    if ok == Some(false) {
        match error {
            Some(e) => Some(e),
            None => Some("unknown provider error"@),
        }
    } else {
        None
    }
}

/// The failure reported by a reply, if any (see [`reply_failure`]).
pub fn reply_error(ok: Option<bool>, error: Option<String>) -> (r: Option<String>)
    ensures
        r matches Some(m) ==> reply_failure(ok, opt_text_view(error)) == Some(m@),
        r is None ==> reply_failure(ok, opt_text_view(error)) is None,
{
    if ok == Some(false) {
        match error {
            Some(e) => Some(e),
            None => Some(owned("unknown provider error")),
        }
    } else {
        None
    }
}

/// The first of two settings that is given, else the default.
pub open spec fn setting_choice(first: Option<String>, second: Option<String>, default: Seq<char>) -> Seq<char> {
    match first {
        Some(v) => v@,
        None => match second {
            Some(v) => v@,
            None => default,
        },
    }
}

fn first_setting(first: Option<String>, second: Option<String>, default: &str) -> (s: String)
    ensures
        s@ == setting_choice(first, second, default@),
{
    match first {
        Some(v) => v,
        None => match second {
            Some(v) => v,
            None => owned(default),
        },
    }
}

/// The Whisper model to use: the one the request names, else the one
/// configured (`NYX_WHISPER_MODEL`), else `base`.
pub fn whisper_model(requested: Option<String>, configured: Option<String>) -> (m: String)
    ensures
        m@ == setting_choice(requested, configured, "base"@),
{
    first_setting(requested, configured, "base")
}

/// The Qwen3-TTS base checkpoint: the configured one
/// (`NYX_QWEN_TTS_BASE_MODEL`), else `Qwen/Qwen3-TTS-12Hz-0.6B-Base`.
pub fn qwen_base_model(configured: Option<String>) -> (m: String)
    ensures
        m@ == setting_choice(configured, None, "Qwen/Qwen3-TTS-12Hz-0.6B-Base"@),
{
    first_setting(configured, None, "Qwen/Qwen3-TTS-12Hz-0.6B-Base")
}

/// The Turkish-capable checkpoint or adapter: the one configured through
/// `NYX_QWEN_TTS_MODEL`, else the adapter directory
/// (`NYX_QWEN_TTS_ADAPTER_DIR`), else none (empty).
pub fn qwen_turkish_adapter(model: Option<String>, adapter_dir: Option<String>) -> (a: String)
    ensures
        a@ == setting_choice(model, adapter_dir, ""@),
{
    first_setting(model, adapter_dir, "")
}

/// Why a sidecar's reply line was refused.
#[derive(Debug)]
pub enum ReplyError {
    /// The line is not one JSON value.
    InvalidJson(serde_json::Error),
    /// The reply says `"ok": false`; the text is its `error`, or "unknown
    /// provider error".
    Provider(String),
}

/// Reads the sidecar's reply line: it must be JSON, and a reply whose `ok`
/// member is `false` is the provider's failure; any other reply is handed
/// back as parsed.
pub fn parse_reply(line: &str) -> (r: Result<serde_json::Value, ReplyError>)
    ensures
        (r matches Err(ReplyError::InvalidJson(_))) <==> !json_text_is_valid(line@),
        r matches Err(ReplyError::InvalidJson(e)) ==> json_parse_result(line@) == Err::<
            serde_json::Value,
            serde_json::Error,
        >(e),
        json_text_is_valid(line@) ==> match reply_failure(
            json_ok_field(line@),
            json_error_field(line@),
        ) {
            Some(m) => r matches Err(ReplyError::Provider(p)) && p@ == m,
            None => r matches Ok(v) && v == json_parsed(line@),
        },
{
    match parse_json(line) {
        Err(e) => Err(ReplyError::InvalidJson(e)),
        Ok(value) => {
            let ok = ok_member(line, &value);
            let error = error_member(line, &value);
            match reply_error(ok, error) {
                Some(message) => Err(ReplyError::Provider(message)),
                None => Ok(value),
            }
        },
    }
}

/// Whisper speech-to-text: Turkish and the `base` model unless configured.
#[derive(Debug, Clone)]
pub struct WhisperProvider {
    config: SidecarConfig,
    model: String,
    language: String,
}

impl WhisperProvider {
    pub closed spec fn model_view(&self) -> Seq<char> {
        self.model@
    }

    pub closed spec fn language_view(&self) -> Seq<char> {
        self.language@
    }

    pub closed spec fn config_view(&self) -> SidecarConfig {
        self.config
    }

    pub fn new(config: SidecarConfig) -> (p: WhisperProvider)
        ensures
            p.model_view() == "base"@,
            p.language_view() == "tr"@,
            p.config_view() == config,
    {
        WhisperProvider { config, model: owned("base"), language: owned("tr") }
    }

    pub fn with_model(self, model: String) -> (p: WhisperProvider)
        ensures
            p.model_view() == model@,
            p.language_view() == self.language_view(),
            p.config_view() == self.config_view(),
    {
        WhisperProvider { model, ..self }
    }

    pub fn with_language(self, language: String) -> (p: WhisperProvider)
        ensures
            p.language_view() == language@,
            p.model_view() == self.model_view(),
            p.config_view() == self.config_view(),
    {
        WhisperProvider { language, ..self }
    }

    pub fn model(&self) -> (m: &String)
        ensures
            m@ == self.model_view(),
    {
        &self.model
    }

    pub fn language(&self) -> (l: &String)
        ensures
            l@ == self.language_view(),
    {
        &self.language
    }

    pub fn config(&self) -> (c: &SidecarConfig)
        ensures
            *c == self.config_view(),
    {
        &self.config
    }
}

/// Turkish speech synthesis with a Qwen3-TTS base model and a LoRA adapter;
/// the device is chosen automatically unless configured.
#[derive(Debug, Clone)]
pub struct QwenTurkishProvider {
    config: SidecarConfig,
    base_model: String,
    adapter_dir: String,
    device: String,
}

impl QwenTurkishProvider {
    pub closed spec fn base_model_view(&self) -> Seq<char> {
        self.base_model@
    }

    pub closed spec fn adapter_dir_view(&self) -> Seq<char> {
        self.adapter_dir@
    }

    pub closed spec fn device_view(&self) -> Seq<char> {
        self.device@
    }

    pub closed spec fn config_view(&self) -> SidecarConfig {
        self.config
    }

    pub fn new(config: SidecarConfig, base_model: String, adapter_dir: String) -> (p: QwenTurkishProvider)
        ensures
            p.base_model_view() == base_model@,
            p.adapter_dir_view() == adapter_dir@,
            p.device_view() == "auto"@,
            p.config_view() == config,
    {
        QwenTurkishProvider { config, base_model, adapter_dir, device: owned("auto") }
    }

    pub fn with_device(self, device: String) -> (p: QwenTurkishProvider)
        ensures
            p.device_view() == device@,
            p.base_model_view() == self.base_model_view(),
            p.adapter_dir_view() == self.adapter_dir_view(),
            p.config_view() == self.config_view(),
    {
        QwenTurkishProvider { device, ..self }
    }

    pub fn base_model(&self) -> (m: &String)
        ensures
            m@ == self.base_model_view(),
    {
        &self.base_model
    }

    pub fn adapter_dir(&self) -> (d: &String)
        ensures
            d@ == self.adapter_dir_view(),
    {
        &self.adapter_dir
    }

    pub fn device(&self) -> (d: &String)
        ensures
            d@ == self.device_view(),
    {
        &self.device
    }

    pub fn config(&self) -> (c: &SidecarConfig)
        ensures
            *c == self.config_view(),
    {
        &self.config
    }
}

} // verus!
