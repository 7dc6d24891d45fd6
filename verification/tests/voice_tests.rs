use nyx::path::{PathComponent, PathParts};
use nyx::voice::{
    parse_reply, qwen_base_model, qwen_turkish_adapter, reply_error, whisper_model, QwenTurkishProvider,
    ReplyError, SidecarConfig, WhisperProvider,
};

fn script() -> PathParts {
    PathParts::new(vec![PathComponent::Normal("server.py".to_string())])
}

#[test]
fn defaults_are_turkish_and_configurable() {
    let provider = WhisperProvider::new(SidecarConfig::python(script()));
    assert_eq!(provider.language(), "tr");
    assert_eq!(provider.model(), "base");
}

#[test]
fn providers_can_be_reconfigured() {
    let provider = WhisperProvider::new(SidecarConfig::python(script()))
        .with_model("small".to_string())
        .with_language("en".to_string());
    assert_eq!(provider.model(), "small");
    assert_eq!(provider.language(), "en");
    assert_eq!(provider.config().program, "python3");
    assert_eq!(provider.config().timeout_ms, 180_000);
    let qwen = QwenTurkishProvider::new(SidecarConfig::python(script()), "base".to_string(), "adapter".to_string());
    assert_eq!(qwen.device(), "auto");
    assert_eq!(qwen.with_device("cpu".to_string()).device(), "cpu");
}

#[test]
fn failed_replies_report_their_error() {
    assert_eq!(reply_error(Some(false), Some("no model".to_string())).as_deref(), Some("no model"));
    assert_eq!(reply_error(Some(false), None).as_deref(), Some("unknown provider error"));
    assert_eq!(reply_error(Some(true), Some("ignored".to_string())), None);
    assert_eq!(reply_error(None, None), None);
}

#[test]
fn reply_lines_are_parsed_and_failures_reported() {
    match parse_reply("not json") {
        Err(ReplyError::InvalidJson(_)) => {}
        other => panic!("unexpected {:?}", other),
    }
    match parse_reply("{\"ok\":false,\"error\":\"no model\"}") {
        Err(ReplyError::Provider(m)) => assert_eq!(m, "no model"),
        other => panic!("unexpected {:?}", other),
    }
    match parse_reply("{\"ok\":false}") {
        Err(ReplyError::Provider(m)) => assert_eq!(m, "unknown provider error"),
        other => panic!("unexpected {:?}", other),
    }
    let value = parse_reply("{\"ok\":true,\"text\":\"merhaba\"}").unwrap();
    assert_eq!(value["text"], "merhaba");
    let value = parse_reply("{\"status\":\"ready\"}").unwrap();
    assert_eq!(value["status"], "ready");
}

#[test]
fn voice_models_follow_the_configuration() {
    assert_eq!(whisper_model(None, None), "base");
    assert_eq!(whisper_model(None, Some("medium".to_string())), "medium");
    assert_eq!(whisper_model(Some("small".to_string()), Some("medium".to_string())), "small");
    assert_eq!(qwen_base_model(None), "Qwen/Qwen3-TTS-12Hz-0.6B-Base");
    assert_eq!(qwen_base_model(Some("custom".to_string())), "custom");
    assert_eq!(qwen_turkish_adapter(None, None), "");
    assert_eq!(qwen_turkish_adapter(None, Some("/adapters/tr".to_string())), "/adapters/tr");
    assert_eq!(qwen_turkish_adapter(Some("org/tts-tr".to_string()), Some("/adapters/tr".to_string())), "org/tts-tr");
}
