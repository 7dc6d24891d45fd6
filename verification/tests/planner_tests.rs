use nyx::planner::{plan_from_message, ChatMessage, Planner, PlannerError, ToolCallText};

#[test]
fn planner_defaults_to_cost_effective_model() {
    let planner = Planner::from_settings(
        Some("https://example.test/v1".to_string()),
        Some("test-key".to_string()),
        None,
    );
    assert!(planner.is_ok());
    assert_eq!(planner.unwrap().model, "gpt-5-mini");
}

#[test]
fn planner_needs_base_url_and_key() {
    assert!(matches!(Planner::from_settings(None, Some("k".to_string()), None), Err(PlannerError::NotConfigured)));
    assert!(matches!(Planner::from_settings(Some("u".to_string()), None, None), Err(PlannerError::NotConfigured)));
    let p = Planner::from_settings(Some("https://x/v1//".to_string()), Some("k".to_string()), Some("gpt-5".to_string())).unwrap();
    assert_eq!(p.model, "gpt-5");
    assert_eq!(p.endpoint(), "https://x/v1/chat/completions");
}

fn call(name: &str, arguments: &str) -> ToolCallText {
    ToolCallText { name: name.to_string(), arguments: arguments.to_string() }
}

#[test]
fn planner_answers_are_checked_against_the_registry() {
    let allowed = vec!["file_read".to_string(), "file_search".to_string()];
    assert!(matches!(plan_from_message(&allowed, None), Err(PlannerError::InvalidResponse(m)) if m == "no choices"));
    let out = plan_from_message(
        &allowed,
        Some(ChatMessage { content: None, tool_calls: Some(vec![call("file_read", "{\"path\":\"a\"}")]) }),
    )
    .unwrap();
    assert_eq!(out.summary, "Plan hazırlandı");
    assert_eq!(out.calls.len(), 1);
    assert_eq!(out.calls[0].arguments["path"], "a");
    let err = plan_from_message(
        &allowed,
        Some(ChatMessage { content: Some("s".to_string()), tool_calls: Some(vec![call("file_read", "{}"), call("rm", "{}")]) }),
    )
    .unwrap_err();
    assert_eq!(err.message(), "LLM response was invalid: unknown tool: rm");
    assert!(plan_from_message(&allowed, Some(ChatMessage { content: None, tool_calls: Some(vec![call("file_read", "{oops")]) })).is_err());
    let none = plan_from_message(&allowed, Some(ChatMessage { content: Some("ok".to_string()), tool_calls: None })).unwrap();
    assert_eq!(none.summary, "ok");
    assert!(none.calls.is_empty());
}

#[test]
fn planned_calls_carry_their_parsed_arguments() {
    let allowed = vec!["file_read".to_string(), "file_search".to_string()];
    let out = plan_from_message(
        &allowed,
        Some(ChatMessage {
            content: Some("two".to_string()),
            tool_calls: Some(vec![call("file_read", "{\"path\":\"a\"}"), call("file_search", "{\"query\":\"b\"}")]),
        }),
    )
    .unwrap();
    assert_eq!(out.calls[0].name, "file_read");
    assert_eq!(out.calls[1].name, "file_search");
    assert_eq!(out.calls[0].arguments, serde_json::from_str::<serde_json::Value>("{\"path\":\"a\"}").unwrap());
    assert_eq!(out.calls[1].arguments, serde_json::from_str::<serde_json::Value>("{\"query\":\"b\"}").unwrap());
}

#[test]
fn chat_requests_use_the_token_key_of_the_model() {
    let gpt = Planner::from_settings(Some("u".to_string()), Some("k".to_string()), None).unwrap();
    let chat = gpt.chat_request("list files");
    assert_eq!(chat.model, "gpt-5-mini");
    assert_eq!(chat.user, "list files");
    assert_eq!(chat.tool_choice, "auto");
    assert_eq!(chat.token_limit_key, "max_completion_tokens");
    assert_eq!(chat.token_limit, 2000);
    assert!(chat.system.starts_with("You are NYX, a local-first computer agent."));
    let gemini = Planner::from_settings(
        Some("u".to_string()),
        Some("k".to_string()),
        Some("gemini-3.1-pro-preview".to_string()),
    )
    .unwrap();
    assert_eq!(gemini.chat_request("x").token_limit_key, "max_tokens");
}
