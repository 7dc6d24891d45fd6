use nyx::integrations::{adapter_reply, HttpMethod, IntegrationKind, IntegrationTool};
use nyx::task::{ExecutionTarget, PermissionClass};
use nyx::tools::{InputField, ToolError, ToolInput};

#[test]
fn exposes_service_capability_contracts() {
    let names: Vec<_> = IntegrationTool::all().iter().map(|tool| tool.descriptor().name).collect();
    assert!(names.contains(&"calendar_list_events".to_owned()));
    assert!(names.contains(&"crm_search_leads".to_owned()));
    assert!(names.contains(&"wordpress_send_message".to_owned()));
}

#[test]
fn validates_message_input() {
    let tool = IntegrationTool::new(IntegrationKind::WordPressMessage);
    let input = ToolInput {
        is_object: true,
        fields: vec![
            ("recipient".to_string(), InputField::Text("x".to_string())),
            ("message".to_string(), InputField::Text("".to_string())),
        ],
    };
    assert!(tool.check_input(&input).is_err());
}

#[test]
fn blank_messages_and_non_objects_are_refused() {
    let tool = IntegrationTool::new(IntegrationKind::WordPressMessage);
    let blank = ToolInput {
        is_object: true,
        fields: vec![("message".to_string(), InputField::Text(" \t\n".to_string()))],
    };
    match tool.check_input(&blank) {
        Err(ToolError::InvalidInput(m)) => assert_eq!(m, "message must not be empty"),
        _ => panic!("expected refusal"),
    }
    let ok = ToolInput {
        is_object: true,
        fields: vec![("message".to_string(), InputField::Text(" hi ".to_string()))],
    };
    assert!(tool.check_input(&ok).is_ok());
    let not_object = ToolInput { is_object: false, fields: vec![] };
    assert!(IntegrationTool::new(IntegrationKind::CrmSearch).check_input(&not_object).is_err());
}

#[test]
fn integration_kinds_describe_their_adapters() {
    assert_eq!(IntegrationKind::CrmUpsert.endpoint_var(), "NYX_CRM_URL");
    assert_eq!(IntegrationKind::CalendarList.token_var(), "NYX_CALENDAR_TOKEN");
    assert_eq!(IntegrationKind::WordPressMessage.method(), HttpMethod::Post);
    assert_eq!(IntegrationKind::ResearchFetch.method(), HttpMethod::Get);
    assert!(IntegrationKind::CalendarCreate.write());
    let d = IntegrationTool::new(IntegrationKind::CrmUpsert).descriptor();
    assert_eq!(d.permission, PermissionClass::Ask);
    assert_eq!(d.target, ExecutionTarget::Remote);
    assert!(!d.idempotent);
    assert!(IntegrationTool::check_endpoint("https://crm.example").is_ok());
    assert!(IntegrationTool::check_endpoint("crm.example").is_err());
    match IntegrationTool::new(IntegrationKind::ResearchFetch).not_configured() {
        ToolError::Execution(m) => assert_eq!(m, "integration is not configured: NYX_RESEARCH_URL"),
        _ => panic!("expected execution error"),
    }
    assert!(IntegrationTool::new(IntegrationKind::CrmUpsert).authorize(false).is_err());
    assert!(IntegrationTool::new(IntegrationKind::CrmSearch).authorize(false).is_ok());
    assert_eq!(
        IntegrationTool::new(IntegrationKind::CrmSearch).completion_summary(),
        "crm_search_leads completed"
    );
}

#[test]
fn adapter_replies_are_json_or_kept_raw() {
    let parsed = adapter_reply("{\"leads\":[1,2]}");
    assert_eq!(parsed["leads"][1], 2);
    let raw = adapter_reply("plain text");
    assert_eq!(raw["raw"], "plain text");
    assert_eq!(raw.as_object().map(|m| m.len()), Some(1));
}
