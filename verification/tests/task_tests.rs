use nyx::task::{ActivityEvent, ActivityStatus, ExecutionTarget, TaskState, TaskStatus};

#[test]
fn new_task_starts_planned_and_unverified() {
    let task = TaskState::new("Inspect a project".to_string());
    assert_eq!(task.status, TaskStatus::Planned);
    assert!(!task.verification.verified);
    assert_eq!(task.goal, "Inspect a project");
}

#[test]
fn task_ids_are_version_four_uuids() {
    let a = TaskState::new("a".to_string());
    let b = TaskState::new("b".to_string());
    assert_ne!(a.task_id, b.task_id);
    assert_eq!((a.task_id >> 76) & 0xf, 4);
    assert_eq!((a.task_id >> 62) & 0x3, 2);
    assert_eq!(a.created_at, a.updated_at);
    assert!(a.plan.is_empty() && a.current_step.is_none());
}

#[test]
fn status_events_carry_only_their_fields() {
    let event = ActivityEvent::status(7, ActivityStatus::Success, "Verification passed".to_string());
    assert_eq!(event.task_id, 7);
    assert_eq!(event.status, ActivityStatus::Success);
    assert_eq!(event.message, "Verification passed");
    assert!(event.tool.is_none() && event.target.is_none() && event.duration_ms.is_none());
    let event = event.with_tool("file_read".to_string(), ExecutionTarget::Host).with_duration(12);
    assert_eq!(event.tool.as_deref(), Some("file_read"));
    assert_eq!(event.target, Some(ExecutionTarget::Host));
    assert_eq!(event.duration_ms, Some(12));
}

#[test]
fn activity_event_serializes_stably() {
    let event = ActivityEvent::status(42, ActivityStatus::Success, "Verification passed".to_string());
    let mut members = serde_json::Map::new();
    members.insert("status".to_string(), serde_json::Value::String(event.status.wire_name()));
    members.insert("message".to_string(), serde_json::Value::String(event.message.clone()));
    let value = serde_json::Value::Object(members);
    assert_eq!(value["status"], "success");
    assert_eq!(value["message"], "Verification passed");
}

#[test]
fn statuses_have_snake_case_wire_names() {
    assert_eq!(ActivityStatus::WaitingForPermission.wire_name(), "waiting_for_permission");
    assert_eq!(ActivityStatus::Started.wire_name(), "started");
    assert_eq!(ActivityStatus::Cancelled.wire_name(), "cancelled");
}
