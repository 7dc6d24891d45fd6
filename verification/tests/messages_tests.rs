use nyx::agent::AgentError;
use nyx::connectors::ConnectorError;
use nyx::planner::PlannerError;
use nyx::scheduler::SchedulerError;
use nyx::security::SecurityError;
use nyx::tools::ToolError;

#[test]
fn error_messages_match_their_variants() {
    assert_eq!(SecurityError::OutsideWorkspace.message(), "path is outside the workspace scope");
    assert_eq!(SecurityError::InvalidPath.message(), "path cannot be resolved");
    assert_eq!(SecurityError::Denied.message(), "operation is denied by policy");
    assert_eq!(ToolError::Timeout.message(), "tool timed out");
    assert_eq!(ToolError::Cancelled.message(), "tool cancelled");
    assert_eq!(ToolError::PermissionDenied.message(), "permission denied");
    assert_eq!(ToolError::Execution("x".into()).message(), "tool execution failed: x");
    assert_eq!(AgentError::Cancelled.message(), "task was cancelled");
    assert_eq!(AgentError::Input("bad".into()).message(), "agent input error: bad");
    assert_eq!(PlannerError::NotConfigured.message(), "LLM provider is not configured");
    assert_eq!(PlannerError::Request("HTTP 500".into()).message(), "LLM request failed: HTTP 500");
    assert_eq!(SchedulerError::Storage("disk".into()).message(), "schedule storage error: disk");
    assert_eq!(ConnectorError::Runtime("gone".into()).message(), "connector runtime is unavailable: gone");
    assert_eq!(ConnectorError::InvalidData("?".into()).message(), "connector returned invalid data: ?");
}
