//! Value types shared by every part of the agent: task and step status,
//! execution targets, permission classes, task state and activity events.
//!
//! Identifiers are 128-bit UUID values and instants are Unix timestamps in
//! milliseconds.
use vstd::prelude::*;
use crate::text::owned;

verus! {

/// Identifier of a task (a version-4 UUID as a 128-bit integer).
pub type TaskId = u128;

/// Identifier of a plan step.
pub type StepId = u128;

/// Identifier of one tool invocation.
pub type InvocationId = u128;

#[derive(Debug, Clone, Copy, PartialEq, Eq, Structural)]
pub enum TaskStatus {
    Planned,
    Running,
    AwaitingPermission,
    Completed,
    Failed,
    Cancelled,
    NeedsReview,
}

#[derive(Debug, Clone, Copy, PartialEq, Eq, Structural)]
pub enum StepStatus {
    Planned,
    AwaitingPermission,
    Running,
    Observed,
    Retrying,
    Verified,
    Failed,
    Cancelled,
    Blocked,
}

#[derive(Debug, Clone, Copy, PartialEq, Eq, Structural)]
pub enum ExecutionTarget {
    Host,
    Sandbox,
    Container,
    Remote,
}

#[derive(Debug, Clone, Copy, PartialEq, Eq, Structural)]
pub enum PermissionClass {
    Allow,
    Ask,
    Deny,
}

/// One step of a task's plan.
#[derive(Debug, Clone)]
pub struct PlanStep {
    pub id: StepId,
    pub title: String,
    pub tool: Option<String>,
    pub status: StepStatus,
    pub target: ExecutionTarget,
}

/// Whether a task's outcome was verified, and the evidence gathered for it.
#[derive(Debug, Clone)]
pub struct VerificationState {
    pub verified: bool,
    pub evidence: Vec<String>,
}

impl VerificationState {
    /// Not verified, with no evidence.
    pub fn unverified() -> (v: VerificationState)
        ensures
            !v.verified,
            v.evidence@.len() == 0,
    {
        VerificationState { verified: false, evidence: Vec::new() }
    }
}

impl Default for VerificationState {
    fn default() -> (v: VerificationState)
        ensures
            !v.verified,
            v.evidence@.len() == 0,
    {
        VerificationState::unverified()
    }
}

/// The state of one agent task.
#[derive(Debug, Clone)]
pub struct TaskState {
    pub task_id: TaskId,
    pub goal: String,
    pub status: TaskStatus,
    pub plan: Vec<PlanStep>,
    pub current_step: Option<StepId>,
    pub verification: VerificationState,
    /// Creation instant, Unix milliseconds.
    pub created_at: i64,
    /// Last update instant, Unix milliseconds.
    pub updated_at: i64,
}

/// `uuid::Uuid::new_v4` as a 128-bit value.
///
/// Trusted: the value is random; the contract only states the version and
/// variant bits that `new_v4` masks in (version 4, RFC 4122 variant).
#[verifier::external_body]
pub(crate) fn fresh_id() -> (id: u128)
    ensures
        (id >> 76u128) & 0xfu128 == 4,
        (id >> 62u128) & 0x3u128 == 2,
{
    uuid::Uuid::new_v4().as_u128()
}

/// `chrono::Utc::now` as Unix milliseconds.
///
/// Trusted with no contract: the value is the machine's clock.
#[verifier::external_body]
pub(crate) fn now_millis() -> (t: i64) {
    chrono::Utc::now().timestamp_millis()
}

impl TaskState {
    /// A new task for `goal`: planned, with an empty plan, no current step and
    /// no verification, created and updated at the same instant.
    pub fn new(goal: String) -> (task: TaskState)
        ensures
            task.goal@ == goal@,
            task.status == TaskStatus::Planned,
            task.plan@.len() == 0,
            task.current_step is None,
            !task.verification.verified,
            task.verification.evidence@.len() == 0,
            task.created_at == task.updated_at,
    {
        let now = now_millis();
        TaskState {
            task_id: fresh_id(),
            goal,
            status: TaskStatus::Planned,
            plan: Vec::new(),
            current_step: None,
            verification: VerificationState::unverified(),
            created_at: now,
            updated_at: now,
        }
    }
}

#[derive(Debug, Clone, Copy, PartialEq, Eq, Structural)]
pub enum ActivityStatus {
    Started,
    Running,
    Success,
    Error,
    WaitingForPermission,
    Cancelled,
}

/// The name a status has in the activity stream's JSON (snake case).
pub open spec fn activity_status_name(s: ActivityStatus) -> Seq<char> {
    match s {
        ActivityStatus::Started => "started"@,
        ActivityStatus::Running => "running"@,
        ActivityStatus::Success => "success"@,
        ActivityStatus::Error => "error"@,
        ActivityStatus::WaitingForPermission => "waiting_for_permission"@,
        ActivityStatus::Cancelled => "cancelled"@,
    }
}

impl ActivityStatus {
    /// The status's name in the activity stream's JSON.
    pub fn wire_name(&self) -> (s: String)
        ensures
            s@ == activity_status_name(*self),
    {
        match self {
            ActivityStatus::Started => owned("started"),
            ActivityStatus::Running => owned("running"),
            ActivityStatus::Success => owned("success"),
            ActivityStatus::Error => owned("error"),
            ActivityStatus::WaitingForPermission => owned("waiting_for_permission"),
            ActivityStatus::Cancelled => owned("cancelled"),
        }
    }
}

/// One entry of the activity stream shown to the user.
#[derive(Debug, Clone)]
pub struct ActivityEvent {
    pub event_id: u128,
    pub task_id: TaskId,
    /// Unix milliseconds.
    pub timestamp: i64,
    pub status: ActivityStatus,
    pub message: String,
    pub tool: Option<String>,
    pub target: Option<ExecutionTarget>,
    pub duration_ms: Option<u64>,
    pub error_code: Option<String>,
}

impl ActivityEvent {
    /// A status event for `task_id` with a fresh identifier and the current
    /// time, carrying no tool, target, duration or error code.
    pub fn status(task_id: TaskId, status: ActivityStatus, message: String) -> (e: ActivityEvent)
        ensures
            e.task_id == task_id,
            e.status == status,
            e.message@ == message@,
            e.tool is None,
            e.target is None,
            e.duration_ms is None,
            e.error_code is None,
    {
        ActivityEvent {
            event_id: fresh_id(),
            task_id,
            timestamp: now_millis(),
            status,
            message,
            tool: None,
            target: None,
            duration_ms: None,
            error_code: None,
        }
    }

    /// The same event, attributed to `tool` run on `target`.
    pub fn with_tool(self, tool: String, target: ExecutionTarget) -> (e: ActivityEvent)
        ensures
            e.tool matches Some(t) && t@ == tool@,
            e.target == Some(target),
            e.task_id == self.task_id,
            e.status == self.status,
            e.message@ == self.message@,
            e.duration_ms == self.duration_ms,
            e.error_code == self.error_code,
            e.event_id == self.event_id,
            e.timestamp == self.timestamp,
    {
        ActivityEvent { tool: Some(tool), target: Some(target), ..self }
    }

    /// The same event, with the duration of the tool run that it reports.
    pub fn with_duration(self, duration_ms: u64) -> (e: ActivityEvent)
        ensures
            e.duration_ms == Some(duration_ms),
            e.task_id == self.task_id,
            e.status == self.status,
            e.message@ == self.message@,
            e.tool == self.tool,
            e.target == self.target,
            e.error_code == self.error_code,
            e.event_id == self.event_id,
            e.timestamp == self.timestamp,
    {
        ActivityEvent { duration_ms: Some(duration_ms), ..self }
    }
}

} // verus!
