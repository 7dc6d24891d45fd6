//! The agent's run of one request as a state machine: the caller reports
//! what happened (cancellation, tool outcomes, the planner's answer) and the
//! machine updates the task and says what to do next and what to emit.
use vstd::prelude::*;
use crate::task::{
    ActivityEvent, ActivityStatus, ExecutionTarget, PlanStep, StepStatus, TaskState, TaskStatus,
    fresh_id, now_millis,
};
use crate::text::{owned, string_views};
use crate::tools::prefixed;

verus! {

#[derive(Debug, Clone)]
pub enum AgentError {
    Cancelled,
    Tool(String),
    Input(String),
}

impl AgentError {
    /// The human-readable message of the error.
    pub fn message(&self) -> (m: String)
        ensures
            m@ == agent_error_message(*self),
    {
        match self {
            AgentError::Cancelled => owned("task was cancelled"),
            AgentError::Tool(s) => prefixed("tool error: ", s.as_str()),
            AgentError::Input(s) => prefixed("agent input error: ", s.as_str()),
        }
    }
}

pub open spec fn agent_error_message(e: AgentError) -> Seq<char> {
    match e {
        AgentError::Cancelled => "task was cancelled"@,
        AgentError::Tool(s) => "tool error: "@ + s@,
        AgentError::Input(s) => "agent input error: "@ + s@,
    }
}

/// The default plan for `request`: analyse the workspace with
/// `directory_list`, interpret the request, verify the result.
pub open spec fn is_default_plan(plan: Seq<PlanStep>, request: Seq<char>) -> bool {
    &&& plan.len() == 3
    &&& plan[0].title@ == "Analyze the active workspace"@
    &&& tool_is(plan[0].tool, "directory_list"@)
    &&& plan[1].title@ == "Interpret request: "@ + request
    &&& plan[1].tool is None
    &&& plan[2].title@ == "Verify the observed result"@
    &&& plan[2].tool is None
    &&& forall|i: int|
        0 <= i < 3 ==> #[trigger] plan[i].status == StepStatus::Planned && plan[i].target
            == ExecutionTarget::Host
}

/// The default plan (see [`is_default_plan`]), with fresh step identifiers.
pub fn build_plan(request: &str) -> (plan: Vec<PlanStep>)
    ensures
        is_default_plan(plan@, request@),
{
    let mut plan = Vec::new();
    plan.push(
        PlanStep {
            id: fresh_id(),
            title: owned("Analyze the active workspace"),
            tool: Some(owned("directory_list")),
            status: StepStatus::Planned,
            target: ExecutionTarget::Host,
        },
    );
    plan.push(
        PlanStep {
            id: fresh_id(),
            title: prefixed("Interpret request: ", request),
            tool: None,
            status: StepStatus::Planned,
            target: ExecutionTarget::Host,
        },
    );
    plan.push(
        PlanStep {
            id: fresh_id(),
            title: owned("Verify the observed result"),
            tool: None,
            status: StepStatus::Planned,
            target: ExecutionTarget::Host,
        },
    );
    plan
}

/// Where a run stands.
#[derive(Debug, Clone, Copy, PartialEq, Eq, Structural)]
pub enum RunPhase {
    /// Waiting for the cancellation check and the choice of planner.
    Starting,
    /// The workspace listing is under way.
    Listing,
    /// The planner has been asked.
    Planning,
    /// Waiting for the cancellation check before planned call `i`.
    AwaitingCall(usize),
    /// Planned call `i` is under way.
    RunningCall(usize),
    /// The run is over.
    Finished,
}

/// What the caller reports to the run.
#[derive(Debug, Clone)]
pub enum AgentEvent {
    /// The cancellation token was checked before any work, and the LLM
    /// planner is (or is not) to be used.
    Begin { cancelled: bool, use_planner: bool },
    /// The workspace listing could not start: the tool was not found or
    /// refused its input (with the tool error's message).
    ListingRefused(String),
    /// The workspace listing failed (`cancelled` when the tool reported a
    /// cancellation).
    ListingFailed { cancelled: bool, message: String },
    /// The workspace listing succeeded.
    ListingSucceeded { tool: String, duration_ms: u64 },
    /// The planner failed, with its error's message.
    PlanFailed(String),
    /// The planner chose these tools, in order.
    PlanReceived(Vec<String>),
    /// The cancellation token was checked before the next planned call.
    CallReady { cancelled: bool },
    /// The planned call failed, with the agent error's message.
    CallFailed(String),
    /// The planned call succeeded.
    CallSucceeded { tool: String, duration_ms: u64 },
}

/// What the caller must do next.
#[derive(Debug)]
pub enum AgentAction {
    /// Look up `directory_list`, validate `{"path": "."}`, emit `running`,
    /// run the tool without approval, and report the outcome.
    ListWorkspace { running: ActivityEvent },
    /// Ask the LLM planner for tool calls and report the answer.
    AskPlanner,
    /// Check the cancellation token and report `CallReady`.
    CheckCancellation,
    /// Emit `running`, run planned call `index` of tool `tool`, and report the
    /// outcome.
    RunCall { index: usize, tool: String, running: ActivityEvent },
    /// The run is over, with this outcome; the task holds the final state.
    Finish(Result<(), AgentError>),
    /// The event does not fit the run's phase and was not applied.
    Ignore,
}

/// A run of one request.
#[derive(Debug)]
pub struct AgentRun {
    task: TaskState,
    phase: RunPhase,
    calls: Vec<String>,
}

pub open spec fn is_tool_error(a: AgentAction, message: Seq<char>) -> bool {
    a matches AgentAction::Finish(Err(AgentError::Tool(m))) && m@ == message
}

pub open spec fn is_input_error(a: AgentAction, message: Seq<char>) -> bool {
    a matches AgentAction::Finish(Err(AgentError::Input(m))) && m@ == message
}

pub open spec fn tool_is(tool: Option<String>, name: Seq<char>) -> bool {
    tool matches Some(t) && t@ == name
}

pub open spec fn all_steps_verified(task: TaskState) -> bool {
    forall|j: int| 0 <= j < task.plan@.len() ==> #[trigger] task.plan@[j].status == StepStatus::Verified
}

/// An event of the run's task with this status and message.
pub open spec fn task_event(e: ActivityEvent, task: TaskState, status: ActivityStatus, message: Seq<char>) -> bool {
    e.task_id == task.task_id && e.status == status && e.message@ == message
}

/// The event names the tool, on the host, and how long it took.
pub open spec fn timed_tool_event(e: ActivityEvent, tool: Seq<char>, duration_ms: u64) -> bool {
    tool_is(e.tool, tool) && e.target == Some(ExecutionTarget::Host) && e.duration_ms == Some(
        duration_ms,
    )
}

/// The step is the same apart from its status.
pub open spec fn same_step(a: PlanStep, b: PlanStep) -> bool {
    a.id == b.id && a.title == b.title && a.tool == b.tool && a.target == b.target
}

/// `b` is `a` with step `i` given `status` and nothing else changed.
pub open spec fn plan_with_status(a: Seq<PlanStep>, b: Seq<PlanStep>, i: int, status: StepStatus) -> bool {
    &&& b.len() == a.len()
    &&& same_step(b[i], a[i])
    &&& b[i].status == status
    &&& forall|j: int| 0 <= j < a.len() && j != i ==> b[j] == a[j]
}

/// The task is unchanged but for the fields an event is about.
pub open spec fn same_task_identity(a: TaskState, b: TaskState) -> bool {
    a.task_id == b.task_id && a.goal == b.goal && a.created_at == b.created_at
}

fn set_step_status(plan: &mut Vec<PlanStep>, i: usize, status: StepStatus)
    requires
        i < old(plan)@.len(),
    ensures
        plan_with_status(old(plan)@, final(plan)@, i as int, status),
{
    let mut step = plan.remove(i);
    step.status = status;
    plan.insert(i, step);
}

impl AgentRun {
    pub closed spec fn task_view(&self) -> TaskState {
        self.task
    }

    pub closed spec fn phase_view(&self) -> RunPhase {
        self.phase
    }

    pub closed spec fn calls_view(&self) -> Seq<Seq<char>> {
        string_views(self.calls@)
    }

    /// The run's bookkeeping is consistent with its phase.
    pub open spec fn well_formed(&self) -> bool {
        &&& self.phase_view() != RunPhase::Finished ==> self.task_view().status == TaskStatus::Running
        &&& (self.phase_view() == RunPhase::Starting || self.phase_view() == RunPhase::Listing)
            ==> self.task_view().plan@.len() == 3
        &&& self.phase_view() matches RunPhase::AwaitingCall(i) ==> {
            &&& i < self.task_view().plan@.len()
            &&& self.calls_view().len() == self.task_view().plan@.len()
            &&& forall|j: int| 0 <= j < i ==> #[trigger] self.task_view().plan@[j].status
                == StepStatus::Verified
        }
        &&& self.phase_view() matches RunPhase::RunningCall(i) ==> {
            &&& i < self.task_view().plan@.len()
            &&& self.calls_view().len() == self.task_view().plan@.len()
            &&& forall|j: int| 0 <= j < i ==> #[trigger] self.task_view().plan@[j].status
                == StepStatus::Verified
        }
    }

    /// Starts a run for `request`: a new task for it with the default plan,
    /// running; the returned event announces it.
    pub fn begin(request: String) -> (r: (AgentRun, ActivityEvent))
        ensures
            r.0.well_formed(),
            r.0.phase_view() == RunPhase::Starting,
            r.0.task_view().goal@ == request@,
            r.0.task_view().status == TaskStatus::Running,
            is_default_plan(r.0.task_view().plan@, request@),
            r.0.task_view().current_step is None,
            !r.0.task_view().verification.verified,
            r.1.task_id == r.0.task_view().task_id,
            r.1.status == ActivityStatus::Started,
            r.1.message@ == "Analyzing workspace"@,
    {
        let plan = build_plan(request.as_str());
        let mut task = TaskState::new(request);
        task.plan = plan;
        task.status = TaskStatus::Running;
        task.updated_at = now_millis();
        let event = ActivityEvent::status(task.task_id, ActivityStatus::Started, owned("Analyzing workspace"));
        (AgentRun { task, phase: RunPhase::Starting, calls: Vec::new() }, event)
    }

    /// The task as it stands.
    pub fn task(&self) -> (t: &TaskState)
        ensures
            *t == self.task_view(),
    {
        &self.task
    }

    /// The task, ending the run.
    pub fn into_task(self) -> (t: TaskState)
        ensures
            t == self.task_view(),
    {
        self.task
    }

    pub fn phase(&self) -> (p: RunPhase)
        ensures
            p == self.phase_view(),
    {
        self.phase
    }

    fn verify_all(plan: &mut Vec<PlanStep>)
        ensures
            final(plan)@.len() == old(plan)@.len(),
            forall|j: int| 0 <= j < old(plan)@.len() ==> same_step(#[trigger] final(plan)@[j], old(plan)@[j]),
            forall|j: int| 0 <= j < old(plan)@.len() ==> #[trigger] final(plan)@[j].status == StepStatus::Verified,
    {
        let ghost start = plan@;
        let mut i: usize = 0;
        while i < plan.len()
            invariant
                i <= plan@.len(),
                plan@.len() == start.len(),
                forall|j: int| 0 <= j < start.len() ==> same_step(#[trigger] plan@[j], start[j]),
                forall|j: int| 0 <= j < i ==> #[trigger] plan@[j].status == StepStatus::Verified,
            decreases plan@.len() - i,
        {
            set_step_status(plan, i, StepStatus::Verified);
            i = i + 1;
        }
    }

    fn planned_steps(calls: &Vec<String>) -> (plan: Vec<PlanStep>)
        ensures
            plan@.len() == calls@.len(),
            forall|i: int|
                0 <= i < calls@.len() ==> {
                    &&& (#[trigger] plan@[i]).title@ == "Execute "@ + calls@[i]@
                    &&& tool_is(plan@[i].tool, calls@[i]@)
                    &&& plan@[i].status == StepStatus::Planned
                    &&& plan@[i].target == ExecutionTarget::Host
                },
    {
        let mut plan: Vec<PlanStep> = Vec::new();
        let mut i: usize = 0;
        while i < calls.len()
            invariant
                i <= calls@.len(),
                plan@.len() == i,
                forall|k: int|
                    0 <= k < i ==> {
                        &&& (#[trigger] plan@[k]).title@ == "Execute "@ + calls@[k]@
                        &&& tool_is(plan@[k].tool, calls@[k]@)
                        &&& plan@[k].status == StepStatus::Planned
                        &&& plan@[k].target == ExecutionTarget::Host
                    },
            decreases calls@.len() - i,
        {
            plan.push(
                PlanStep {
                    id: fresh_id(),
                    title: prefixed("Execute ", calls[i].as_str()),
                    tool: Some(calls[i].clone()),
                    status: StepStatus::Planned,
                    target: ExecutionTarget::Host,
                },
            );
            i = i + 1;
        }
        plan
    }

    /// Applies one event and says what to do next; the events returned are to
    /// be emitted, in order, before the action is carried out.
    pub fn step(&mut self, event: AgentEvent) -> (r: (Vec<ActivityEvent>, AgentAction))
        requires
            old(self).well_formed(),
        ensures
            final(self).well_formed(),
            same_task_identity(final(self).task_view(), old(self).task_view()),
            // a finished run stays finished and ignores everything
            old(self).phase_view() == RunPhase::Finished ==> (r.1 matches AgentAction::Ignore
                && *final(self) == *old(self)),
            // success means every step verified, the task completed and verified
            r.1 matches AgentAction::Finish(Ok(())) ==> {
                &&& final(self).task_view().status == TaskStatus::Completed
                &&& final(self).task_view().verification.verified
                &&& all_steps_verified(final(self).task_view())
                &&& final(self).task_view().verification.evidence@.len() > 0
            },
            // a failure never leaves the task completed
            r.1 matches AgentAction::Finish(Err(_)) ==> final(self).task_view().status
                != TaskStatus::Completed,
            r.1 matches AgentAction::Finish(_) ==> final(self).phase_view() == RunPhase::Finished,
            // cancellation observed before the work: no tool runs
            old(self).phase_view() == RunPhase::Starting ==> (event matches AgentEvent::Begin {
                cancelled,
                use_planner,
            } ==> (if cancelled {
                &&& r.1 matches AgentAction::Finish(Err(AgentError::Cancelled))
                &&& final(self).task_view().status == TaskStatus::Cancelled
                &&& r.0@.len() == 0
            } else if use_planner {
                &&& r.1 matches AgentAction::AskPlanner
                &&& final(self).phase_view() == RunPhase::Planning
            } else {
                &&& r.1 matches AgentAction::ListWorkspace { running }
                &&& final(self).phase_view() == RunPhase::Listing
                &&& task_event(
                    r.1->ListWorkspace_running,
                    old(self).task_view(),
                    ActivityStatus::Running,
                    "Reading workspace entries"@,
                )
                &&& tool_is(r.1->ListWorkspace_running.tool, "directory_list"@)
                &&& r.1->ListWorkspace_running.target == Some(ExecutionTarget::Host)
                &&& final(self).task_view().plan@[0].status == StepStatus::Running
                &&& final(self).task_view().current_step == Some(old(self).task_view().plan@[0].id)
            })),
            // the outcome of the workspace listing
            old(self).phase_view() == RunPhase::Listing ==> (event matches AgentEvent::ListingFailed {
                cancelled,
                message,
            } ==> (is_tool_error(r.1, message@) && final(self).task_view().status == (if cancelled {
                TaskStatus::Cancelled
            } else {
                TaskStatus::Failed
            }))),
            old(self).phase_view() == RunPhase::Listing ==> (event matches AgentEvent::ListingRefused(
                message,
            ) ==> (is_tool_error(r.1, message@) && final(self).task_view().status == old(
                self,
            ).task_view().status)),
            old(self).phase_view() == RunPhase::Listing ==> (event is ListingSucceeded ==> (r.1
                matches AgentAction::Finish(Ok(())) && r.0@.len() == 2)),
            // the events announcing a successful listing
            old(self).phase_view() == RunPhase::Listing ==> (event matches AgentEvent::ListingSucceeded {
                tool,
                duration_ms,
            } ==> {
                &&& task_event(r.0@[0], old(self).task_view(), ActivityStatus::Success, "Workspace analyzed"@)
                &&& timed_tool_event(r.0@[0], tool@, duration_ms)
                &&& task_event(r.0@[1], old(self).task_view(), ActivityStatus::Success, "Verification passed"@)
                &&& r.0@[1].tool is None
            }),
            // a failure is announced by no event
            r.1 matches AgentAction::Finish(Err(_)) ==> r.0@.len() == 0,
            // the planner's answer
            old(self).phase_view() == RunPhase::Planning ==> (event matches AgentEvent::PlanFailed(
                message,
            ) ==> (is_input_error(r.1, message@) && final(self).task_view().status == old(
                self,
            ).task_view().status)),
            old(self).phase_view() == RunPhase::Planning ==> (event matches AgentEvent::PlanReceived(
                names,
            ) ==> (if names@.len() == 0 {
                &&& is_input_error(r.1, "planner returned no executable tool calls"@)
                &&& final(self).task_view().status == TaskStatus::Failed
            } else {
                &&& r.1 matches AgentAction::CheckCancellation
                &&& final(self).phase_view() == RunPhase::AwaitingCall(0)
                &&& final(self).calls_view() == string_views(names@)
                &&& final(self).task_view().plan@.len() == names@.len()
                &&& forall|i: int|
                    0 <= i < names@.len() ==> tool_is(
                        (#[trigger] final(self).task_view().plan@[i]).tool,
                        names@[i]@,
                    )
            })),
            // each planned call runs only after a cancellation check
            old(self).phase_view() matches RunPhase::AwaitingCall(i) ==> (event matches AgentEvent::CallReady {
                cancelled,
            } ==> (if cancelled {
                &&& r.1 matches AgentAction::Finish(Err(AgentError::Cancelled))
                &&& final(self).task_view().status == TaskStatus::Cancelled
            } else {
                &&& r.1 matches AgentAction::RunCall { index, tool, running }
                &&& r.1->index == i
                &&& r.1->tool@ == old(self).calls_view()[i as int]
                &&& task_event(
                    r.1->RunCall_running,
                    old(self).task_view(),
                    ActivityStatus::Running,
                    "Executing planned tool"@,
                )
                &&& tool_is(r.1->RunCall_running.tool, old(self).calls_view()[i as int])
                &&& r.1->RunCall_running.target == Some(ExecutionTarget::Host)
                &&& final(self).phase_view() == RunPhase::RunningCall(i)
                &&& final(self).task_view().current_step == Some(old(self).task_view().plan@[i as int].id)
                &&& plan_with_status(
                    old(self).task_view().plan@,
                    final(self).task_view().plan@,
                    i as int,
                    StepStatus::Running,
                )
            })),
            r.1 is RunCall ==> old(self).phase_view() is AwaitingCall,
            // only the planner's answer replaces the plan and the calls
            !(old(self).phase_view() == RunPhase::Planning && event is PlanReceived) ==> {
                &&& final(self).task_view().plan@.len() == old(self).task_view().plan@.len()
                &&& forall|j: int|
                    0 <= j < old(self).task_view().plan@.len() ==> same_step(
                        #[trigger] final(self).task_view().plan@[j],
                        old(self).task_view().plan@[j],
                    )
                &&& final(self).calls_view() == old(self).calls_view()
            },
            r.1 is ListWorkspace ==> old(self).phase_view() == RunPhase::Starting,
            old(self).phase_view() matches RunPhase::RunningCall(i) ==> (event matches AgentEvent::CallFailed(
                message,
            ) ==> (is_tool_error(r.1, message@) && final(self).task_view().status == old(
                self,
            ).task_view().status)),
            old(self).phase_view() matches RunPhase::RunningCall(i) ==> (event is CallSucceeded ==> (
            plan_with_status(
                old(self).task_view().plan@,
                final(self).task_view().plan@,
                i as int,
                StepStatus::Verified,
            ))),
            old(self).phase_view() matches RunPhase::RunningCall(i) ==> (event is CallSucceeded ==> (
            if i + 1 < old(self).task_view().plan@.len() {
                &&& r.1 matches AgentAction::CheckCancellation
                &&& final(self).phase_view() == RunPhase::AwaitingCall((i + 1) as usize)
                &&& r.0@.len() == 1
            } else {
                &&& r.1 matches AgentAction::Finish(Ok(()))
                &&& r.0@.len() == 2
                &&& task_event(r.0@[1], old(self).task_view(), ActivityStatus::Success, "Autonomous plan verified"@)
                &&& r.0@[1].tool is None
            })),
            // the event announcing a completed planned call
            old(self).phase_view() is RunningCall ==> (event matches AgentEvent::CallSucceeded {
                tool,
                duration_ms,
            } ==> {
                &&& task_event(r.0@[0], old(self).task_view(), ActivityStatus::Success, "Planned tool completed"@)
                &&& timed_tool_event(r.0@[0], tool@, duration_ms)
            }),
    {
        match self.phase {
            RunPhase::Starting => match event {
                AgentEvent::Begin { cancelled, use_planner } => {
                    if cancelled {
                        self.task.status = TaskStatus::Cancelled;
                        self.phase = RunPhase::Finished;
                        return (Vec::new(), AgentAction::Finish(Err(AgentError::Cancelled)));
                    }
                    if use_planner {
                        self.phase = RunPhase::Planning;
                        return (Vec::new(), AgentAction::AskPlanner);
                    }
                    self.task.current_step = Some(self.task.plan[0].id);
                    set_step_status(&mut self.task.plan, 0, StepStatus::Running);
                    self.phase = RunPhase::Listing;
                    let running = ActivityEvent::status(
                        self.task.task_id,
                        ActivityStatus::Running,
                        owned("Reading workspace entries"),
                    ).with_tool(owned("directory_list"), ExecutionTarget::Host);
                    (Vec::new(), AgentAction::ListWorkspace { running })
                },
                _ => (Vec::new(), AgentAction::Ignore),
            },
            RunPhase::Listing => match event {
                AgentEvent::ListingRefused(message) => {
                    self.phase = RunPhase::Finished;
                    (Vec::new(), AgentAction::Finish(Err(AgentError::Tool(message))))
                },
                AgentEvent::ListingFailed { cancelled, message } => {
                    self.task.status = if cancelled {
                        TaskStatus::Cancelled
                    } else {
                        TaskStatus::Failed
                    };
                    self.phase = RunPhase::Finished;
                    (Vec::new(), AgentAction::Finish(Err(AgentError::Tool(message))))
                },
                AgentEvent::ListingSucceeded { tool, duration_ms } => {
                    let mut events = Vec::new();
                    events.push(
                        ActivityEvent::status(
                            self.task.task_id,
                            ActivityStatus::Success,
                            owned("Workspace analyzed"),
                        ).with_tool(tool, ExecutionTarget::Host).with_duration(duration_ms),
                    );
                    Self::verify_all(&mut self.task.plan);
                    self.task.verification.verified = true;
                    self.task.verification.evidence.push(owned("directory_list returned successfully"));
                    self.task.status = TaskStatus::Completed;
                    self.task.updated_at = now_millis();
                    events.push(
                        ActivityEvent::status(
                            self.task.task_id,
                            ActivityStatus::Success,
                            owned("Verification passed"),
                        ),
                    );
                    self.phase = RunPhase::Finished;
                    (events, AgentAction::Finish(Ok(())))
                },
                _ => (Vec::new(), AgentAction::Ignore),
            },
            RunPhase::Planning => match event {
                AgentEvent::PlanFailed(message) => {
                    self.phase = RunPhase::Finished;
                    (Vec::new(), AgentAction::Finish(Err(AgentError::Input(message))))
                },
                AgentEvent::PlanReceived(names) => {
                    self.task.plan = Self::planned_steps(&names);
                    if names.len() == 0 {
                        self.task.status = TaskStatus::Failed;
                        self.phase = RunPhase::Finished;
                        return (
                            Vec::new(),
                            AgentAction::Finish(
                                Err(AgentError::Input(owned("planner returned no executable tool calls"))),
                            ),
                        );
                    }
                    self.calls = names;
                    self.phase = RunPhase::AwaitingCall(0);
                    (Vec::new(), AgentAction::CheckCancellation)
                },
                _ => (Vec::new(), AgentAction::Ignore),
            },
            RunPhase::AwaitingCall(i) => match event {
                AgentEvent::CallReady { cancelled } => {
                    if cancelled {
                        self.task.status = TaskStatus::Cancelled;
                        self.phase = RunPhase::Finished;
                        return (Vec::new(), AgentAction::Finish(Err(AgentError::Cancelled)));
                    }
                    self.task.current_step = Some(self.task.plan[i].id);
                    set_step_status(&mut self.task.plan, i, StepStatus::Running);
                    self.phase = RunPhase::RunningCall(i);
                    let tool = self.calls[i].clone();
                    let running = ActivityEvent::status(
                        self.task.task_id,
                        ActivityStatus::Running,
                        owned("Executing planned tool"),
                    ).with_tool(self.calls[i].clone(), ExecutionTarget::Host);
                    (Vec::new(), AgentAction::RunCall { index: i, tool, running })
                },
                _ => (Vec::new(), AgentAction::Ignore),
            },
            RunPhase::RunningCall(i) => match event {
                AgentEvent::CallFailed(message) => {
                    self.phase = RunPhase::Finished;
                    (Vec::new(), AgentAction::Finish(Err(AgentError::Tool(message))))
                },
                AgentEvent::CallSucceeded { tool, duration_ms } => {
                    set_step_status(&mut self.task.plan, i, StepStatus::Verified);
                    let mut events = Vec::new();
                    events.push(
                        ActivityEvent::status(
                            self.task.task_id,
                            ActivityStatus::Success,
                            owned("Planned tool completed"),
                        ).with_tool(tool, ExecutionTarget::Host).with_duration(duration_ms),
                    );
                    let n = self.task.plan.len();
                    if i + 1 < n {
                        self.phase = RunPhase::AwaitingCall(i + 1);
                        return (events, AgentAction::CheckCancellation);
                    }
                    self.task.status = TaskStatus::Completed;
                    self.task.verification.verified = true;
                    self.task.verification.evidence.push(owned("all planned tool calls completed"));
                    self.task.updated_at = now_millis();
                    events.push(
                        ActivityEvent::status(
                            self.task.task_id,
                            ActivityStatus::Success,
                            owned("Autonomous plan verified"),
                        ),
                    );
                    self.phase = RunPhase::Finished;
                    (events, AgentAction::Finish(Ok(())))
                },
                _ => (Vec::new(), AgentAction::Ignore),
            },
            RunPhase::Finished => (Vec::new(), AgentAction::Ignore),
        }
    }
}

/// The planned run as a whole, composed from its steps: the planner chose
/// `names`, no cancellation is observed, and call `i` ends as `outcomes[i]`
/// says (its duration, or the agent error's message). An empty plan fails
/// without running a tool; otherwise the calls run in order up to the first
/// failure, whose error ends the run, and a run whose calls all succeed
/// completes with every step verified. The tools handed out to run are
/// returned in order.
pub fn planned_run(request: String, names: Vec<String>, outcomes: Vec<Result<u64, String>>) -> (r: (
    TaskState,
    Result<(), AgentError>,
    Vec<String>,
))
    requires
        outcomes@.len() == names@.len(),
    ensures
        r.0.goal@ == request@,
        names@.len() == 0 ==> {
            &&& r.1 matches Err(AgentError::Input(m))
            &&& r.1->Err_0->Input_0@ == "planner returned no executable tool calls"@
            &&& r.2@.len() == 0
            &&& r.0.status == TaskStatus::Failed
        },
        names@.len() > 0 ==> {
            &&& r.0.plan@.len() == names@.len()
            &&& forall|i: int| 0 <= i < names@.len() ==> tool_is((#[trigger] r.0.plan@[i]).tool, names@[i]@)
        },
        names@.len() > 0 ==> (r.1 is Ok <==> forall|i: int| 0 <= i < outcomes@.len() ==> #[trigger] outcomes@[i] is Ok),
        r.1 is Ok ==> {
            &&& r.0.status == TaskStatus::Completed
            &&& r.0.verification.verified
            &&& all_steps_verified(r.0)
            &&& string_views(r.2@) == string_views(names@)
        },
        names@.len() > 0 ==> (r.1 matches Err(e) ==> exists|k: int|
            {
                &&& 0 <= k < outcomes@.len()
                &&& (forall|j: int| 0 <= j < k ==> #[trigger] outcomes@[j] is Ok)
                &&& #[trigger] outcomes@[k] matches Err(m)
                &&& e matches AgentError::Tool(m) && m@ == outcomes@[k]->Err_0@
                &&& string_views(r.2@) == string_views(names@).take(k + 1)
                &&& r.0.status == TaskStatus::Running
            }),
{
    let ghost nv = string_views(names@);
    let n = names.len();
    let (mut run, _) = AgentRun::begin(request);
    let _ = run.step(AgentEvent::Begin { cancelled: false, use_planner: true });
    let (_, action) = run.step(AgentEvent::PlanReceived(names));
    let mut ran: Vec<String> = Vec::new();
    if n == 0 {
        let task = run.into_task();
        return match action {
            AgentAction::Finish(outcome) => (task, outcome, ran),
            _ => (task, Ok(()), ran),
        };
    }
    let mut i: usize = 0;
    while i < n
        invariant
            n == nv.len(),
            names@.len() == n,
            nv == string_views(names@),
            outcomes@.len() == n,
            i < n,
            run.well_formed(),
            run.phase_view() == RunPhase::AwaitingCall(i),
            run.calls_view() == nv,
            run.task_view().goal@ == request@,
            run.task_view().status == TaskStatus::Running,
            run.task_view().plan@.len() == n,
            forall|j: int| 0 <= j < n ==> tool_is((#[trigger] run.task_view().plan@[j]).tool, nv[j]),
            forall|j: int| 0 <= j < i ==> #[trigger] outcomes@[j] is Ok,
            string_views(ran@) == nv.take(i as int),
        decreases n - i,
    {
        let ghost before = run.task_view().plan@;
        let (_, action) = run.step(AgentEvent::CallReady { cancelled: false });
        let tool = match action {
            AgentAction::RunCall { tool, .. } => tool,
            _ => String::new(),
        };
        assert(tool@ == nv[i as int]);
        let ghost ran_before = ran@;
        ran.push(tool);
        assert(string_views(ran@) =~= string_views(ran_before).push(nv[i as int]));
        assert(string_views(ran@) =~= nv.take(i + 1));
        let ghost mid = run.task_view().plan@;
        assert forall|j: int| 0 <= j < n implies tool_is((#[trigger] run.task_view().plan@[j]).tool, nv[j]) by {
            assert(same_step(mid[j], before[j]));
        }
        match &outcomes[i] {
            Ok(duration_ms) => {
                let (_, action) = run.step(
                    AgentEvent::CallSucceeded { tool: String::new(), duration_ms: *duration_ms },
                );
                assert forall|j: int| 0 <= j < n implies tool_is((#[trigger] run.task_view().plan@[j]).tool, nv[j]) by {
                    assert(same_step(run.task_view().plan@[j], mid[j]));
                }
                if i + 1 == n {
                    let task = run.into_task();
                    assert(nv.take(n as int) =~= nv);
                    assert(forall|j: int| 0 <= j < n ==> nv[j] == names@[j]@);
                    assert forall|j: int| 0 <= j < outcomes@.len() implies #[trigger] outcomes@[j] is Ok by {
                        if j == i {
                        }
                    }
                    return match action {
                        AgentAction::Finish(outcome) => (task, outcome, ran),
                        _ => (task, Ok(()), ran),
                    };
                }
            },
            Err(message) => {
                let (_, action) = run.step(AgentEvent::CallFailed(message.clone()));
                assert forall|j: int| 0 <= j < n implies tool_is((#[trigger] run.task_view().plan@[j]).tool, nv[j]) by {
                    assert(same_step(run.task_view().plan@[j], mid[j]));
                }
                let task = run.into_task();
                proof {
                    assert(outcomes@[i as int] matches Err(m) && m == *message);
                    assert(forall|j: int| 0 <= j < n ==> nv[j] == names@[j]@);
                }
                return match action {
                    AgentAction::Finish(outcome) => {
                        proof {
                            let k = i as int;
                            assert(outcome matches Err(AgentError::Tool(m)) && m@ == message@);
                            assert(string_views(ran@) == string_views(names@).take(k + 1));
                            assert(outcomes@[k] matches Err(m) && m@ == message@);
                        }
                        (task, outcome, ran)
                    },
                    _ => (task, Ok(()), ran),
                };
            },
        }
        i = i + 1;
    }
    let task = run.into_task();
    (task, Ok(()), ran)
}

} // verus!
