use nyx::agent::{build_plan, planned_run, AgentAction, AgentError, AgentEvent, AgentRun, RunPhase};
use nyx::task::ExecutionTarget;
use nyx::task::{ActivityStatus, StepStatus, TaskStatus};

#[test]
fn run_completes_and_verifies() {
    let (mut run, started) = AgentRun::begin("inspect project".to_string());
    assert_eq!(started.status, ActivityStatus::Started);
    let (_, action) = run.step(AgentEvent::Begin { cancelled: false, use_planner: false });
    match action {
        AgentAction::ListWorkspace { running } => {
            assert_eq!(running.tool.as_deref(), Some("directory_list"));
        }
        other => panic!("unexpected {:?}", other),
    }
    let (events, action) = run.step(AgentEvent::ListingSucceeded {
        tool: "directory_list".to_string(),
        duration_ms: 3,
    });
    assert!(matches!(action, AgentAction::Finish(Ok(()))));
    assert_eq!(events.len(), 2);
    assert_eq!(events[1].message, "Verification passed");
    let state = run.into_task();
    assert_eq!(state.status, TaskStatus::Completed);
    assert!(state.verification.verified);
    assert_eq!(
        state.plan.iter().filter(|step| step.status == StepStatus::Verified).count(),
        3
    );
}

#[test]
fn cancellation_is_observed_before_work() {
    let (mut run, _) = AgentRun::begin("cancel".to_string());
    let (events, action) = run.step(AgentEvent::Begin { cancelled: true, use_planner: false });
    assert!(events.is_empty());
    assert!(matches!(action, AgentAction::Finish(Err(AgentError::Cancelled))));
    assert_eq!(run.task().status, TaskStatus::Cancelled);
    // a finished run ignores what comes after
    let (_, action) = run.step(AgentEvent::ListingSucceeded { tool: "x".to_string(), duration_ms: 0 });
    assert!(matches!(action, AgentAction::Ignore));
}

#[test]
fn failed_listing_marks_the_task() {
    let (mut run, _) = AgentRun::begin("inspect".to_string());
    run.step(AgentEvent::Begin { cancelled: false, use_planner: false });
    let (_, action) = run.step(AgentEvent::ListingFailed { cancelled: true, message: "tool cancelled".to_string() });
    match action {
        AgentAction::Finish(Err(e)) => assert_eq!(e.message(), "tool error: tool cancelled"),
        other => panic!("unexpected {:?}", other),
    }
    assert_eq!(run.task().status, TaskStatus::Cancelled);
    let (mut run, _) = AgentRun::begin("inspect".to_string());
    run.step(AgentEvent::Begin { cancelled: false, use_planner: false });
    run.step(AgentEvent::ListingFailed { cancelled: false, message: "boom".to_string() });
    assert_eq!(run.task().status, TaskStatus::Failed);
}

#[test]
fn planned_run_executes_each_call_after_a_cancellation_check() {
    let (mut run, _) = AgentRun::begin("plan it".to_string());
    let (_, action) = run.step(AgentEvent::Begin { cancelled: false, use_planner: true });
    assert!(matches!(action, AgentAction::AskPlanner));
    let (_, action) = run.step(AgentEvent::PlanReceived(vec!["file_read".to_string(), "file_search".to_string()]));
    assert!(matches!(action, AgentAction::CheckCancellation));
    assert_eq!(run.task().plan[1].title, "Execute file_search");
    let (_, action) = run.step(AgentEvent::CallReady { cancelled: false });
    match action {
        AgentAction::RunCall { index, tool, running } => {
            assert_eq!(index, 0);
            assert_eq!(tool, "file_read");
            assert_eq!(running.message, "Executing planned tool");
        }
        other => panic!("unexpected {:?}", other),
    }
    let (events, action) = run.step(AgentEvent::CallSucceeded { tool: "file_read".to_string(), duration_ms: 1 });
    assert_eq!(events.len(), 1);
    assert!(matches!(action, AgentAction::CheckCancellation));
    assert_eq!(run.phase(), RunPhase::AwaitingCall(1));
    run.step(AgentEvent::CallReady { cancelled: false });
    let (events, action) = run.step(AgentEvent::CallSucceeded { tool: "file_search".to_string(), duration_ms: 1 });
    assert!(matches!(action, AgentAction::Finish(Ok(()))));
    assert_eq!(events.last().unwrap().message, "Autonomous plan verified");
    let task = run.into_task();
    assert_eq!(task.status, TaskStatus::Completed);
    assert_eq!(task.verification.evidence, vec!["all planned tool calls completed".to_string()]);
}

#[test]
fn empty_plans_and_planner_errors_fail() {
    let (mut run, _) = AgentRun::begin("plan it".to_string());
    run.step(AgentEvent::Begin { cancelled: false, use_planner: true });
    let (_, action) = run.step(AgentEvent::PlanReceived(vec![]));
    match action {
        AgentAction::Finish(Err(AgentError::Input(m))) => assert_eq!(m, "planner returned no executable tool calls"),
        other => panic!("unexpected {:?}", other),
    }
    assert_eq!(run.task().status, TaskStatus::Failed);
    let (mut run, _) = AgentRun::begin("plan it".to_string());
    run.step(AgentEvent::Begin { cancelled: false, use_planner: true });
    run.step(AgentEvent::PlanReceived(vec!["a".to_string()]));
    let (_, action) = run.step(AgentEvent::CallReady { cancelled: true });
    assert!(matches!(action, AgentAction::Finish(Err(AgentError::Cancelled))));
}

#[test]
fn default_plan_has_three_steps() {
    let plan = build_plan("inspect project");
    assert_eq!(plan.len(), 3);
    assert_eq!(plan[0].tool.as_deref(), Some("directory_list"));
    assert_eq!(plan[1].title, "Interpret request: inspect project");
    assert!(plan.iter().all(|s| s.status == StepStatus::Planned));
}

#[test]
fn phases_follow_the_actions() {
    let (mut run, _) = AgentRun::begin("inspect".to_string());
    run.step(AgentEvent::Begin { cancelled: false, use_planner: false });
    assert_eq!(run.phase(), RunPhase::Listing);
    let (_, action) = run.step(AgentEvent::ListingRefused("tool not found: directory_list".to_string()));
    assert!(matches!(action, AgentAction::Finish(Err(AgentError::Tool(_)))));
    assert_eq!(run.task().status, TaskStatus::Running);
    assert_eq!(run.phase(), RunPhase::Finished);

    let (mut run, _) = AgentRun::begin("plan it".to_string());
    run.step(AgentEvent::Begin { cancelled: false, use_planner: true });
    assert_eq!(run.phase(), RunPhase::Planning);
    run.step(AgentEvent::PlanReceived(vec!["file_search".to_string(), "file_read".to_string()]));
    run.step(AgentEvent::CallReady { cancelled: false });
    assert_eq!(run.phase(), RunPhase::RunningCall(0));
    assert_eq!(run.task().plan[0].status, StepStatus::Running);
    run.step(AgentEvent::CallSucceeded { tool: "file_search".to_string(), duration_ms: 2 });
    assert_eq!(run.task().plan[0].status, StepStatus::Verified);
    let (_, action) = run.step(AgentEvent::CallReady { cancelled: false });
    match action {
        AgentAction::RunCall { index, tool, .. } => {
            assert_eq!(index, 1);
            assert_eq!(tool, "file_read");
        }
        other => panic!("unexpected {:?}", other),
    }
    let (_, action) = run.step(AgentEvent::CallFailed("boom".to_string()));
    assert!(matches!(action, AgentAction::Finish(Err(AgentError::Tool(m))) if m == "boom"));
    assert_eq!(run.task().status, TaskStatus::Running);
    assert_eq!(run.task().plan.len(), 2);
}

#[test]
fn planned_runs_run_every_call_until_the_first_failure() {
    let names = vec!["file_read".to_string(), "file_search".to_string(), "directory_list".to_string()];
    let (task, outcome, ran) = planned_run("go".to_string(), names.clone(), vec![Ok(1), Ok(2), Ok(3)]);
    assert!(outcome.is_ok());
    assert_eq!(ran, names);
    assert_eq!(task.status, TaskStatus::Completed);
    assert!(task.plan.iter().all(|s| s.status == StepStatus::Verified));
    assert_eq!(task.plan[2].tool.as_deref(), Some("directory_list"));
    let (task, outcome, ran) =
        planned_run("go".to_string(), names.clone(), vec![Ok(1), Err("denied".to_string()), Ok(3)]);
    assert!(matches!(outcome, Err(AgentError::Tool(m)) if m == "denied"));
    assert_eq!(ran, names[..2].to_vec());
    assert_eq!(task.status, TaskStatus::Running);
    let (task, outcome, ran) = planned_run("go".to_string(), vec![], vec![]);
    assert!(matches!(outcome, Err(AgentError::Input(m)) if m == "planner returned no executable tool calls"));
    assert!(ran.is_empty());
    assert_eq!(task.status, TaskStatus::Failed);
}

#[test]
fn a_successful_listing_announces_itself() {
    let (mut run, _) = AgentRun::begin("inspect".to_string());
    run.step(AgentEvent::Begin { cancelled: false, use_planner: false });
    let (events, _) = run.step(AgentEvent::ListingSucceeded { tool: "directory_list".to_string(), duration_ms: 7 });
    assert_eq!(events[0].status, ActivityStatus::Success);
    assert_eq!(events[0].message, "Workspace analyzed");
    assert_eq!(events[0].tool.as_deref(), Some("directory_list"));
    assert_eq!(events[0].target, Some(ExecutionTarget::Host));
    assert_eq!(events[0].duration_ms, Some(7));
    assert_eq!(events[1].status, ActivityStatus::Success);
    assert_eq!(events[1].message, "Verification passed");
}
