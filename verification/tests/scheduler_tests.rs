use nyx::path::{PathComponent, PathParts};
use nyx::scheduler::{default_store, due, mark_run, new_job, pause, resume, ScheduleStatus, SchedulerError};

fn input() -> serde_json::Value {
    serde_json::from_str("{\"query\":\"demo\"}").unwrap()
}

const NOW: i128 = 1_725_029_869_000_000_000;
const SECOND: i128 = 1_000_000_000;

#[test]
fn persists_and_detects_due_jobs() {
    let job = new_job("lead follow-up".into(), "crm_search_leads".into(), input(), 30, NOW).unwrap();
    assert_eq!(job.next_run_at, NOW + 30 * SECOND);
    let id = job.id;
    let mut jobs = vec![job];
    jobs[0].next_run_at = NOW - SECOND;
    let copies: Vec<_> = jobs.iter().map(|j| j.duplicate()).collect();
    assert_eq!(due(copies, NOW)[0].id, id);
    mark_run(&mut jobs, id, NOW).unwrap();
    assert_eq!(jobs[0].last_run_at, Some(NOW));
    let copies: Vec<_> = jobs.iter().map(|j| j.duplicate()).collect();
    assert!(due(copies, NOW).is_empty());
}

#[test]
fn new_jobs_are_validated() {
    match new_job(" ".into(), "t".into(), input(), 60, NOW) {
        Err(SchedulerError::Input(m)) => assert_eq!(m, "name and tool are required"),
        _ => panic!("expected refusal"),
    }
    match new_job("n".into(), "t".into(), input(), 29, NOW) {
        Err(e) => assert_eq!(e.message(), "schedule input error: interval must be at least 30 seconds"),
        _ => panic!("expected refusal"),
    }
}

#[test]
fn paused_jobs_are_not_due_and_unknown_ids_fail() {
    let job = new_job("n".into(), "t".into(), input(), 30, NOW - 60 * SECOND).unwrap();
    let id = job.id;
    let mut jobs = vec![job];
    pause(&mut jobs, id).unwrap();
    assert_eq!(jobs[0].status, ScheduleStatus::Paused);
    assert!(due(vec![jobs[0].duplicate()], NOW).is_empty());
    resume(&mut jobs, id).unwrap();
    assert_eq!(due(vec![jobs[0].duplicate()], NOW).len(), 1);
    match mark_run(&mut jobs, id.wrapping_add(1), NOW) {
        Err(SchedulerError::Input(m)) => assert_eq!(m, "schedule not found"),
        _ => panic!("expected not found"),
    }
}

#[test]
fn default_store_lives_under_dot_nyx() {
    let root = PathParts::new(vec![PathComponent::RootDir, PathComponent::Normal("ws".to_string())]);
    let store = default_store(&root);
    let names: Vec<String> = store
        .path()
        .parts
        .iter()
        .filter_map(|c| match c {
            PathComponent::Normal(n) => Some(n.clone()),
            _ => None,
        })
        .collect();
    assert_eq!(names, vec!["ws", ".nyx", "schedules.json"]);
}

#[test]
fn due_times_are_exact_to_the_nanosecond() {
    let job = new_job("n".into(), "t".into(), input(), 30, NOW).unwrap();
    let mut jobs = vec![job];
    jobs[0].next_run_at = NOW + 1;
    assert!(due(vec![jobs[0].duplicate()], NOW).is_empty());
    assert_eq!(due(vec![jobs[0].duplicate()], NOW + 1).len(), 1);
}

#[test]
fn pausing_then_resuming_gives_back_the_same_jobs() {
    let a = new_job("a".into(), "t".into(), input(), 30, NOW).unwrap();
    let b = new_job("b".into(), "t".into(), input(), 60, NOW).unwrap();
    let id = b.id;
    let mut jobs = vec![a, b];
    mark_run(&mut jobs, id, NOW).unwrap();
    let before: Vec<_> = jobs.iter().map(|j| j.duplicate()).collect();
    pause(&mut jobs, id).unwrap();
    assert!(due(jobs.iter().map(|j| j.duplicate()).collect(), NOW + 3600 * SECOND).iter().all(|j| j.id != id));
    resume(&mut jobs, id).unwrap();
    for (x, y) in jobs.iter().zip(before.iter()) {
        assert_eq!(x.id, y.id);
        assert_eq!(x.name, y.name);
        assert_eq!(x.status, y.status);
        assert_eq!(x.next_run_at, y.next_run_at);
        assert_eq!(x.last_run_at, y.last_run_at);
        assert_eq!(x.input, y.input);
    }
    match pause(&mut jobs, id.wrapping_add(7)) {
        Err(SchedulerError::Input(m)) => assert_eq!(m, "schedule not found"),
        _ => panic!("expected not found"),
    }
}

#[test]
fn added_jobs_are_appended() {
    let first = new_job("a".into(), "t".into(), input(), 30, NOW).unwrap();
    let mut jobs = vec![first];
    let job = nyx::scheduler::add_job(&mut jobs, "b".into(), "crm_search_leads".into(), input(), 90, NOW).unwrap();
    assert_eq!(jobs.len(), 2);
    assert_eq!(jobs[1].id, job.id);
    assert_eq!(job.name, "b");
    assert_eq!(job.next_run_at, NOW + 90 * SECOND);
    assert_eq!(job.last_run_at, None);
    assert_eq!(job.status, ScheduleStatus::Active);
    assert!(nyx::scheduler::add_job(&mut jobs, "c".into(), " ".into(), input(), 90, NOW).is_err());
    assert_eq!(jobs.len(), 2);
}
