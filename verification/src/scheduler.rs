//! Recurring jobs: creating one, finding those that are due, recording a
//! run, pausing and resuming. Reading and writing the schedule file is left
//! to the caller; instants are Unix timestamps in nanoseconds.
use vstd::prelude::*;
use crate::json::clone_json;
use crate::path::{PathParts, PartView, join};
use crate::task::fresh_id;
use crate::text::{chars_of, has_non_space, has_non_space_exec, owned};
use crate::tools::prefixed;

verus! {

#[derive(Debug, Clone)]
pub enum SchedulerError {
    Storage(String),
    Input(String),
}

impl SchedulerError {
    /// The human-readable message of the error.
    pub fn message(&self) -> (m: String)
        ensures
            m@ == scheduler_error_message(*self),
    {
        match self {
            SchedulerError::Storage(s) => prefixed("schedule storage error: ", s.as_str()),
            SchedulerError::Input(s) => prefixed("schedule input error: ", s.as_str()),
        }
    }
}

pub open spec fn scheduler_error_message(e: SchedulerError) -> Seq<char> {
    match e {
        SchedulerError::Storage(s) => "schedule storage error: "@ + s@,
        SchedulerError::Input(s) => "schedule input error: "@ + s@,
    }
}

#[derive(Debug, Clone, Copy, PartialEq, Eq, Structural)]
pub enum ScheduleStatus {
    Active,
    Paused,
}

/// A recurring call of one tool.
#[derive(Debug)]
pub struct ScheduledJob {
    pub id: u128,
    pub name: String,
    pub tool: String,
    pub input: serde_json::Value,
    pub interval_seconds: u64,
    pub next_run_at: i128,
    pub status: ScheduleStatus,
    pub last_run_at: Option<i128>,
}

/// The earliest instant a `chrono::DateTime<Utc>` can hold, in nanoseconds
/// (1 January of year -262143).
pub const EARLIEST_INSTANT_NS: i128 = -8_334_601_315_200_000_000_000;

/// The latest instant a `chrono::DateTime<Utc>` can hold, in nanoseconds
/// (31 December of year 262142, 23:59:59.999999999).
pub const LATEST_INSTANT_NS: i128 = 8_210_266_876_799_999_999_999;

/// Nanoseconds in a second.
pub const NANOS_PER_SECOND: i128 = 1_000_000_000;

/// The smallest interval a job may have, in seconds.
pub const MIN_INTERVAL_SECONDS: u64 = 30;

/// The interval as the signed number of seconds the schedule adds: the
/// `u64` taken as an `i64`, so values above `i64::MAX` wrap around.
pub open spec fn interval_delta_seconds(interval: u64) -> int {
    if interval <= i64::MAX {
        interval as int
    } else {
        interval as int - 0x1_0000_0000_0000_0000
    }
}

/// `now` plus the interval can be computed: the interval is within the span
/// of a `chrono::TimeDelta` and the sum is a representable instant.
pub open spec fn can_schedule_after(interval: u64, now: i128) -> bool {
    -(i64::MAX / 1000) <= interval_delta_seconds(interval) <= i64::MAX / 1000
        && EARLIEST_INSTANT_NS <= now + interval_delta_seconds(interval) * NANOS_PER_SECOND
        <= LATEST_INSTANT_NS
}

/// The instant one interval after `now`.
pub open spec fn after_interval(interval: u64, now: i128) -> int {
    now + interval_delta_seconds(interval) * NANOS_PER_SECOND
}

fn add_interval(interval: u64, now: i128) -> (t: i128)
    requires
        can_schedule_after(interval, now),
    ensures
        t == after_interval(interval, now),
{
    let secs: i128 = if interval <= i64::MAX as u64 {
        interval as i128
    } else {
        interval as i128 - 0x1_0000_0000_0000_0000i128
    };
    now + secs * NANOS_PER_SECOND
}

/// Why a new job is refused, if it is.
pub open spec fn new_job_error(name: Seq<char>, tool: Seq<char>, interval: u64) -> Option<Seq<char>> {
    if !has_non_space(name) || !has_non_space(tool) {
        Some("name and tool are required"@)
    } else if interval < MIN_INTERVAL_SECONDS {
        Some("interval must be at least 30 seconds"@)
    } else {
        None
    }
}

/// The job is active and its next run is not later than `now`.
pub open spec fn is_due(job: ScheduledJob, now: i128) -> bool {
    job.status == ScheduleStatus::Active && job.next_run_at <= now
}

/// The jobs that are due, in order.
pub open spec fn due_jobs(jobs: Seq<ScheduledJob>, now: i128) -> Seq<ScheduledJob>
    decreases jobs.len(),
{
    if jobs.len() == 0 {
        Seq::empty()
    } else if is_due(jobs.last(), now) {
        due_jobs(jobs.drop_last(), now).push(jobs.last())
    } else {
        due_jobs(jobs.drop_last(), now)
    }
}

/// The index of the first job with the given id.
pub open spec fn first_with_id(jobs: Seq<ScheduledJob>, id: u128) -> Option<int> {
    if exists|i: int| 0 <= i < jobs.len() && jobs[i].id == id {
        Some(
            choose|i: int|
                0 <= i < jobs.len() && jobs[i].id == id && forall|j: int|
                    0 <= j < i ==> jobs[j].id != id,
        )
    } else {
        None
    }
}

proof fn lemma_first_with_id(jobs: Seq<ScheduledJob>, id: u128, i: int)
    requires
        0 <= i < jobs.len(),
        jobs[i].id == id,
        forall|j: int| 0 <= j < i ==> jobs[j].id != id,
    ensures
        first_with_id(jobs, id) == Some(i),
{
    let k = choose|k: int|
        0 <= k < jobs.len() && jobs[k].id == id && forall|j: int| 0 <= j < k ==> jobs[j].id != id;
    assert(0 <= k < jobs.len() && jobs[k].id == id && forall|j: int| 0 <= j < k ==> jobs[j].id != id);
    if k < i {
        assert(jobs[k].id != id);
    } else if k > i {
        assert(jobs[i].id != id);
    }
}

proof fn lemma_earliest_with_id(jobs: Seq<ScheduledJob>, id: u128, k: int) -> (m: int)
    requires
        0 <= k < jobs.len(),
        jobs[k].id == id,
    ensures
        0 <= m <= k,
        jobs[m].id == id,
        forall|j: int| 0 <= j < m ==> jobs[j].id != id,
    decreases k,
{
    if exists|j: int| 0 <= j < k && jobs[j].id == id {
        let j = choose|j: int| 0 <= j < k && jobs[j].id == id;
        lemma_earliest_with_id(jobs, id, j)
    } else {
        k
    }
}

/// The index that `first_with_id` names, where some job has the id.
proof fn lemma_first_with_id_found(jobs: Seq<ScheduledJob>, id: u128) -> (i: int)
    requires
        first_with_id(jobs, id) is Some,
    ensures
        first_with_id(jobs, id) == Some(i),
        0 <= i < jobs.len(),
        jobs[i].id == id,
        forall|j: int| 0 <= j < i ==> jobs[j].id != id,
{
    let k = choose|k: int| 0 <= k < jobs.len() && jobs[k].id == id;
    let m = lemma_earliest_with_id(jobs, id, k);
    lemma_first_with_id(jobs, id, m);
    m
}

impl ScheduledJob {
    /// An equal copy of the job.
    pub fn duplicate(&self) -> (j: ScheduledJob)
        ensures
            j == *self,
    {
        ScheduledJob {
            id: self.id,
            name: self.name.clone(),
            tool: self.tool.clone(),
            input: clone_json(&self.input),
            interval_seconds: self.interval_seconds,
            next_run_at: self.next_run_at,
            status: self.status,
            last_run_at: self.last_run_at,
        }
    }
}

/// Two jobs are the same apart from the fields a change is about.
pub open spec fn same_identity(a: ScheduledJob, b: ScheduledJob) -> bool {
    a.id == b.id && a.name == b.name && a.tool == b.tool && a.input == b.input
        && a.interval_seconds == b.interval_seconds
}

/// `after` is `before` with job `i` given `status` and nothing else changed.
pub open spec fn with_status(
    before: Seq<ScheduledJob>,
    after: Seq<ScheduledJob>,
    i: int,
    status: ScheduleStatus,
) -> bool {
    &&& after.len() == before.len()
    &&& forall|j: int| 0 <= j < before.len() && j != i ==> after[j] == before[j]
    &&& same_identity(after[i], before[i])
    &&& after[i].status == status
    &&& after[i].last_run_at == before[i].last_run_at
    &&& after[i].next_run_at == before[i].next_run_at
}

/// Refuses a job without a name or tool, or with too short an interval.
pub fn check_new_job(name: &String, tool: &String, interval_seconds: u64) -> (r: Result<(), SchedulerError>)
    ensures
        r is Ok <==> new_job_error(name@, tool@, interval_seconds) is None,
        r matches Err(e) ==> (e matches SchedulerError::Input(m) && new_job_error(
            name@,
            tool@,
            interval_seconds,
        ) == Some(m@)),
{
    if !has_non_space_exec(&chars_of(name.as_str())) || !has_non_space_exec(&chars_of(tool.as_str())) {
        return Err(SchedulerError::Input(owned("name and tool are required")));
    }
    if interval_seconds < MIN_INTERVAL_SECONDS {
        return Err(SchedulerError::Input(owned("interval must be at least 30 seconds")));
    }
    Ok(())
}

/// A new active job, first due one interval after `now`, never run.
pub fn new_job(name: String, tool: String, input: serde_json::Value, interval_seconds: u64, now: i128) -> (r:
    Result<ScheduledJob, SchedulerError>)
    requires
        new_job_error(name@, tool@, interval_seconds) is None ==> can_schedule_after(
            interval_seconds,
            now,
        ),
    ensures
        r is Ok <==> new_job_error(name@, tool@, interval_seconds) is None,
        r matches Err(e) ==> (e matches SchedulerError::Input(m) && new_job_error(
            name@,
            tool@,
            interval_seconds,
        ) == Some(m@)),
        r matches Ok(job) ==> {
            &&& job.name@ == name@
            &&& job.tool@ == tool@
            &&& job.input == input
            &&& job.interval_seconds == interval_seconds
            &&& job.next_run_at == after_interval(interval_seconds, now)
            &&& job.status == ScheduleStatus::Active
            &&& job.last_run_at is None
        },
{
    check_new_job(&name, &tool, interval_seconds)?;
    Ok(
        ScheduledJob {
            id: fresh_id(),
            name,
            tool,
            input,
            interval_seconds,
            next_run_at: add_interval(interval_seconds, now),
            status: ScheduleStatus::Active,
            last_run_at: None,
        },
    )
}

/// Adds a new job (see [`new_job`]) at the end of the schedule and returns
/// a copy of it; a refused job leaves the schedule as it was.
pub fn add_job(
    jobs: &mut Vec<ScheduledJob>,
    name: String,
    tool: String,
    input: serde_json::Value,
    interval_seconds: u64,
    now: i128,
) -> (r: Result<ScheduledJob, SchedulerError>)
    requires
        new_job_error(name@, tool@, interval_seconds) is None ==> can_schedule_after(
            interval_seconds,
            now,
        ),
    ensures
        r is Ok <==> new_job_error(name@, tool@, interval_seconds) is None,
        r matches Err(e) ==> (e matches SchedulerError::Input(m) && new_job_error(
            name@,
            tool@,
            interval_seconds,
        ) == Some(m@)),
        r is Err ==> final(jobs)@ == old(jobs)@,
        r matches Ok(job) ==> {
            &&& final(jobs)@ == old(jobs)@.push(job)
            &&& job.name@ == name@
            &&& job.tool@ == tool@
            &&& job.input == input
            &&& job.interval_seconds == interval_seconds
            &&& job.next_run_at == after_interval(interval_seconds, now)
            &&& job.status == ScheduleStatus::Active
            &&& job.last_run_at is None
        },
{
    let job = new_job(name, tool, input, interval_seconds, now)?;
    let copy = job.duplicate();
    jobs.push(job);
    Ok(copy)
}

/// The jobs that are due at `now`, in their order.
pub fn due(jobs: Vec<ScheduledJob>, now: i128) -> (r: Vec<ScheduledJob>)
    ensures
        r@ == due_jobs(jobs@, now),
{
    let ghost all = jobs@;
    let mut rest = jobs;
    let mut out: Vec<ScheduledJob> = Vec::new();
    let mut taken: usize = 0;
    let total = rest.len();
    while rest.len() > 0
        invariant
            taken + rest@.len() == all.len(),
            total == all.len(),
            rest@ == all.skip(taken as int),
            out@ == due_jobs(all.take(taken as int), now),
        decreases rest@.len(),
    {
        let job = rest.remove(0);
        assert(job == all[taken as int]);
        assert(all.take(taken + 1).drop_last() =~= all.take(taken as int));
        assert(all.take(taken + 1).last() == job);
        assert(rest@ =~= all.skip(taken + 1));
        if job.status == ScheduleStatus::Active && job.next_run_at <= now {
            out.push(job);
        }
        taken = taken + 1;
    }
    assert(all.take(taken as int) =~= all);
    out
}

/// Records a run of the first job with `id` at `now`: its last run becomes
/// `now` and its next run one interval later.
pub fn mark_run(jobs: &mut Vec<ScheduledJob>, id: u128, now: i128) -> (r: Result<(), SchedulerError>)
    requires
        first_with_id(old(jobs)@, id) matches Some(i) ==> can_schedule_after(
            old(jobs)@[i].interval_seconds,
            now,
        ),
    ensures
        r is Ok <==> first_with_id(old(jobs)@, id) is Some,
        r matches Err(e) ==> (e matches SchedulerError::Input(m) && m@ == "schedule not found"@),
        r is Err ==> final(jobs)@ == old(jobs)@,
        first_with_id(old(jobs)@, id) matches Some(i) ==> {
            &&& final(jobs)@.len() == old(jobs)@.len()
            &&& forall|j: int| 0 <= j < old(jobs)@.len() && j != i ==> final(jobs)@[j] == old(jobs)@[j]
            &&& same_identity(final(jobs)@[i], old(jobs)@[i])
            &&& final(jobs)@[i].status == old(jobs)@[i].status
            &&& final(jobs)@[i].last_run_at == Some(now)
            &&& final(jobs)@[i].next_run_at == after_interval(old(jobs)@[i].interval_seconds, now)
        },
{
    let mut i: usize = 0;
    while i < jobs.len()
        invariant
            jobs@ == old(jobs)@,
            i <= jobs@.len(),
            forall|j: int| 0 <= j < i ==> jobs@[j].id != id,
            first_with_id(old(jobs)@, id) matches Some(k) ==> can_schedule_after(
                old(jobs)@[k].interval_seconds,
                now,
            ),
        decreases jobs@.len() - i,
    {
        if jobs[i].id == id {
            proof {
                lemma_first_with_id(jobs@, id, i as int);
            }
            let next = add_interval(jobs[i].interval_seconds, now);
            let mut job = jobs.remove(i);
            job.last_run_at = Some(now);
            job.next_run_at = next;
            jobs.insert(i, job);
            return Ok(());
        }
        i = i + 1;
    }
    Err(SchedulerError::Input(owned("schedule not found")))
}

/// Sets the status of the first job with `id`.
pub fn set_status(jobs: &mut Vec<ScheduledJob>, id: u128, status: ScheduleStatus) -> (r: Result<
    (),
    SchedulerError,
>)
    ensures
        r is Ok <==> first_with_id(old(jobs)@, id) is Some,
        r matches Err(e) ==> (e matches SchedulerError::Input(m) && m@ == "schedule not found"@),
        r is Err ==> final(jobs)@ == old(jobs)@,
        first_with_id(old(jobs)@, id) matches Some(i) ==> with_status(old(jobs)@, final(jobs)@, i, status),
{
    let mut i: usize = 0;
    while i < jobs.len()
        invariant
            jobs@ == old(jobs)@,
            i <= jobs@.len(),
            forall|j: int| 0 <= j < i ==> jobs@[j].id != id,
        decreases jobs@.len() - i,
    {
        if jobs[i].id == id {
            proof {
                lemma_first_with_id(jobs@, id, i as int);
            }
            let mut job = jobs.remove(i);
            job.status = status;
            jobs.insert(i, job);
            return Ok(());
        }
        i = i + 1;
    }
    Err(SchedulerError::Input(owned("schedule not found")))
}

/// Pauses the first job with `id`.
pub fn pause(jobs: &mut Vec<ScheduledJob>, id: u128) -> (r: Result<(), SchedulerError>)
    ensures
        r is Ok <==> first_with_id(old(jobs)@, id) is Some,
        r is Err ==> final(jobs)@ == old(jobs)@,
        r matches Err(e) ==> (e matches SchedulerError::Input(m) && m@ == "schedule not found"@),
        first_with_id(old(jobs)@, id) matches Some(i) ==> with_status(
            old(jobs)@,
            final(jobs)@,
            i,
            ScheduleStatus::Paused,
        ),
{
    set_status(jobs, id, ScheduleStatus::Paused)
}

/// Resumes the first job with `id`.
pub fn resume(jobs: &mut Vec<ScheduledJob>, id: u128) -> (r: Result<(), SchedulerError>)
    ensures
        r is Ok <==> first_with_id(old(jobs)@, id) is Some,
        r is Err ==> final(jobs)@ == old(jobs)@,
        r matches Err(e) ==> (e matches SchedulerError::Input(m) && m@ == "schedule not found"@),
        first_with_id(old(jobs)@, id) matches Some(i) ==> with_status(
            old(jobs)@,
            final(jobs)@,
            i,
            ScheduleStatus::Active,
        ),
{
    set_status(jobs, id, ScheduleStatus::Active)
}

/// A job whose run `mark_run` has just recorded at `now` is not due at
/// `now` (for an interval that does not wrap around).
pub proof fn law_run_job_is_not_due(job: ScheduledJob, now: i128)
    requires
        MIN_INTERVAL_SECONDS <= job.interval_seconds <= i64::MAX,
        job.next_run_at == after_interval(job.interval_seconds, now),
    ensures
        !is_due(job, now),
{
}

/// The jobs that are due at `now` are exactly the active ones whose next
/// run is not later than `now`, in their order; whether a job has run
/// before plays no part.
pub proof fn law_due_jobs_are_the_active_reached_ones(jobs: Seq<ScheduledJob>, now: i128)
    ensures
        due_jobs(jobs, now) == jobs.filter(
            |j: ScheduledJob| j.status == ScheduleStatus::Active && j.next_run_at <= now,
        ),
    decreases jobs.len(),
{
    reveal(Seq::filter);
    if jobs.len() > 0 {
        law_due_jobs_are_the_active_reached_ones(jobs.drop_last(), now);
    }
}

/// An active job whose run `mark_run` has recorded at `then` is due again
/// from one interval later on.
pub proof fn law_run_job_is_due_again(job: ScheduledJob, then: i128, now: i128)
    requires
        job.status == ScheduleStatus::Active,
        job.last_run_at == Some(then),
        job.next_run_at == after_interval(job.interval_seconds, then),
        after_interval(job.interval_seconds, then) <= now,
    ensures
        due_jobs(seq![job], now) == seq![job],
{
    let one = seq![job];
    assert(one.drop_last() =~= Seq::<ScheduledJob>::empty());
    assert(one.last() == job);
    assert(due_jobs(one.drop_last(), now) == Seq::<ScheduledJob>::empty());
    assert(Seq::<ScheduledJob>::empty().push(job) =~= one);
}

/// A paused job is never due.
pub proof fn law_paused_is_never_due(job: ScheduledJob, now: i128)
    requires
        job.status == ScheduleStatus::Paused,
    ensures
        !is_due(job, now),
{
}

/// Pausing an active job and then resuming it gives back the same jobs, in
/// the same order.
pub proof fn law_pause_then_resume_restores(
    before: Seq<ScheduledJob>,
    paused: Seq<ScheduledJob>,
    resumed: Seq<ScheduledJob>,
    id: u128,
)
    requires
        first_with_id(before, id) matches Some(i) && before[i].status == ScheduleStatus::Active
            && with_status(before, paused, i, ScheduleStatus::Paused),
        first_with_id(paused, id) matches Some(k) ==> with_status(
            paused,
            resumed,
            k,
            ScheduleStatus::Active,
        ),
    ensures
        resumed == before,
{
    let i = lemma_first_with_id_found(before, id);
    assert forall|j: int| 0 <= j < i implies paused[j].id != id by {
        assert(paused[j] == before[j]);
    }
    lemma_first_with_id(paused, id, i);
    assert forall|j: int| 0 <= j < before.len() implies resumed[j] == before[j] by {
        if j != i {
            assert(resumed[j] == paused[j]);
        }
    }
    assert(resumed =~= before);
}

/// Where the schedule of jobs is kept.
#[derive(Debug, Clone)]
pub struct ScheduleStore {
    path: PathParts,
}

impl ScheduleStore {
    pub closed spec fn path_view(&self) -> Seq<PartView> {
        self.path@
    }

    pub fn new(path: PathParts) -> (s: ScheduleStore)
        ensures
            s.path_view() == path@,
    {
        ScheduleStore { path }
    }

    /// The schedule file.
    pub fn path(&self) -> (p: &PathParts)
        ensures
            p@ == self.path_view(),
    {
        &self.path
    }
}

/// The store of a workspace: `<root>/.nyx/schedules.json`.
pub fn default_store(root: &PathParts) -> (s: ScheduleStore)
    ensures
        s.path_view() == join(root@, seq![PartView::Normal(".nyx"@), PartView::Normal("schedules.json"@)]),
{
    let p = root.push_name(&owned(".nyx")).push_name(&owned("schedules.json"));
    proof {
        let tail = seq![PartView::Normal(".nyx"@), PartView::Normal("schedules.json"@)];
        assert(!(tail[0] is Root));
        assert(root@.push(PartView::Normal(".nyx"@)).push(PartView::Normal("schedules.json"@))
            =~= root@ + tail);
    }
    ScheduleStore::new(p)
}

} // verus!
