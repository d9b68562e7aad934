//! The refresh scheduler.
//!
//! Rebuilding an aggregate view is expensive, so the views are rebuilt on a fixed cadence and
//! never two at a time. The scheduler first waits for the next noon or midnight. Then it runs
//! a cycle: every job once, in the order of the job list, with a cooldown between one job and
//! the next. After the last job it waits twelve hours and runs the next cycle. A job that
//! fails is not retried in its cycle and does not hold up the jobs after it.
//!
//! The scheduler neither sleeps nor touches the store. The host tells it what happened, and it
//! answers with what to do next.

use vstd::prelude::*;
use crate::clock::{time_until_next_anchor, wait_until_anchor, Timestamp};
use crate::timeframe::{AggregateView, Timeframe};

verus! {

/// Seconds of rest between one job of a cycle and the next.
pub const COOLDOWN_SECS: u64 = 120;

/// Seconds of rest between the last job of a cycle and the next cycle.
pub const CYCLE_PERIOD_SECS: u64 = 43_200;

/// One aggregate view and when it was last rebuilt.
#[derive(Clone, Debug, PartialEq, Eq)]
pub struct RefreshJob {
    /// The name under which the host reports on the job.
    pub name: String,
    /// The view that the job rebuilds.
    pub target_view: AggregateView,
    /// The place of the job in a cycle, counted from zero.
    pub cadence_rank: usize,
    /// When the last successful run of the job began.
    pub last_run_at: Option<Timestamp>,
    /// How long the last successful run of the job took, in milliseconds.
    pub last_duration_millis: Option<u64>,
}

impl RefreshJob {
    /// A job that has not run yet.
    pub fn new(name: String, target_view: AggregateView) -> (job: RefreshJob)
        ensures
            job == (RefreshJob {
                name,
                target_view,
                cadence_rank: 0,
                last_run_at: None,
                last_duration_millis: None,
            }),
    {
        RefreshJob {
            name,
            target_view,
            cadence_rank: 0,
            last_run_at: None,
            last_duration_millis: None,
        }
    }
}

/// Where the scheduler stands. `Running` and `Cooldown` together are the cycle.
#[derive(Clone, Copy, Debug, PartialEq, Eq)]
pub enum SchedulerState {
    /// Not started yet.
    Idle,
    /// Asleep until the next cycle.
    Waiting,
    /// Job `job` is being run by the host.
    Running { job: usize },
    /// Asleep between two jobs of a cycle; job `next` comes after the rest.
    Cooldown { next: usize },
}

/// What the host reports to the scheduler.
#[derive(Clone, Copy, Debug, PartialEq, Eq)]
pub enum SchedulerEvent {
    /// The scheduler was started, at this instant of the wall clock.
    Started { now: Timestamp },
    /// The sleep that the scheduler asked for is over.
    Woke,
    /// The refresh that the scheduler asked for succeeded.
    JobSucceeded { started_at: Timestamp, duration_millis: u64 },
    /// The refresh that the scheduler asked for failed.
    JobFailed,
}

/// What the scheduler asks of the host.
#[derive(Clone, Copy, Debug, PartialEq, Eq)]
pub enum SchedulerAction {
    /// Sleep for this many seconds, then report `Woke`.
    Sleep { seconds: u64 },
    /// Rebuild the view of job `job`, then report how it went.
    Refresh { job: usize, view: AggregateView },
}

/// The state and the action after job `job` of `count` has ended, however it ended: the
/// cooldown before the next job, or after the last job the long sleep until the next cycle.
pub open spec fn after_job(job: usize, count: nat) -> (SchedulerState, Option<SchedulerAction>) {
    if job + 1 < count {
        (
            SchedulerState::Cooldown { next: (job + 1) as usize },
            Some(SchedulerAction::Sleep { seconds: COOLDOWN_SECS }),
        )
    } else {
        (SchedulerState::Waiting, Some(SchedulerAction::Sleep { seconds: CYCLE_PERIOD_SECS }))
    }
}

/// The state after an event and the action that answers it, for a job list with the given
/// target views. An event that does not fit the state changes nothing and gets no action.
pub open spec fn scheduler_next(
    state: SchedulerState,
    views: Seq<AggregateView>,
    event: SchedulerEvent,
) -> (SchedulerState, Option<SchedulerAction>) {
    match (state, event) {
        (SchedulerState::Idle, SchedulerEvent::Started { now }) => (
            SchedulerState::Waiting,
            Some(
                SchedulerAction::Sleep {
                    seconds: wait_until_anchor(now.seconds(), now.subsec_nanos()) as u64,
                },
            ),
        ),
        (SchedulerState::Waiting, SchedulerEvent::Woke) => if views.len() == 0 {
            (SchedulerState::Waiting, Some(SchedulerAction::Sleep { seconds: CYCLE_PERIOD_SECS }))
        } else {
            (
                SchedulerState::Running { job: 0 },
                Some(SchedulerAction::Refresh { job: 0, view: views[0] }),
            )
        },
        (SchedulerState::Cooldown { next }, SchedulerEvent::Woke) => (
            SchedulerState::Running { job: next },
            Some(SchedulerAction::Refresh { job: next, view: views[next as int] }),
        ),
        (SchedulerState::Running { job }, SchedulerEvent::JobSucceeded { .. }) => after_job(
            job,
            views.len(),
        ),
        (SchedulerState::Running { job }, SchedulerEvent::JobFailed) => after_job(
            job,
            views.len(),
        ),
        _ => (state, None),
    }
}

/// The job list after an event: a success is recorded on the job that ran, and nothing else
/// ever changes.
pub open spec fn jobs_after(
    state: SchedulerState,
    jobs: Seq<RefreshJob>,
    event: SchedulerEvent,
) -> Seq<RefreshJob> {
    match (state, event) {
        (
            SchedulerState::Running { job },
            SchedulerEvent::JobSucceeded { started_at, duration_millis },
        ) => if job < jobs.len() {
            jobs.update(
                job as int,
                RefreshJob {
                    name: jobs[job as int].name,
                    target_view: jobs[job as int].target_view,
                    cadence_rank: jobs[job as int].cadence_rank,
                    last_run_at: Some(started_at),
                    last_duration_millis: Some(duration_millis),
                },
            )
        } else {
            jobs
        },
        _ => jobs,
    }
}

/// The target views of a job list, in its order.
pub open spec fn target_views(jobs: Seq<RefreshJob>) -> Seq<AggregateView> {
    Seq::new(jobs.len(), |k: int| jobs[k].target_view)
}

/// The answers of the scheduler over the rest of a cycle, and the state in which that ends,
/// when the host reports `Woke` after every sleep and `outcomes[k]` after the refresh of job
/// `k`, for the jobs from `from` on.
pub open spec fn cycle_from(
    state: SchedulerState,
    views: Seq<AggregateView>,
    outcomes: Seq<SchedulerEvent>,
    from: int,
) -> (SchedulerState, Seq<Option<SchedulerAction>>)
    decreases outcomes.len() - from,
{
    if from < 0 || from >= outcomes.len() {
        (state, Seq::empty())
    } else {
        let woke = scheduler_next(state, views, SchedulerEvent::Woke);
        let ended = scheduler_next(woke.0, views, outcomes[from]);
        let rest = cycle_from(ended.0, views, outcomes, from + 1);
        (rest.0, seq![woke.1, ended.1] + rest.1)
    }
}

/// What a cycle over the given views consists of: the refresh of each job in the order of the
/// list, each followed by a sleep, which is the cooldown between two jobs and the long sleep
/// after the last job.
pub open spec fn cycle_actions(views: Seq<AggregateView>) -> Seq<Option<SchedulerAction>> {
    Seq::new(
        2 * views.len(),
        |i: int|
            if i % 2 == 0 {
                Some(SchedulerAction::Refresh { job: (i / 2) as usize, view: views[i / 2] })
            } else if i + 1 < 2 * views.len() {
                Some(SchedulerAction::Sleep { seconds: COOLDOWN_SECS })
            } else {
                Some(SchedulerAction::Sleep { seconds: CYCLE_PERIOD_SECS })
            },
    )
}

/// The state in which the scheduler awaits the wake-up before job `job` of a cycle.
pub open spec fn before_job(job: int) -> SchedulerState {
    if job == 0 {
        SchedulerState::Waiting
    } else {
        SchedulerState::Cooldown { next: job as usize }
    }
}

/// Every cycle runs every job, in the order of the list, one at a time and with the cooldown
/// between one job and the next, whichever jobs fail; and it ends asleep for the next cycle.
pub proof fn lemma_cycle_runs_every_job_in_order(
    views: Seq<AggregateView>,
    outcomes: Seq<SchedulerEvent>,
)
    requires
        0 < views.len() <= usize::MAX,
        outcomes.len() == views.len(),
        forall|k: int|
            0 <= k < outcomes.len() ==> #[trigger] outcomes[k] is JobSucceeded || outcomes[k]
                is JobFailed,
    ensures
        cycle_from(SchedulerState::Waiting, views, outcomes, 0) == (
            SchedulerState::Waiting,
            cycle_actions(views),
        ),
{
    lemma_cycle_from(views, outcomes, 0);
    assert(cycle_actions(views).skip(0) == cycle_actions(views));
}

/// The rest of a cycle from job `from` on is the rest of `cycle_actions`.
proof fn lemma_cycle_from(views: Seq<AggregateView>, outcomes: Seq<SchedulerEvent>, from: int)
    requires
        0 <= from < views.len() <= usize::MAX,
        outcomes.len() == views.len(),
        forall|k: int|
            0 <= k < outcomes.len() ==> #[trigger] outcomes[k] is JobSucceeded || outcomes[k]
                is JobFailed,
    ensures
        cycle_from(before_job(from), views, outcomes, from) == (
            SchedulerState::Waiting,
            cycle_actions(views).skip(2 * from),
        ),
    decreases views.len() - from,
{
    let woke = scheduler_next(before_job(from), views, SchedulerEvent::Woke);
    assert(outcomes[from] is JobSucceeded || outcomes[from] is JobFailed);
    let ended = scheduler_next(woke.0, views, outcomes[from]);
    assert(woke.0 == (SchedulerState::Running { job: from as usize }));
    let rest = cycle_from(ended.0, views, outcomes, from + 1);
    let all = cycle_actions(views);
    if from + 1 < views.len() {
        assert(ended.0 == before_job(from + 1));
        lemma_cycle_from(views, outcomes, from + 1);
        assert(seq![woke.1, ended.1] + all.skip(2 * (from + 1)) == all.skip(2 * from));
    } else {
        assert(ended.0 == SchedulerState::Waiting);
        assert(rest.1 == Seq::<Option<SchedulerAction>>::empty());
        assert(seq![woke.1, ended.1] + rest.1 == all.skip(2 * from));
    }
}

/// The action asks for a refresh.
pub open spec fn is_refresh(action: Option<SchedulerAction>) -> bool {
    action matches Some(asked) && asked is Refresh
}

/// One refresh at a time, and never two without a sleep between them. A refresh is asked for
/// only when the host reports the end of a sleep, the job then counts as running, and while a
/// job runs the only answer is the sleep that follows it. An event without an answer changes
/// nothing.
pub proof fn lemma_refresh_follows_sleep(
    state: SchedulerState,
    views: Seq<AggregateView>,
    event: SchedulerEvent,
)
    ensures
        is_refresh(scheduler_next(state, views, event).1) ==> event is Woke && (state is Waiting
            || state is Cooldown) && scheduler_next(state, views, event).0 is Running,
        state is Running ==> !is_refresh(scheduler_next(state, views, event).1),
        scheduler_next(state, views, event).1 is None ==> scheduler_next(state, views, event).0
            == state,
{
}

/// The scheduler of one job list.
pub struct RefreshScheduler {
    jobs: Vec<RefreshJob>,
    state: SchedulerState,
}

impl RefreshScheduler {
    #[verifier::type_invariant]
    spec fn in_order(&self) -> bool {
        &&& forall|k: int| 0 <= k < self.jobs@.len() ==> (#[trigger] self.jobs@[k]).cadence_rank == k
        &&& self.state matches SchedulerState::Running { job } ==> job < self.jobs@.len()
        &&& self.state matches SchedulerState::Cooldown { next } ==> next < self.jobs@.len()
    }

    /// The job list.
    pub closed spec fn jobs(&self) -> Seq<RefreshJob> {
        self.jobs@
    }

    /// Where the scheduler stands.
    pub closed spec fn state(&self) -> SchedulerState {
        self.state
    }

    /// A scheduler for the given jobs, which run in the order of the list. Each job is given
    /// its place in the list as its cadence rank.
    pub fn new(jobs: Vec<RefreshJob>) -> (scheduler: RefreshScheduler)
        ensures
            scheduler.state() == SchedulerState::Idle,
            scheduler.jobs().len() == jobs@.len(),
            target_views(scheduler.jobs()) == target_views(jobs@),
            forall|k: int|
                0 <= k < jobs@.len() ==> #[trigger] scheduler.jobs()[k] == (RefreshJob {
                    name: jobs@[k].name,
                    target_view: jobs@[k].target_view,
                    cadence_rank: k as usize,
                    last_run_at: jobs@[k].last_run_at,
                    last_duration_millis: jobs@[k].last_duration_millis,
                }),
    {
        let mut ranked = jobs;
        let ghost given = ranked@;
        let mut i: usize = 0;
        while i < ranked.len()
            invariant
                0 <= i <= ranked.len(),
                ranked@.len() == given.len(),
                forall|k: int|
                    0 <= k < i ==> #[trigger] ranked@[k] == (RefreshJob {
                        name: given[k].name,
                        target_view: given[k].target_view,
                        cadence_rank: k as usize,
                        last_run_at: given[k].last_run_at,
                        last_duration_millis: given[k].last_duration_millis,
                    }),
                forall|k: int| i <= k < ranked@.len() ==> #[trigger] ranked@[k] == given[k],
            decreases ranked.len() - i,
        {
            ranked[i].cadence_rank = i;
            i = i + 1;
        }
        assert(target_views(ranked@) == target_views(given));
        RefreshScheduler { jobs: ranked, state: SchedulerState::Idle }
    }

    /// The job list, with what the scheduler recorded on it.
    pub fn job_list(&self) -> (jobs: &Vec<RefreshJob>)
        ensures
            jobs@ == self.jobs(),
            forall|k: int| 0 <= k < jobs@.len() ==> (#[trigger] jobs@[k]).cadence_rank == k,
    {
        proof {
            use_type_invariant(self);
        }
        &self.jobs
    }

    /// Where the scheduler stands.
    pub fn current_state(&self) -> (state: SchedulerState)
        ensures
            state == self.state(),
            state is Running ==> state->job < self.jobs().len(),
            state is Cooldown ==> state->next < self.jobs().len(),
    {
        proof {
            use_type_invariant(self);
        }
        self.state
    }

    /// Takes what the host reports and answers with what to do next. `None` means that the
    /// event did not fit the state and was ignored.
    pub fn step(&mut self, event: SchedulerEvent) -> (action: Option<SchedulerAction>)
        ensures
            (final(self).state(), action) == scheduler_next(
                old(self).state(),
                target_views(old(self).jobs()),
                event,
            ),
            final(self).jobs() == jobs_after(old(self).state(), old(self).jobs(), event),
            target_views(final(self).jobs()) == target_views(old(self).jobs()),
    {
        proof {
            use_type_invariant(&*self);
        }
        let count = self.jobs.len();
        match (self.state, event) {
            (SchedulerState::Idle, SchedulerEvent::Started { now }) => {
                let seconds = time_until_next_anchor(now);
                self.state = SchedulerState::Waiting;
                Some(SchedulerAction::Sleep { seconds })
            },
            (SchedulerState::Waiting, SchedulerEvent::Woke) => {
                if count == 0 {
                    Some(SchedulerAction::Sleep { seconds: CYCLE_PERIOD_SECS })
                } else {
                    self.state = SchedulerState::Running { job: 0 };
                    Some(SchedulerAction::Refresh { job: 0, view: self.jobs[0].target_view })
                }
            },
            (SchedulerState::Cooldown { next }, SchedulerEvent::Woke) => {
                self.state = SchedulerState::Running { job: next };
                Some(SchedulerAction::Refresh { job: next, view: self.jobs[next].target_view })
            },
            (
                SchedulerState::Running { job },
                SchedulerEvent::JobSucceeded { started_at, duration_millis },
            ) => {
                self.record(job, started_at, duration_millis);
                Some(self.rest(job))
            },
            (SchedulerState::Running { job }, SchedulerEvent::JobFailed) => Some(self.rest(job)),
            _ => None,
        }
    }

    /// Records a successful run on job `job`. The job list is taken out of the scheduler
    /// while it is changed, and the scheduler stands idle for that moment.
    fn record(&mut self, job: usize, started_at: Timestamp, duration_millis: u64)
        requires
            old(self).state() == (SchedulerState::Running { job }),
        ensures
            final(self).state() == old(self).state(),
            final(self).jobs() == jobs_after(
                old(self).state(),
                old(self).jobs(),
                SchedulerEvent::JobSucceeded { started_at, duration_millis },
            ),
            target_views(final(self).jobs()) == target_views(old(self).jobs()),
    {
        proof {
            use_type_invariant(&*self);
        }
        let mut jobs: Vec<RefreshJob> = Vec::new();
        self.state = SchedulerState::Idle;
        std::mem::swap(&mut self.jobs, &mut jobs);
        jobs[job].last_run_at = Some(started_at);
        jobs[job].last_duration_millis = Some(duration_millis);
        std::mem::swap(&mut self.jobs, &mut jobs);
        self.state = SchedulerState::Running { job };
        proof {
            assert(self.jobs@ == jobs_after(
                old(self).state(),
                old(self).jobs(),
                SchedulerEvent::JobSucceeded { started_at, duration_millis },
            ));
            assert(target_views(self.jobs@) == target_views(old(self).jobs()));
        }
    }

    fn rest(&mut self, job: usize) -> (action: SchedulerAction)
        requires
            job < old(self).jobs().len(),
        ensures
            (final(self).state(), Some(action)) == after_job(job, old(self).jobs().len()),
            final(self).jobs() == old(self).jobs(),
    {
        proof {
            use_type_invariant(&*self);
        }
        let count = self.jobs.len();
        if job + 1 < count {
            self.state = SchedulerState::Cooldown { next: job + 1 };
            SchedulerAction::Sleep { seconds: COOLDOWN_SECS }
        } else {
            self.state = SchedulerState::Waiting;
            SchedulerAction::Sleep { seconds: CYCLE_PERIOD_SECS }
        }
    }
}

/// The jobs that keep the chart views fresh: one per timeframe that has a view, the shorter
/// timeframe first.
pub fn chart_refresh_jobs() -> (jobs: Vec<RefreshJob>)
    ensures
        target_views(jobs@) == seq![
            AggregateView::Chart(Timeframe::Weekly),
            AggregateView::Chart(Timeframe::Monthly),
            AggregateView::Chart(Timeframe::Yearly),
        ],
        forall|k: int|
            0 <= k < jobs@.len() ==> (#[trigger] jobs@[k]).cadence_rank == k && jobs@[k].last_run_at
                is None && jobs@[k].last_duration_millis is None,
        jobs@[0].name@ == "weekly chart stats"@,
        jobs@[1].name@ == "monthly chart stats"@,
        jobs@[2].name@ == "yearly chart stats"@,
{
    let mut jobs: Vec<RefreshJob> = Vec::new();
    let mut weekly = RefreshJob::new(
        "weekly chart stats".to_owned(),
        AggregateView::Chart(Timeframe::Weekly),
    );
    weekly.cadence_rank = 0;
    let mut monthly = RefreshJob::new(
        "monthly chart stats".to_owned(),
        AggregateView::Chart(Timeframe::Monthly),
    );
    monthly.cadence_rank = 1;
    let mut yearly = RefreshJob::new(
        "yearly chart stats".to_owned(),
        AggregateView::Chart(Timeframe::Yearly),
    );
    yearly.cadence_rank = 2;
    jobs.push(weekly);
    jobs.push(monthly);
    jobs.push(yearly);
    assert(target_views(jobs@) == seq![
        AggregateView::Chart(Timeframe::Weekly),
        AggregateView::Chart(Timeframe::Monthly),
        AggregateView::Chart(Timeframe::Yearly),
    ]);
    jobs
}

} // verus!
