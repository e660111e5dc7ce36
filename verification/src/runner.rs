//! The job lifecycle state machine: create, trigger, monitor and tear down
//! one-shot and scheduled workloads. The machine owns every decision of the
//! control loop — which chart action comes next, which pod to track, when the
//! sidecar may be signalled, when a failure is retried and when it is
//! surfaced — while the caller performs the remote calls and hands their
//! outcomes back as plain events. Cancellation is polled by the caller and
//! reported with the container-wait outcome; a forced cancellation wins over
//! normal progress.
use vstd::prelude::*;

verus! {

use vstd::string::StringExecFns;
use vstd::string::StrSliceExecFns;
use crate::pod::{PodSelector, PodSnapshot, PodPollStep, PodSelectionView, TrackedPodSet};
use crate::pod::{spec_select_active_pod, spec_pod_views, spec_pod_poll_budget};
use crate::status::{JobResourceSnapshot, JobStatus, JobStatusView, job_status, spec_job_status};
use crate::status::{spec_is_terminal, spec_opt_snapshot_view};
use crate::output::{serialize_job_output, spec_output_document, spec_collect_entry_list};
use crate::output::{spec_upper_entries, spec_output_json};

/// The flavour of a lifecycle job, carried by its schedule.
#[derive(Clone, Copy, Debug, PartialEq, Eq)]
pub enum LifecycleType {
    Generic,
    Terraform,
    Cloudformation,
}

/// When a job runs: on environment start, on a recurring schedule, on pause,
/// or on delete. The last three of the one-shot variants make the job a
/// lifecycle job; a cron job is driven by the orchestrator's own scheduler.
pub enum JobSchedule {
    OnStart { lifecycle_type: LifecycleType },
    OnPause { lifecycle_type: LifecycleType },
    OnDelete { lifecycle_type: LifecycleType },
    Cron { schedule: String, timezone: String },
}

impl JobSchedule {
    /// A one-shot job: it runs to completion once per triggering action.
    pub fn is_job(&self) -> (r: bool)
        ensures
            r == !(self is Cron),
    {
        match self {
            JobSchedule::Cron { .. } => false,
            _ => true,
        }
    }

    pub fn is_cron(&self) -> (r: bool)
        ensures
            r == (self is Cron),
    {
        match self {
            JobSchedule::Cron { .. } => true,
            _ => false,
        }
    }

    pub fn lifecycle_type(&self) -> (r: Option<LifecycleType>)
        ensures
            *self matches JobSchedule::OnStart { lifecycle_type } ==> r == Some(lifecycle_type),
            *self matches JobSchedule::OnPause { lifecycle_type } ==> r == Some(lifecycle_type),
            *self matches JobSchedule::OnDelete { lifecycle_type } ==> r == Some(lifecycle_type),
            self is Cron ==> r is None,
    {
        match self {
            JobSchedule::OnStart { lifecycle_type } => Some(*lifecycle_type),
            JobSchedule::OnPause { lifecycle_type } => Some(*lifecycle_type),
            JobSchedule::OnDelete { lifecycle_type } => Some(*lifecycle_type),
            JobSchedule::Cron { .. } => None,
        }
    }
}

/// Which flow a lifecycle action runs for a given schedule.
#[derive(Clone, Copy, Debug, PartialEq, Eq)]
pub enum ActionPlan {
    /// Run the job (the full create, wait and classify flow).
    RunFlow,
    /// Remove the job's resources.
    DeleteFlow,
    /// Run the job, then remove its resources.
    RunThenDeleteFlow,
    /// Nothing to do for this schedule.
    NoOp,
}

/// The plan of a create action: the job runs where its schedule is on-start
/// or cron, and also — whatever the schedule — where a run is forced;
/// on-pause and on-delete schedules do nothing on create.
pub fn create_action_plan(schedule: &JobSchedule, should_force_trigger: bool) -> (r: ActionPlan)
    ensures
        r == (if should_force_trigger || schedule is OnStart || schedule is Cron {
            ActionPlan::RunFlow
        } else {
            ActionPlan::NoOp
        }),
{
    if should_force_trigger {
        return ActionPlan::RunFlow;
    }
    match schedule {
        JobSchedule::OnStart { .. } | JobSchedule::Cron { .. } => ActionPlan::RunFlow,
        JobSchedule::OnPause { .. } | JobSchedule::OnDelete { .. } => ActionPlan::NoOp,
    }
}

/// The plan of a pause action: a cron job's resources are removed, an
/// on-pause job runs, the other schedules do nothing.
pub fn pause_action_plan(schedule: &JobSchedule) -> (r: ActionPlan)
    ensures
        r == (match schedule {
            JobSchedule::Cron { .. } => ActionPlan::DeleteFlow,
            JobSchedule::OnPause { .. } => ActionPlan::RunFlow,
            _ => ActionPlan::NoOp,
        }),
{
    match schedule {
        JobSchedule::Cron { .. } => ActionPlan::DeleteFlow,
        JobSchedule::OnPause { .. } => ActionPlan::RunFlow,
        JobSchedule::OnStart { .. } | JobSchedule::OnDelete { .. } => ActionPlan::NoOp,
    }
}

/// The plan of a delete action: an on-delete job runs first and its resources
/// are removed afterwards; every other schedule goes straight to removal.
pub fn delete_action_plan(schedule: &JobSchedule) -> (r: ActionPlan)
    ensures
        r == (if schedule is OnDelete {
            ActionPlan::RunThenDeleteFlow
        } else {
            ActionPlan::DeleteFlow
        }),
{
    match schedule {
        JobSchedule::OnDelete { .. } => ActionPlan::RunThenDeleteFlow,
        _ => ActionPlan::DeleteFlow,
    }
}

/// The errors a run or teardown surfaces to the lifecycle dispatcher.
#[derive(Debug, Clone, PartialEq, Eq)]
pub enum JobRunError {
    /// The pod poll spent its whole budget; carries the label selector.
    PodSelectionExhausted { selector: String },
    /// A forced cancellation was requested and won over normal progress.
    Cancelled,
    /// The remote job reported failure and no restart budget remains.
    JobFailed { reason: String, message: String },
    /// The chart install or uninstall primitive failed.
    ChartFailed,
    /// The termination sentinel could not be written into the pod.
    TerminationSignalFailed { pod_name: String },
    /// The job resource is missing where a wait was attempted.
    JobResourceMissing { job_name: String },
    /// The wait for job termination itself failed; carries the pod.
    JobWaitFailed { pod_name: String },
    /// The cron resource is missing where its template was needed.
    CronJobMissing { job_name: String },
    /// The one-off job derived from the cron template was not accepted.
    CronJobCreationFailed,
    /// The trigger wait ended on a resource that does not exist.
    CronJobNotRunning,
    /// The trigger wait itself failed: the job could not be observed.
    TriggerWaitFailed,
    /// Restarting a job service is not supported.
    RestartNotSupported,
}

/// A restart action always errors: a job cannot be restarted.
pub fn restart_job() -> (r: Result<(), JobRunError>)
    ensures
        r == Result::<(), JobRunError>::Err(JobRunError::RestartNotSupported),
{
    Err(JobRunError::RestartNotSupported)
}

/// Where the runner stands; the caller reads the state to know which remote
/// call to perform next.
#[derive(Debug, PartialEq, Eq)]
pub enum RunnerState {
    /// Remove any pre-existing instance of the job: its spec is immutable,
    /// so recreation, not update, is required.
    DeletingOldJob,
    /// Install the chart that materialises the job.
    CreatingJob,
    /// Poll the pod listing for the active pod.
    AwaitingPod,
    /// Wait for the named pod's output container to terminate, racing the
    /// forced-cancellation poll; cancellation wins ties.
    AwaitingContainerTermination { pod_name: String },
    /// Forced cancellation: delete the lifecycle jobs, best effort.
    DeletingLifecycleJobs,
    /// Read the captured JSON output from the pod's shared volume.
    ExtractingOutput { pod_name: String },
    /// Write the sentinel file that lets the sidecar exit.
    SignalingTermination { pod_name: String },
    /// Check that the job resource exists before waiting on it.
    FetchingJobResource { pod_name: String },
    /// Wait for the job resource to reach a terminal status.
    AwaitingJobTermination { pod_name: String },
    /// The run is over, with its outcome.
    Finished(Result<(), JobRunError>),
}

/// What the output-extraction step asks the caller to report.
#[derive(Debug, PartialEq, Eq)]
pub enum OutputReport {
    /// The output parsed: forward this payload (keys upper-cased) with this
    /// message as the configuration event.
    Configuration { message: String, payload: String },
    /// The document was malformed: log this warning; the run goes on.
    ParseWarning { message: String },
    /// The output could not be read from the pod; the run goes on.
    FetchFailed,
}

/// The state machine of one one-shot job run.
pub struct JobRunner {
    /// The job resource's name in the orchestrator.
    pub job_name: String,
    /// The label selector that finds the job's pods.
    pub selector: String,
    /// How many restarts are granted after the first attempt.
    pub max_nb_restart: u32,
    /// Attempts already classified as failed.
    pub iterations: u32,
    /// The job's maximum duration in seconds; bounds each pod poll.
    pub max_duration_secs: u64,
    /// Where the run stands.
    pub state: RunnerState,
    /// The pods already fully processed in this run.
    pub processed: TrackedPodSet,
    /// The poll for the active pod, fresh per acquisition.
    pub pod_selector: PodSelector,
}

impl JobRunner {
    pub open spec fn wf(&self) -> bool {
        &&& self.iterations <= self.max_nb_restart
        &&& self.pod_selector.wf()
        &&& self.pod_selector.spec_selector() == self.selector@
        &&& self.pod_selector.spec_budget() == spec_pod_poll_budget(self.max_duration_secs)
        &&& (self.state is AwaitingPod ==> self.pod_selector.spec_attempts()
            <= self.pod_selector.spec_budget())
    }

    /// The pod names already processed in this run.
    pub open spec fn spec_processed(&self) -> Set<Seq<char>> {
        self.processed@
    }

    pub open spec fn spec_poll_attempts(&self) -> u64 {
        self.pod_selector.spec_attempts()
    }

    /// A fresh run: the old instance of the job is removed first.
    pub fn new(job_name: String, max_nb_restart: u32, max_duration_secs: u64) -> (r: JobRunner)
        ensures
            r.wf(),
            r.state is DeletingOldJob,
            r.iterations == 0,
            r.max_nb_restart == max_nb_restart,
            r.max_duration_secs == max_duration_secs,
            r.job_name@ == job_name@,
            r.selector@ == "job-name="@ + job_name@,
            r.spec_processed() == Set::<Seq<char>>::empty(),
    {
        let selector = "job-name=".to_owned().concat(job_name.as_str());
        let pod_selector = PodSelector::new(selector.clone(), max_duration_secs);
        JobRunner {
            job_name,
            selector,
            max_nb_restart,
            iterations: 0,
            max_duration_secs,
            state: RunnerState::DeletingOldJob,
            processed: TrackedPodSet::new(),
            pod_selector,
        }
    }

    /// The old instance was removed (or its removal failed): on success the
    /// job is created; a chart failure ends the run.
    pub fn on_chart_deleted(&mut self, ok: bool)
        requires
            old(self).wf(),
            old(self).state is DeletingOldJob,
        ensures
            final(self).wf(),
            runner_frame(old(self), final(self)),
            final(self).iterations == old(self).iterations,
            final(self).spec_processed() == old(self).spec_processed(),
            ok ==> final(self).state is CreatingJob,
            !ok ==> final(self).state == RunnerState::Finished(Err(JobRunError::ChartFailed)),
    {
        if ok {
            self.state = RunnerState::CreatingJob;
        } else {
            self.state = RunnerState::Finished(Err(JobRunError::ChartFailed));
        }
    }

    /// The job was created (or creation failed): on success the pod poll
    /// begins with a fresh budget.
    pub fn on_chart_created(&mut self, ok: bool)
        requires
            old(self).wf(),
            old(self).state is CreatingJob,
        ensures
            final(self).wf(),
            runner_frame(old(self), final(self)),
            final(self).iterations == old(self).iterations,
            final(self).spec_processed() == old(self).spec_processed(),
            ok ==> final(self).state is AwaitingPod && final(self).spec_poll_attempts() == 0,
            !ok ==> final(self).state == RunnerState::Finished(Err(JobRunError::ChartFailed)),
    {
        if ok {
            self.pod_selector = PodSelector::new(self.selector.clone(), self.max_duration_secs);
            self.state = RunnerState::AwaitingPod;
        } else {
            self.state = RunnerState::Finished(Err(JobRunError::ChartFailed));
        }
    }

    /// One pod listing arrived (or the listing call failed, handed in as
    /// `None`): a selected pod is recorded as processed and tracked through
    /// the container wait; a retry asks the caller to sleep the fixed delay
    /// and list again; an exhausted budget ends the run with the selector in
    /// the error.
    pub fn on_pod_listing(&mut self, pods: Option<&Vec<PodSnapshot>>) -> (r: PodPollStep)
        requires
            old(self).wf(),
            old(self).state is AwaitingPod,
        ensures
            final(self).wf(),
            runner_frame(old(self), final(self)),
            final(self).iterations == old(self).iterations,
            final(self).spec_poll_attempts() == old(self).spec_poll_attempts() + 1,
            ({
                let selection = match pods {
                    Some(list) => Some(
                        spec_select_active_pod(spec_pod_views(list@), old(self).spec_processed()),
                    ),
                    None => None,
                };
                let selected = selection matches Some(PodSelectionView::Selected { pod_name });
                &&& (selection matches Some(PodSelectionView::Selected { pod_name: selected_name })
                    ==> (r matches PodPollStep::Found { pod_name } && {
                    &&& pod_name@ == selected_name
                    &&& final(self).state matches RunnerState::AwaitingContainerTermination {
                        pod_name: tracked_name,
                    } && tracked_name@ == selected_name
                    &&& final(self).spec_processed() == old(self).spec_processed().insert(
                        selected_name,
                    )
                }))
                &&& (!selected ==> final(self).spec_processed() == old(self).spec_processed())
                &&& (!selected && final(self).spec_poll_attempts() <= spec_pod_poll_budget(
                    old(self).max_duration_secs,
                ) ==> r is RetryAfterDelay && final(self).state is AwaitingPod)
                &&& (!selected && final(self).spec_poll_attempts() > spec_pod_poll_budget(
                    old(self).max_duration_secs,
                ) ==> (r matches PodPollStep::Exhausted { selector } && selector@
                    == old(self).selector@ && final(self).state == RunnerState::Finished(
                    Err(JobRunError::PodSelectionExhausted { selector: selector }),
                )))
            }),
    {
        let step = self.pod_selector.on_poll(pods, &self.processed);
        match &step {
            PodPollStep::Found { pod_name } => {
                self.processed.insert(pod_name.clone());
                self.state = RunnerState::AwaitingContainerTermination { pod_name: pod_name.clone() };
            },
            PodPollStep::RetryAfterDelay => {},
            PodPollStep::Exhausted { selector } => {
                self.state = RunnerState::Finished(
                    Err(JobRunError::PodSelectionExhausted { selector: selector.clone() }),
                );
            },
        }
        step
    }

    /// The container wait ended — by the container terminating or by the
    /// forced-cancellation signal firing — and the caller re-polled the
    /// cancellation status. A forced cancellation moves to best-effort
    /// cleanup of the lifecycle jobs; otherwise the output is extracted.
    pub fn on_container_wait_done(&mut self, should_force_cancel: bool)
        requires
            old(self).wf(),
            old(self).state is AwaitingContainerTermination,
        ensures
            final(self).wf(),
            runner_frame(old(self), final(self)),
            final(self).iterations == old(self).iterations,
            final(self).spec_processed() == old(self).spec_processed(),
            should_force_cancel ==> final(self).state is DeletingLifecycleJobs,
            !should_force_cancel ==> (old(self).state matches
                RunnerState::AwaitingContainerTermination { pod_name } && final(self).state
                == RunnerState::ExtractingOutput { pod_name }),
    {
        if should_force_cancel {
            self.state = RunnerState::DeletingLifecycleJobs;
        } else {
            let pod_name = match &self.state {
                RunnerState::AwaitingContainerTermination { pod_name } => pod_name.clone(),
                _ => String::new(),
            };
            self.state = RunnerState::ExtractingOutput { pod_name };
        }
    }

    /// The lifecycle jobs were deleted (best effort; individual failures are
    /// only logged): the run ends as cancelled.
    pub fn on_lifecycle_jobs_deleted(&mut self)
        requires
            old(self).wf(),
            old(self).state is DeletingLifecycleJobs,
        ensures
            final(self).wf(),
            runner_frame(old(self), final(self)),
            final(self).iterations == old(self).iterations,
            final(self).spec_processed() == old(self).spec_processed(),
            final(self).state == RunnerState::Finished(Err(JobRunError::Cancelled)),
    {
        self.state = RunnerState::Finished(Err(JobRunError::Cancelled));
    }

    /// The output read ended: a fetched document is parsed — its variables,
    /// keys upper-cased, become the configuration payload — a malformed
    /// document becomes a warning, a failed read is only noted. None of the
    /// three outcomes fails the run: the job result is independent of output
    /// quality. The sidecar is signalled next in every case.
    pub fn on_output_fetched(&mut self, fetched: Option<&str>) -> (r: OutputReport)
        requires
            old(self).wf(),
            old(self).state is ExtractingOutput,
        ensures
            final(self).wf(),
            runner_frame(old(self), final(self)),
            final(self).iterations == old(self).iterations,
            final(self).spec_processed() == old(self).spec_processed(),
            (old(self).state matches RunnerState::ExtractingOutput { pod_name }
                && final(self).state == (RunnerState::SignalingTermination { pod_name })),
            (match fetched {
                Some(json) => match spec_output_document(json@) {
                    Some(doc) => r matches OutputReport::Configuration { message, payload } && ({
                        &&& message@ ==
                        "Job output succeeded. Environment variables will be synchronized."@
                        &&& payload@ == spec_output_json(
                            spec_upper_entries(spec_collect_entry_list(doc)),
                        )
                    }),
                    None => r is ParseWarning,
                },
                None => r is FetchFailed,
            }),
    {
        let pod_name = match &self.state {
            RunnerState::ExtractingOutput { pod_name } => pod_name.clone(),
            _ => String::new(),
        };
        self.state = RunnerState::SignalingTermination { pod_name };
        let json = match fetched {
            Some(json) => json,
            None => {
                return OutputReport::FetchFailed;
            },
        };
        match serialize_job_output(json) {
            Ok(output) => {
                let upper = output.uppercase_keys();
                let payload = upper.to_json_string();
                OutputReport::Configuration {
                    message: "Job output succeeded. Environment variables will be synchronized.".to_owned(),
                    payload,
                }
            },
            Err(err) => {
                let mut message = "Job output cannot be parsed: ".to_owned();
                message.append(err.message.as_str());
                OutputReport::ParseWarning { message }
            },
        }
    }

    /// The sentinel write ended: on success the job resource is checked for
    /// existence; a failed write ends the run, naming the pod.
    pub fn on_termination_signaled(&mut self, ok: bool)
        requires
            old(self).wf(),
            old(self).state is SignalingTermination,
        ensures
            final(self).wf(),
            runner_frame(old(self), final(self)),
            final(self).iterations == old(self).iterations,
            final(self).spec_processed() == old(self).spec_processed(),
            ok ==> (old(self).state matches RunnerState::SignalingTermination { pod_name }
                && final(self).state == RunnerState::FetchingJobResource { pod_name }),
            !ok ==> (old(self).state matches RunnerState::SignalingTermination { pod_name }
                && final(self).state == RunnerState::Finished(
                Err(JobRunError::TerminationSignalFailed { pod_name }),
            )),
    {
        let pod_name = match &self.state {
            RunnerState::SignalingTermination { pod_name } => pod_name.clone(),
            _ => String::new(),
        };
        if ok {
            self.state = RunnerState::FetchingJobResource { pod_name };
        } else {
            self.state = RunnerState::Finished(
                Err(JobRunError::TerminationSignalFailed { pod_name }),
            );
        }
    }

    /// The job-resource existence check ended: the wait for the terminal
    /// condition only starts on a resource that exists; an absent resource is
    /// an error of its own, distinct from "not yet terminal".
    pub fn on_job_resource_fetched(&mut self, ok: bool)
        requires
            old(self).wf(),
            old(self).state is FetchingJobResource,
        ensures
            final(self).wf(),
            runner_frame(old(self), final(self)),
            final(self).iterations == old(self).iterations,
            final(self).spec_processed() == old(self).spec_processed(),
            ok ==> (old(self).state matches RunnerState::FetchingJobResource { pod_name }
                && final(self).state == RunnerState::AwaitingJobTermination { pod_name }),
            !ok ==> final(self).state == RunnerState::Finished(
                Err(JobRunError::JobResourceMissing { job_name: old(self).job_name }),
            ),
    {
        let pod_name = match &self.state {
            RunnerState::FetchingJobResource { pod_name } => pod_name.clone(),
            _ => String::new(),
        };
        if ok {
            self.state = RunnerState::AwaitingJobTermination { pod_name };
        } else {
            self.state = RunnerState::Finished(
                Err(JobRunError::JobResourceMissing { job_name: self.job_name.clone() }),
            );
        }
    }

    /// The wait for job termination itself failed: the run ends, naming the
    /// pod whose job could not be found.
    pub fn on_job_wait_failed(&mut self)
        requires
            old(self).wf(),
            old(self).state is AwaitingJobTermination,
        ensures
            final(self).wf(),
            runner_frame(old(self), final(self)),
            final(self).iterations == old(self).iterations,
            final(self).spec_processed() == old(self).spec_processed(),
            (old(self).state matches RunnerState::AwaitingJobTermination { pod_name }
                && final(self).state == RunnerState::Finished(
                Err((JobRunError::JobWaitFailed { pod_name })),
            )),
    {
        let pod_name = match &self.state {
            RunnerState::AwaitingJobTermination { pod_name } => pod_name.clone(),
            _ => String::new(),
        };
        self.state = RunnerState::Finished(Err(JobRunError::JobWaitFailed { pod_name }));
    }

    /// The job reached a terminal status. Success ends the run; failure
    /// consumes one restart where budget remains — the orchestrator will
    /// spawn a fresh pod under the same job, found by the next poll because
    /// the processed set keeps the stale one out — and otherwise surfaces the
    /// failure with the remote reason and message verbatim.
    pub fn on_job_terminated(&mut self, snapshot: &Option<&JobResourceSnapshot>)
        requires
            old(self).wf(),
            old(self).state is AwaitingJobTermination,
            spec_is_terminal(spec_job_status(spec_opt_snapshot_view(*snapshot))),
        ensures
            final(self).wf(),
            runner_frame(old(self), final(self)),
            final(self).spec_processed() == old(self).spec_processed(),
            ({
                let status = spec_job_status(spec_opt_snapshot_view(*snapshot));
                &&& (status is Success ==> final(self).state == RunnerState::Finished(Ok(()))
                    && final(self).iterations == old(self).iterations)
                &&& (status matches JobStatusView::Failure { reason, message } ==> (
                if old(self).iterations == old(self).max_nb_restart {
                    final(self).state matches RunnerState::Finished(
                        Err(JobRunError::JobFailed { reason: r, message: m }),
                    ) && r@ == reason && m@ == message && final(self).iterations
                        == old(self).iterations
                } else {
                    &&& final(self).state is AwaitingPod
                    &&& final(self).spec_poll_attempts() == 0
                    &&& final(self).iterations == old(self).iterations + 1
                }))
            }),
    {
        match job_status(snapshot) {
            JobStatus::Success => {
                self.state = RunnerState::Finished(Ok(()));
            },
            JobStatus::Failure { reason, message } => {
                if self.iterations == self.max_nb_restart {
                    self.state = RunnerState::Finished(
                        Err(JobRunError::JobFailed { reason, message }),
                    );
                } else {
                    self.iterations = self.iterations + 1;
                    self.pod_selector = PodSelector::new(
                        self.selector.clone(),
                        self.max_duration_secs,
                    );
                    self.state = RunnerState::AwaitingPod;
                }
            },
            JobStatus::NotRunning | JobStatus::Running => {
                proof {
                    assert(false);
                }
            },
        }
    }
}

/// The fields of the runner that no event changes.
pub open spec fn runner_frame(before: &JobRunner, after: &JobRunner) -> bool {
    &&& after.job_name == before.job_name
    &&& after.selector == before.selector
    &&& after.max_nb_restart == before.max_nb_restart
    &&& after.max_duration_secs == before.max_duration_secs
}

/// The wait ceiling for a force-triggered run, in seconds: an hour plus a
/// margin. A wait that outlives it is treated as still running, not failed.
pub const CRON_TRIGGER_WAIT_SECS: u64 = 3_800;

/// How long the orchestrator keeps a finished one-off trigger job around
/// before cleaning it up by itself, in seconds.
pub const TRIGGER_JOB_TTL_SECONDS: i32 = 10;

/// The orchestrator's limit on a resource name's length.
pub const RESOURCE_NAME_MAX_CHARS: usize = 63;

/// The name of the one-off job synthesized from a cron job's template: the
/// cron job's name, truncated so that the whole name with its disambiguating
/// suffix stays within the resource name limit, then the suffix.
pub open spec fn spec_force_trigger_job_name(kube_name: Seq<char>) -> Seq<char> {
    let keep = if kube_name.len() < 49 {
        kube_name.len() as int
    } else {
        49
    };
    kube_name.take(keep) + "-force-trigger"@
}

/// Builds the one-off trigger job's name, exactly as
/// `spec_force_trigger_job_name` states.
pub fn force_trigger_job_name(kube_name: &str) -> (r: String)
    ensures
        r@ == spec_force_trigger_job_name(kube_name@),
{
    let len = kube_name.unicode_len();
    let keep = if len < 49 {
        len
    } else {
        49
    };
    proof {
        assert(kube_name@.subrange(0, keep as int) =~= kube_name@.take(keep as int));
    }
    kube_name.substring_char(0, keep).to_owned().concat("-force-trigger")
}

/// Where the force-trigger of a cron job stands.
#[derive(Debug, PartialEq, Eq)]
pub enum CronTriggerState {
    /// Ask whether the cron resource is already installed: a pre-existing
    /// one must survive the trigger, a freshly installed one is removed
    /// afterwards.
    CheckingInstalled,
    /// Install (or re-ensure) the cron chart.
    CreatingChart,
    /// Fetch the cron resource, whose template the one-off job is built from.
    FetchingCronTemplate,
    /// Submit the one-off job derived from the template, under the trigger
    /// name, with the short cleanup TTL.
    CreatingTriggerJob,
    /// Wait for the one-off job to reach a terminal status, up to the
    /// ceiling.
    AwaitingTriggerTermination,
    /// The cron resource was not previously installed: remove the chart.
    RemovingChart,
    /// The trigger is over, with its outcome.
    Finished(Result<(), JobRunError>),
}

/// The state machine of one forced, out-of-schedule run of a cron job.
pub struct CronTrigger {
    /// The cron resource's name.
    pub job_name: String,
    /// The name given to the one-off job.
    pub trigger_job_name: String,
    /// Whether the cron resource pre-existed this trigger; meaningful once
    /// the check has answered.
    pub cron_was_installed: bool,
    /// The outcome held while the freshly installed chart is removed.
    pub pending: Option<Result<(), JobRunError>>,
    /// Where the trigger stands.
    pub state: CronTriggerState,
}

impl CronTrigger {
    pub fn new(job_name: String) -> (r: CronTrigger)
        ensures
            r.state is CheckingInstalled,
            r.job_name@ == job_name@,
            r.trigger_job_name@ == spec_force_trigger_job_name(job_name@),
            r.cron_was_installed == false,
    {
        let trigger_job_name = force_trigger_job_name(job_name.as_str());
        CronTrigger {
            job_name,
            trigger_job_name,
            cron_was_installed: false,
            pending: None,
            state: CronTriggerState::CheckingInstalled,
        }
    }

    /// The installation check answered; the answer decides whether the chart
    /// is removed after the trigger.
    pub fn on_cron_checked(&mut self, already_installed: bool)
        requires
            old(self).state is CheckingInstalled,
        ensures
            trigger_frame(old(self), final(self)),
            final(self).cron_was_installed == already_installed,
            final(self).state is CreatingChart,
    {
        self.cron_was_installed = already_installed;
        self.state = CronTriggerState::CreatingChart;
    }

    /// The chart install ended.
    pub fn on_chart_created(&mut self, ok: bool)
        requires
            old(self).state is CreatingChart,
        ensures
            trigger_frame(old(self), final(self)),
            final(self).cron_was_installed == old(self).cron_was_installed,
            ok ==> final(self).state is FetchingCronTemplate,
            !ok ==> final(self).state == CronTriggerState::Finished(Err(JobRunError::ChartFailed)),
    {
        if ok {
            self.state = CronTriggerState::FetchingCronTemplate;
        } else {
            self.state = CronTriggerState::Finished(Err(JobRunError::ChartFailed));
        }
    }

    /// The cron resource was fetched (or was missing, which is an error of
    /// its own: the template cannot be had).
    pub fn on_cron_template_fetched(&mut self, ok: bool)
        requires
            old(self).state is FetchingCronTemplate,
        ensures
            trigger_frame(old(self), final(self)),
            final(self).cron_was_installed == old(self).cron_was_installed,
            ok ==> final(self).state is CreatingTriggerJob,
            !ok ==> final(self).state == CronTriggerState::Finished(
                Err((JobRunError::CronJobMissing { job_name: old(self).job_name })),
            ),
    {
        if ok {
            self.state = CronTriggerState::CreatingTriggerJob;
        } else {
            self.state = CronTriggerState::Finished(
                Err(JobRunError::CronJobMissing { job_name: self.job_name.clone() }),
            );
        }
    }

    /// The one-off job was submitted (or rejected).
    pub fn on_trigger_job_created(&mut self, ok: bool)
        requires
            old(self).state is CreatingTriggerJob,
        ensures
            trigger_frame(old(self), final(self)),
            final(self).cron_was_installed == old(self).cron_was_installed,
            ok ==> final(self).state is AwaitingTriggerTermination,
            !ok ==> final(self).state == CronTriggerState::Finished(
                Err(JobRunError::CronJobCreationFailed),
            ),
    {
        if ok {
            self.state = CronTriggerState::AwaitingTriggerTermination;
        } else {
            self.state = CronTriggerState::Finished(Err(JobRunError::CronJobCreationFailed));
        }
    }

    fn conclude(&mut self, outcome: Result<(), JobRunError>)
        requires
            old(self).state is AwaitingTriggerTermination,
        ensures
            trigger_frame(old(self), final(self)),
            final(self).cron_was_installed == old(self).cron_was_installed,
            old(self).cron_was_installed ==> final(self).state == CronTriggerState::Finished(
                outcome,
            ),
            !old(self).cron_was_installed ==> final(self).state is RemovingChart
                && final(self).pending == Some(outcome),
    {
        if self.cron_was_installed {
            self.state = CronTriggerState::Finished(outcome);
        } else {
            self.pending = Some(outcome);
            self.state = CronTriggerState::RemovingChart;
        }
    }

    /// The wait itself failed: the job could not be observed at all.
    pub fn on_trigger_wait_failed(&mut self)
        requires
            old(self).state is AwaitingTriggerTermination,
        ensures
            trigger_frame(old(self), final(self)),
            final(self).cron_was_installed == old(self).cron_was_installed,
            spec_trigger_concluded(
                old(self),
                final(self),
                Err(JobRunError::TriggerWaitFailed),
            ),
    {
        self.conclude(Err(JobRunError::TriggerWaitFailed));
    }

    /// The wait hit the ceiling: the job is treated as still running, which
    /// is informational, not a failure.
    pub fn on_trigger_wait_timed_out(&mut self)
        requires
            old(self).state is AwaitingTriggerTermination,
        ensures
            trigger_frame(old(self), final(self)),
            final(self).cron_was_installed == old(self).cron_was_installed,
            spec_trigger_concluded(old(self), final(self), Ok(())),
    {
        self.conclude(Ok(()));
    }

    /// The wait returned a snapshot: success and still-running both conclude
    /// well; an absent resource should not happen and errors; a failure is
    /// surfaced with the remote reason and message verbatim.
    pub fn on_trigger_terminated(&mut self, snapshot: &Option<&JobResourceSnapshot>)
        requires
            old(self).state is AwaitingTriggerTermination,
        ensures
            trigger_frame(old(self), final(self)),
            final(self).cron_was_installed == old(self).cron_was_installed,
            ({
                let status = spec_job_status(spec_opt_snapshot_view(*snapshot));
                &&& (status is Success ==> spec_trigger_concluded(old(self), final(self), Ok(())))
                &&& (status is Running ==> spec_trigger_concluded(old(self), final(self), Ok(())))
                &&& (status is NotRunning ==> spec_trigger_concluded(
                    old(self),
                    final(self),
                    Err(JobRunError::CronJobNotRunning),
                ))
                &&& (status matches JobStatusView::Failure { reason, message } ==> (
                exists|r: String, m: String|
                    {
                        &&& r@ == reason
                        &&& m@ == message
                        &&& #[trigger] spec_trigger_concluded(
                            old(self),
                            final(self),
                            Err((JobRunError::JobFailed { reason: r, message: m })),
                        )
                    }))
            }),
    {
        match job_status(snapshot) {
            JobStatus::Success => self.conclude(Ok(())),
            JobStatus::Running => self.conclude(Ok(())),
            JobStatus::NotRunning => self.conclude(Err(JobRunError::CronJobNotRunning)),
            JobStatus::Failure { reason, message } => {
                let ghost r_wit = reason;
                let ghost m_wit = message;
                self.conclude(Err(JobRunError::JobFailed { reason, message }));
                proof {
                    assert(spec_trigger_concluded(
                        old(self),
                        final(self),
                        Err((JobRunError::JobFailed { reason: r_wit, message: m_wit })),
                    ));
                }
            },
        }
    }

    /// The freshly installed chart was removed; a failure of the removal
    /// wins over the held outcome.
    pub fn on_chart_removed(&mut self, ok: bool)
        requires
            old(self).state is RemovingChart,
            old(self).pending is Some,
        ensures
            trigger_frame(old(self), final(self)),
            final(self).cron_was_installed == old(self).cron_was_installed,
            ok ==> final(self).state == CronTriggerState::Finished(old(self).pending->Some_0),
            !ok ==> final(self).state == CronTriggerState::Finished(
                Err(JobRunError::ChartFailed),
            ),
    {
        if ok {
            let pending = match self.pending.take() {
                Some(outcome) => outcome,
                None => Ok(()),
            };
            self.state = CronTriggerState::Finished(pending);
        } else {
            self.state = CronTriggerState::Finished(Err(JobRunError::ChartFailed));
        }
    }
}

/// The trigger ended with this outcome, or holds it while the chart is
/// removed, depending on whether the cron resource pre-existed.
pub open spec fn spec_trigger_concluded(
    before: &CronTrigger,
    after: &CronTrigger,
    outcome: Result<(), JobRunError>,
) -> bool {
    if before.cron_was_installed {
        after.state == CronTriggerState::Finished(outcome)
    } else {
        after.state is RemovingChart && after.pending == Some(outcome)
    }
}

/// The fields of the trigger that no event changes.
pub open spec fn trigger_frame(before: &CronTrigger, after: &CronTrigger) -> bool {
    &&& after.job_name == before.job_name
    &&& after.trigger_job_name == before.trigger_job_name
}

} // verus!
