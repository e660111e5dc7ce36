use job_engine::output::JobOutputVariable;
use job_engine::pod::{ContainerStateSnapshot, ContainerStatusSnapshot, PodPollStep, PodSnapshot};
use job_engine::runner::{
    create_action_plan, delete_action_plan, force_trigger_job_name, pause_action_plan, restart_job,
    ActionPlan, CronTrigger, CronTriggerState, JobRunError, JobRunner, JobSchedule, LifecycleType,
    OutputReport, RunnerState,
};
use job_engine::status::{JobCondition, JobResourceSnapshot};
use job_engine::teardown::{
    post_run_cleanup_actions, should_report_cleanup, teardown_cleanup_actions,
    teardown_uninstall_result, CleanupAction, ImageSource, TaskContext, UninstallOutcome,
};
use job_engine::io_models::ServiceAction;

fn running_pod(name: &str) -> PodSnapshot {
    PodSnapshot {
        name: name.to_string(),
        phase: Some("Running".to_string()),
        container_statuses: Some(vec![ContainerStatusSnapshot {
            name: "main".to_string(),
            state: Some(ContainerStateSnapshot { running: true, terminated: false }),
        }]),
    }
}

fn failed_snapshot(reason: &str) -> JobResourceSnapshot {
    JobResourceSnapshot {
        succeeded: None,
        failed: Some(1),
        conditions: Some(vec![JobCondition {
            condition_type: "Failed".to_string(),
            reason: Some(reason.to_string()),
            message: Some("backoff limit".to_string()),
        }]),
    }
}

fn success_snapshot() -> JobResourceSnapshot {
    JobResourceSnapshot { succeeded: Some(1), failed: None, conditions: None }
}

/// Drives one pod-acquire / wait / classify cycle up to job termination.
fn drive_one_cycle(runner: &mut JobRunner, pod: &str, terminal: &JobResourceSnapshot) {
    let listing = vec![running_pod(pod)];
    match runner.on_pod_listing(Some(&listing)) {
        PodPollStep::Found { pod_name } => assert_eq!(pod_name, pod),
        _ => panic!("expected the pod to be found"),
    }
    runner.on_container_wait_done(false);
    let report = runner.on_output_fetched(None);
    assert_eq!(report, OutputReport::FetchFailed);
    runner.on_termination_signaled(true);
    runner.on_job_resource_fetched(true);
    runner.on_job_terminated(&Some(terminal));
}

#[test]
fn one_restart_budget_gives_exactly_two_cycles_before_failing() {
    // first attempt fails, max restarts is one: the runner performs exactly
    // two full acquire/wait cycles, then surfaces the failure.
    let mut runner = JobRunner::new("job-x".to_string(), 1, 600);
    runner.on_chart_deleted(true);
    runner.on_chart_created(true);

    let failure = failed_snapshot("BackoffLimitExceeded");
    drive_one_cycle(&mut runner, "pod-1", &failure);
    // budget remains: back to pod acquisition for the second cycle
    assert!(matches!(runner.state, RunnerState::AwaitingPod));
    assert_eq!(runner.iterations, 1);

    drive_one_cycle(&mut runner, "pod-2", &failure);
    match &runner.state {
        RunnerState::Finished(Err(JobRunError::JobFailed { reason, message })) => {
            assert_eq!(reason, "BackoffLimitExceeded");
            assert_eq!(message, "backoff limit");
        }
        other => panic!("expected the failure to surface, got {other:?}"),
    }
    assert_eq!(runner.iterations, 1);
}

#[test]
fn successful_run_finishes_ok_and_reports_output() {
    let mut runner = JobRunner::new("job-ok".to_string(), 0, 600);
    assert!(matches!(runner.state, RunnerState::DeletingOldJob));
    runner.on_chart_deleted(true);
    assert!(matches!(runner.state, RunnerState::CreatingJob));
    runner.on_chart_created(true);
    let listing = vec![running_pod("pod-ok")];
    runner.on_pod_listing(Some(&listing));
    assert!(matches!(runner.state, RunnerState::AwaitingContainerTermination { .. }));
    runner.on_container_wait_done(false);
    assert!(matches!(runner.state, RunnerState::ExtractingOutput { .. }));
    let report = runner.on_output_fetched(Some(r#"{"foo": {"value": "bar"}}"#));
    match report {
        OutputReport::Configuration { message, payload } => {
            assert_eq!(message, "Job output succeeded. Environment variables will be synchronized.");
            assert_eq!(payload, "{\"FOO\":{\"value\":\"bar\",\"sensitive\":false,\"description\":\"\"}}");
        }
        other => panic!("expected a configuration report, got {other:?}"),
    }
    runner.on_termination_signaled(true);
    runner.on_job_resource_fetched(true);
    runner.on_job_terminated(&Some(&success_snapshot()));
    assert_eq!(runner.state, RunnerState::Finished(Ok(())));
}

#[test]
fn malformed_output_is_a_warning_and_the_run_goes_on() {
    let mut runner = JobRunner::new("job-w".to_string(), 0, 600);
    runner.on_chart_deleted(true);
    runner.on_chart_created(true);
    let listing = vec![running_pod("pod-w")];
    runner.on_pod_listing(Some(&listing));
    runner.on_container_wait_done(false);
    let report = runner.on_output_fetched(Some("not json"));
    assert!(matches!(report, OutputReport::ParseWarning { .. }));
    assert!(matches!(runner.state, RunnerState::SignalingTermination { .. }));
}

#[test]
fn forced_cancellation_deletes_lifecycle_jobs_then_cancels() {
    let mut runner = JobRunner::new("job-c".to_string(), 0, 600);
    runner.on_chart_deleted(true);
    runner.on_chart_created(true);
    let listing = vec![running_pod("pod-c")];
    runner.on_pod_listing(Some(&listing));
    runner.on_container_wait_done(true);
    assert!(matches!(runner.state, RunnerState::DeletingLifecycleJobs));
    runner.on_lifecycle_jobs_deleted();
    assert_eq!(runner.state, RunnerState::Finished(Err(JobRunError::Cancelled)));
}

#[test]
fn missing_job_resource_is_its_own_error() {
    let mut runner = JobRunner::new("job-m".to_string(), 0, 600);
    runner.on_chart_deleted(true);
    runner.on_chart_created(true);
    let listing = vec![running_pod("pod-m")];
    runner.on_pod_listing(Some(&listing));
    runner.on_container_wait_done(false);
    runner.on_output_fetched(None);
    runner.on_termination_signaled(true);
    runner.on_job_resource_fetched(false);
    match &runner.state {
        RunnerState::Finished(Err(JobRunError::JobResourceMissing { job_name })) => {
            assert_eq!(job_name, "job-m");
        }
        other => panic!("expected the missing-resource error, got {other:?}"),
    }
}

#[test]
fn failed_termination_signal_names_the_pod() {
    let mut runner = JobRunner::new("job-s".to_string(), 0, 600);
    runner.on_chart_deleted(true);
    runner.on_chart_created(true);
    let listing = vec![running_pod("pod-s")];
    runner.on_pod_listing(Some(&listing));
    runner.on_container_wait_done(false);
    runner.on_output_fetched(None);
    runner.on_termination_signaled(false);
    match &runner.state {
        RunnerState::Finished(Err(JobRunError::TerminationSignalFailed { pod_name })) => {
            assert_eq!(pod_name, "pod-s");
        }
        other => panic!("expected the signal error, got {other:?}"),
    }
}

#[test]
fn action_plans_follow_the_schedule() {
    let on_start = JobSchedule::OnStart { lifecycle_type: LifecycleType::Generic };
    let on_pause = JobSchedule::OnPause { lifecycle_type: LifecycleType::Generic };
    let on_delete = JobSchedule::OnDelete { lifecycle_type: LifecycleType::Generic };
    let cron = JobSchedule::Cron { schedule: "0 * * * *".to_string(), timezone: "UTC".to_string() };

    assert_eq!(create_action_plan(&on_start, false), ActionPlan::RunFlow);
    assert_eq!(create_action_plan(&cron, false), ActionPlan::RunFlow);
    assert_eq!(create_action_plan(&on_pause, false), ActionPlan::NoOp);
    assert_eq!(create_action_plan(&on_delete, false), ActionPlan::NoOp);
    // a forced trigger runs whatever the schedule
    assert_eq!(create_action_plan(&on_delete, true), ActionPlan::RunFlow);

    assert_eq!(pause_action_plan(&cron), ActionPlan::DeleteFlow);
    assert_eq!(pause_action_plan(&on_pause), ActionPlan::RunFlow);
    assert_eq!(pause_action_plan(&on_start), ActionPlan::NoOp);

    assert_eq!(delete_action_plan(&on_delete), ActionPlan::RunThenDeleteFlow);
    assert_eq!(delete_action_plan(&cron), ActionPlan::DeleteFlow);
    assert_eq!(delete_action_plan(&on_start), ActionPlan::DeleteFlow);

    assert!(on_start.is_job());
    assert!(!cron.is_job());
    assert!(cron.is_cron());
    assert_eq!(on_start.lifecycle_type(), Some(LifecycleType::Generic));
    assert_eq!(cron.lifecycle_type(), None);
}

#[test]
fn restart_is_not_supported() {
    assert_eq!(restart_job(), Err(JobRunError::RestartNotSupported));
}

#[test]
fn trigger_job_name_is_truncated_to_the_name_limit() {
    assert_eq!(force_trigger_job_name("short"), "short-force-trigger");
    let long = "a".repeat(80);
    let name = force_trigger_job_name(&long);
    assert_eq!(name.len(), 63);
    assert_eq!(name, format!("{}-force-trigger", "a".repeat(49)));
}

#[test]
fn forced_cron_trigger_success_removes_a_fresh_chart() {
    let mut trigger = CronTrigger::new("cron-x".to_string());
    assert_eq!(trigger.trigger_job_name, "cron-x-force-trigger");
    trigger.on_cron_checked(false);
    trigger.on_chart_created(true);
    trigger.on_cron_template_fetched(true);
    trigger.on_trigger_job_created(true);
    trigger.on_trigger_terminated(&Some(&success_snapshot()));
    // the cron resource was not previously installed: the chart goes
    assert!(matches!(trigger.state, CronTriggerState::RemovingChart));
    trigger.on_chart_removed(true);
    assert_eq!(trigger.state, CronTriggerState::Finished(Ok(())));
}

#[test]
fn forced_cron_trigger_timeout_counts_as_still_running() {
    let mut trigger = CronTrigger::new("cron-t".to_string());
    trigger.on_cron_checked(true);
    trigger.on_chart_created(true);
    trigger.on_cron_template_fetched(true);
    trigger.on_trigger_job_created(true);
    trigger.on_trigger_wait_timed_out();
    // pre-existing cron resource: no removal, and a timeout is success
    assert_eq!(trigger.state, CronTriggerState::Finished(Ok(())));
}

#[test]
fn forced_cron_trigger_failure_propagates() {
    let mut trigger = CronTrigger::new("cron-f".to_string());
    trigger.on_cron_checked(true);
    trigger.on_chart_created(true);
    trigger.on_cron_template_fetched(true);
    trigger.on_trigger_job_created(true);
    trigger.on_trigger_terminated(&Some(&failed_snapshot("Oops")));
    match &trigger.state {
        CronTriggerState::Finished(Err(JobRunError::JobFailed { reason, .. })) => {
            assert_eq!(reason, "Oops");
        }
        other => panic!("expected the failure, got {other:?}"),
    }
}

#[test]
fn deleting_an_absent_resource_is_success() {
    // teardown is idempotent: absence is no error
    assert_eq!(teardown_uninstall_result(&UninstallOutcome::AlreadyAbsent), Ok(()));
    assert_eq!(teardown_uninstall_result(&UninstallOutcome::Removed), Ok(()));
    assert_eq!(
        teardown_uninstall_result(&UninstallOutcome::Failed),
        Err(JobRunError::ChartFailed)
    );
}

#[test]
fn cleanup_actions_follow_the_image_source() {
    let registry = ImageSource::Registry { mirrored_image_tag: "tag-1".to_string() };
    let context = TaskContext { last_deployed_image: Some("img:old".to_string()) };
    let actions = post_run_cleanup_actions(&registry, context);
    assert_eq!(
        actions,
        vec![CleanupAction::DeleteCachedImage {
            mirrored_image_tag: "tag-1".to_string(),
            last_deployed_image: Some("img:old".to_string()),
            delete_mirror_repository: false,
        }]
    );
    let build = ImageSource::Build {
        shared_repository_name: "shared".to_string(),
        dedicated_repository_name: "dedicated".to_string(),
        delete_shared_registry: true,
    };
    let context = TaskContext { last_deployed_image: None };
    assert_eq!(post_run_cleanup_actions(&build, context), vec![]);

    let context = TaskContext { last_deployed_image: None };
    let actions = teardown_cleanup_actions(&build, context);
    assert_eq!(
        actions,
        vec![
            CleanupAction::DeleteSharedRepository { repository_name: "shared".to_string() },
            CleanupAction::DeleteDedicatedRepository { repository_name: "dedicated".to_string() },
        ]
    );
    let keep_shared = ImageSource::Build {
        shared_repository_name: "shared".to_string(),
        dedicated_repository_name: "dedicated".to_string(),
        delete_shared_registry: false,
    };
    let context = TaskContext { last_deployed_image: None };
    assert_eq!(
        teardown_cleanup_actions(&keep_shared, context),
        vec![CleanupAction::DeleteDedicatedRepository { repository_name: "dedicated".to_string() }]
    );

    assert!(!should_report_cleanup(&ServiceAction::Delete));
    assert!(should_report_cleanup(&ServiceAction::Create));
}

#[test]
fn pod_selection_exhaustion_fails_the_run_with_the_selector() {
    let mut runner = JobRunner::new("job-e".to_string(), 0, 25);
    runner.on_chart_deleted(true);
    runner.on_chart_created(true);
    let empty: Vec<PodSnapshot> = vec![];
    runner.on_pod_listing(Some(&empty));
    runner.on_pod_listing(None);
    runner.on_pod_listing(Some(&empty));
    match &runner.state {
        RunnerState::Finished(Err(JobRunError::PodSelectionExhausted { selector })) => {
            assert_eq!(selector, "job-name=job-e");
        }
        other => panic!("expected exhaustion, got {other:?}"),
    }
}

#[test]
fn stale_pod_is_skipped_on_the_retry_cycle() {
    // after a failure the same pod is still listed; the runner waits for a
    // fresh one instead of re-processing it
    let mut runner = JobRunner::new("job-r".to_string(), 1, 600);
    runner.on_chart_deleted(true);
    runner.on_chart_created(true);
    drive_one_cycle(&mut runner, "pod-old", &failed_snapshot("X"));
    assert!(matches!(runner.state, RunnerState::AwaitingPod));
    let stale = vec![running_pod("pod-old")];
    assert!(matches!(runner.on_pod_listing(Some(&stale)), PodPollStep::RetryAfterDelay));
    let fresh = vec![running_pod("pod-new")];
    match runner.on_pod_listing(Some(&fresh)) {
        PodPollStep::Found { pod_name } => assert_eq!(pod_name, "pod-new"),
        _ => panic!("expected the fresh pod"),
    }
}

#[test]
fn variable_defaults_hold_through_the_runner_report() {
    let mut runner = JobRunner::new("job-d".to_string(), 0, 600);
    runner.on_chart_deleted(true);
    runner.on_chart_created(true);
    let listing = vec![running_pod("pod-d")];
    runner.on_pod_listing(Some(&listing));
    runner.on_container_wait_done(false);
    let report = runner.on_output_fetched(Some(r#"{"a": {"value": 7}, "b": "skipped"}"#));
    match report {
        OutputReport::Configuration { payload, .. } => {
            assert_eq!(payload, "{\"A\":{\"value\":\"7\",\"sensitive\":false,\"description\":\"\"}}");
        }
        other => panic!("expected a configuration report, got {other:?}"),
    }
    let _ = JobOutputVariable::default();
}
