use job_engine::status::{is_job_terminated, job_status, JobCondition, JobResourceSnapshot, JobStatus};

fn snapshot(succeeded: Option<i32>, failed: Option<i32>, conditions: Option<Vec<JobCondition>>) -> JobResourceSnapshot {
    JobResourceSnapshot { succeeded, failed, conditions }
}

#[test]
fn succeeded_counter_classifies_success_regardless_of_other_fields() {
    let s = snapshot(
        Some(1),
        Some(3),
        Some(vec![JobCondition {
            condition_type: "Failed".to_string(),
            reason: Some("boom".to_string()),
            message: Some("m".to_string()),
        }]),
    );
    assert!(matches!(job_status(&Some(&s)), JobStatus::Success));
}

#[test]
fn failed_counter_without_matching_condition_gives_empty_failure() {
    let s = snapshot(
        None,
        Some(1),
        Some(vec![JobCondition {
            condition_type: "Complete".to_string(),
            reason: Some("ignored".to_string()),
            message: None,
        }]),
    );
    match job_status(&Some(&s)) {
        JobStatus::Failure { reason, message } => {
            assert_eq!(reason, "");
            assert_eq!(message, "");
        }
        _ => panic!("expected a failure classification"),
    }
}

#[test]
fn failed_counter_takes_first_failed_condition() {
    let s = snapshot(
        None,
        Some(2),
        Some(vec![
            JobCondition {
                condition_type: "Progressing".to_string(),
                reason: None,
                message: None,
            },
            JobCondition {
                condition_type: "Failed".to_string(),
                reason: Some("DeadlineExceeded".to_string()),
                message: Some("too slow".to_string()),
            },
            JobCondition {
                condition_type: "Failed".to_string(),
                reason: Some("Later".to_string()),
                message: None,
            },
        ]),
    );
    match job_status(&Some(&s)) {
        JobStatus::Failure { reason, message } => {
            assert_eq!(reason, "DeadlineExceeded");
            assert_eq!(message, "too slow");
        }
        _ => panic!("expected a failure classification"),
    }
}

#[test]
fn absent_snapshot_classifies_not_running() {
    assert!(matches!(job_status(&None), JobStatus::NotRunning));
}

#[test]
fn counters_not_positive_classify_running() {
    let s = snapshot(None, None, None);
    assert!(matches!(job_status(&Some(&s)), JobStatus::Running));
    let s0 = snapshot(Some(0), Some(0), None);
    assert!(matches!(job_status(&Some(&s0)), JobStatus::Running));
}

#[test]
fn terminated_exactly_on_success_or_failure() {
    assert!(!is_job_terminated(&None));
    let running = snapshot(None, None, None);
    assert!(!is_job_terminated(&Some(&running)));
    let success = snapshot(Some(1), None, None);
    assert!(is_job_terminated(&Some(&success)));
    let failure = snapshot(None, Some(1), None);
    assert!(is_job_terminated(&Some(&failure)));
}
