use job_engine::pod::{
    is_job_pod_container_terminated, job_pod_container_status_is_terminated, pod_poll_budget,
    select_active_pod, ContainerStateSnapshot, ContainerStatusSnapshot, PodPollStep, PodSelection,
    PodSelector, PodSnapshot, TrackedPodSet,
};

fn running_pod(name: &str) -> PodSnapshot {
    PodSnapshot {
        name: name.to_string(),
        phase: Some("Running".to_string()),
        container_statuses: Some(vec![ContainerStatusSnapshot {
            name: "main".to_string(),
            state: Some(ContainerStateSnapshot { running: true, terminated: false }),
        }]),
    }
}

fn pending_pod(name: &str) -> PodSnapshot {
    PodSnapshot {
        name: name.to_string(),
        phase: Some("Pending".to_string()),
        container_statuses: None,
    }
}

#[test]
fn empty_listing_is_retried() {
    let set = TrackedPodSet::new();
    assert!(matches!(select_active_pod(&vec![], &set), PodSelection::RetryNoPods));
}

#[test]
fn pending_pod_is_retried_whatever_its_case() {
    let set = TrackedPodSet::new();
    let pods = vec![running_pod("a"), pending_pod("b")];
    assert!(matches!(select_active_pod(&pods, &set), PodSelection::RetryPendingPod));
}

#[test]
fn ambiguous_active_count_is_retried() {
    let set = TrackedPodSet::new();
    let none_active = vec![PodSnapshot {
        name: "a".to_string(),
        phase: Some("Running".to_string()),
        container_statuses: Some(vec![ContainerStatusSnapshot {
            name: "main".to_string(),
            state: Some(ContainerStateSnapshot { running: false, terminated: true }),
        }]),
    }];
    assert!(matches!(select_active_pod(&none_active, &set), PodSelection::RetryNotExactlyOneActive));
    let two_active = vec![running_pod("a"), running_pod("b")];
    assert!(matches!(select_active_pod(&two_active, &set), PodSelection::RetryNotExactlyOneActive));
}

#[test]
fn already_processed_pod_is_retried_until_a_new_one_shows() {
    let mut set = TrackedPodSet::new();
    set.insert("a".to_string());
    let pods = vec![running_pod("a")];
    assert!(matches!(select_active_pod(&pods, &set), PodSelection::RetryAlreadyProcessed));
    let fresh = vec![running_pod("b")];
    match select_active_pod(&fresh, &set) {
        PodSelection::Selected { pod_name } => assert_eq!(pod_name, "b"),
        _ => panic!("expected the fresh pod to be selected"),
    }
}

#[test]
fn poll_budget_is_clamped_to_thirty_and_to_the_job_duration() {
    assert_eq!(pod_poll_budget(600), 30);
    assert_eq!(pod_poll_budget(3_600), 30);
    assert_eq!(pod_poll_budget(290), 29);
    assert_eq!(pod_poll_budget(25), 2);
    assert_eq!(pod_poll_budget(5), 0);
}

#[test]
fn pod_found_on_third_poll_after_three_attempts() {
    // selector `job-name=x`, nothing on the first two polls, one running,
    // unprocessed pod on the third: its name comes back on the third attempt.
    let set = TrackedPodSet::new();
    let mut selector = PodSelector::new("job-name=x".to_string(), 600);
    let empty: Vec<PodSnapshot> = vec![];
    assert!(matches!(selector.on_poll(Some(&empty), &set), PodPollStep::RetryAfterDelay));
    assert!(matches!(selector.on_poll(Some(&empty), &set), PodPollStep::RetryAfterDelay));
    let third = vec![running_pod("job-x-pod-1")];
    match selector.on_poll(Some(&third), &set) {
        PodPollStep::Found { pod_name } => assert_eq!(pod_name, "job-x-pod-1"),
        _ => panic!("expected the pod on the third poll"),
    }
    assert_eq!(selector.attempts_made(), 3);
}

#[test]
fn poll_exhaustion_names_the_selector() {
    // a twenty-five second budget grants one first attempt plus two retries
    let set = TrackedPodSet::new();
    let mut selector = PodSelector::new("job-name=y".to_string(), 25);
    assert!(matches!(selector.on_poll(None, &set), PodPollStep::RetryAfterDelay));
    let empty: Vec<PodSnapshot> = vec![];
    assert!(matches!(selector.on_poll(Some(&empty), &set), PodPollStep::RetryAfterDelay));
    match selector.on_poll(Some(&empty), &set) {
        PodPollStep::Exhausted { selector } => assert_eq!(selector, "job-name=y"),
        _ => panic!("expected exhaustion on the last attempt"),
    }
}

#[test]
fn container_termination_is_per_container_name() {
    let pod = PodSnapshot {
        name: "p".to_string(),
        phase: Some("Running".to_string()),
        container_statuses: Some(vec![
            ContainerStatusSnapshot {
                name: "sidecar".to_string(),
                state: Some(ContainerStateSnapshot { running: true, terminated: false }),
            },
            ContainerStatusSnapshot {
                name: "job-main".to_string(),
                state: Some(ContainerStateSnapshot { running: false, terminated: true }),
            },
        ]),
    };
    assert!(job_pod_container_status_is_terminated(&Some(&pod), "job-main"));
    assert!(!job_pod_container_status_is_terminated(&Some(&pod), "sidecar"));
    assert!(!job_pod_container_status_is_terminated(&Some(&pod), "absent"));
    assert!(!job_pod_container_status_is_terminated(&None, "job-main"));
    assert!(is_job_pod_container_terminated(&Some(&pod), "job-main"));
}
