//! Classification of a remote job resource's reported state into a closed
//! status enum. A snapshot is the plain-value content of the remote resource:
//! its success/failure counters and its condition list. The classification is
//! derived fresh from a snapshot on every poll and is never cached.
use vstd::prelude::*;

verus! {

/// One entry of the remote job resource's condition list.
pub struct JobCondition {
    pub condition_type: String,
    pub reason: Option<String>,
    pub message: Option<String>,
}

/// The fields of a remote job resource that classification reads.
pub struct JobResourceSnapshot {
    pub succeeded: Option<i32>,
    pub failed: Option<i32>,
    pub conditions: Option<Vec<JobCondition>>,
}

/// Status of a job derived from a snapshot. `Success` and `Failure` are the
/// two terminal states; `NotRunning` means the resource does not exist yet;
/// `Running` is the only non-terminal state of an existing resource.
pub enum JobStatus {
    NotRunning,
    Running,
    Success,
    Failure { reason: String, message: String },
}

pub struct JobConditionView {
    pub condition_type: Seq<char>,
    pub reason: Option<Seq<char>>,
    pub message: Option<Seq<char>>,
}

pub struct JobResourceSnapshotView {
    pub succeeded: Option<i32>,
    pub failed: Option<i32>,
    pub conditions: Option<Seq<JobConditionView>>,
}

pub enum JobStatusView {
    NotRunning,
    Running,
    Success,
    Failure { reason: Seq<char>, message: Seq<char> },
}

impl View for JobCondition {
    type V = JobConditionView;

    open spec fn view(&self) -> JobConditionView {
        JobConditionView {
            condition_type: self.condition_type@,
            reason: match self.reason {
                Some(r) => Some(r@),
                None => None,
            },
            message: match self.message {
                Some(m) => Some(m@),
                None => None,
            },
        }
    }
}

impl View for JobResourceSnapshot {
    type V = JobResourceSnapshotView;

    open spec fn view(&self) -> JobResourceSnapshotView {
        JobResourceSnapshotView {
            succeeded: self.succeeded,
            failed: self.failed,
            conditions: match self.conditions {
                Some(c) => Some(c@.map_values(|cond: JobCondition| cond@)),
                None => None,
            },
        }
    }
}

impl View for JobStatus {
    type V = JobStatusView;

    open spec fn view(&self) -> JobStatusView {
        match self {
            JobStatus::NotRunning => JobStatusView::NotRunning,
            JobStatus::Running => JobStatusView::Running,
            JobStatus::Success => JobStatusView::Success,
            JobStatus::Failure { reason, message } => JobStatusView::Failure {
                reason: reason@,
                message: message@,
            },
        }
    }
}

/// The first condition of type `Failed`, if any.
pub open spec fn spec_first_failed_condition(conds: Seq<JobConditionView>) -> Option<JobConditionView>
    decreases conds.len(),
{
    if conds.len() == 0 {
        None
    } else if conds[0].condition_type == "Failed"@ {
        Some(conds[0])
    } else {
        spec_first_failed_condition(conds.skip(1))
    }
}

/// The failure status built from an optional `Failed` condition: reason and
/// message default to the empty string where the condition or a field of it
/// is absent.
pub open spec fn spec_failure_of(cond: Option<JobConditionView>) -> JobStatusView {
    match cond {
        Some(c) => JobStatusView::Failure {
            reason: match c.reason {
                Some(r) => r,
                None => Seq::empty(),
            },
            message: match c.message {
                Some(m) => m,
                None => Seq::empty(),
            },
        },
        None => JobStatusView::Failure { reason: Seq::empty(), message: Seq::empty() },
    }
}

pub open spec fn spec_conditions_of(snapshot: JobResourceSnapshotView) -> Seq<JobConditionView> {
    match snapshot.conditions {
        Some(c) => c,
        None => Seq::empty(),
    }
}

/// Classification of an optional snapshot: an absent resource is
/// `NotRunning`; a positive succeeded counter means `Success`; otherwise a
/// positive failed counter means `Failure` with reason and message taken from
/// the first condition of type `Failed`; otherwise the job is `Running`.
pub open spec fn spec_job_status(job: Option<JobResourceSnapshotView>) -> JobStatusView {
    match job {
        None => JobStatusView::NotRunning,
        Some(snapshot) => {
            if snapshot.succeeded matches Some(n) && n > 0 {
                JobStatusView::Success
            } else if snapshot.failed matches Some(n) && n > 0 {
                spec_failure_of(spec_first_failed_condition(spec_conditions_of(snapshot)))
            } else {
                JobStatusView::Running
            }
        },
    }
}

/// A status is terminal exactly when it is `Success` or `Failure`.
pub open spec fn spec_is_terminal(status: JobStatusView) -> bool {
    status is Success || status is Failure
}

pub open spec fn spec_opt_snapshot_view(job: Option<&JobResourceSnapshot>) -> Option<JobResourceSnapshotView> {
    match job {
        None => None,
        Some(s) => Some(s@),
    }
}

proof fn lemma_no_failed_condition(conds: Seq<JobConditionView>)
    requires
        forall|i: int| 0 <= i < conds.len() ==> conds[i].condition_type != "Failed"@,
    ensures
        spec_first_failed_condition(conds) is None,
    decreases conds.len(),
{
    if conds.len() > 0 {
        lemma_no_failed_condition(conds.skip(1));
    }
}

/// Classification laws: a snapshot with a positive succeeded counter
/// classifies `Success` whatever its other fields hold; one with a positive
/// failed counter, no positive succeeded counter and no condition of type
/// `Failed` classifies `Failure` with empty reason and message; an absent
/// snapshot classifies `NotRunning`.
pub proof fn lemma_job_status_classification(snapshot: JobResourceSnapshotView)
    ensures
        (snapshot.succeeded matches Some(n) && n > 0) ==> spec_job_status(Some(snapshot))
            == JobStatusView::Success,
        (!(snapshot.succeeded matches Some(n) && n > 0) && (snapshot.failed matches Some(n) && n
            > 0) && (forall|i: int|
            0 <= i < spec_conditions_of(snapshot).len()
                ==> spec_conditions_of(snapshot)[i].condition_type != "Failed"@))
            ==> spec_job_status(Some(snapshot)) == (JobStatusView::Failure {
            reason: Seq::<char>::empty(),
            message: Seq::<char>::empty(),
        }),
        spec_job_status(None) == JobStatusView::NotRunning,
{
    if !(snapshot.succeeded matches Some(n) && n > 0) && (snapshot.failed matches Some(n) && n > 0)
        && (forall|i: int|
        0 <= i < spec_conditions_of(snapshot).len() ==> spec_conditions_of(
            snapshot,
        )[i].condition_type != "Failed"@) {
        lemma_no_failed_condition(spec_conditions_of(snapshot));
    }
}

proof fn lemma_first_failed_skip(conds: Seq<JobConditionView>, i: int)
    requires
        0 <= i < conds.len(),
        conds[i].condition_type != "Failed"@,
    ensures
        spec_first_failed_condition(conds.skip(i)) == spec_first_failed_condition(conds.skip(i + 1)),
{
    assert(conds.skip(i)[0] == conds[i]);
    assert(conds.skip(i).skip(1) =~= conds.skip(i + 1));
}

fn first_failed_condition(conds: &Vec<JobCondition>) -> (r: Option<&JobCondition>)
    ensures
        match r {
            Some(c) => spec_first_failed_condition(conds@.map_values(|cond: JobCondition| cond@)) == Some(c@),
            None => spec_first_failed_condition(conds@.map_values(|cond: JobCondition| cond@)) is None,
        },
{
    let ghost mapped = conds@.map_values(|cond: JobCondition| cond@);
    let failed_literal = "Failed".to_owned();
    let mut i: usize = 0;
    assert(mapped.skip(0) =~= mapped);
    while i < conds.len()
        invariant
            0 <= i <= conds.len(),
            mapped == conds@.map_values(|cond: JobCondition| cond@),
            mapped.len() == conds@.len(),
            failed_literal@ == "Failed"@,
            spec_first_failed_condition(mapped) == spec_first_failed_condition(mapped.skip(i as int)),
        decreases conds.len() - i,
    {
        assert(mapped.skip(i as int)[0] == mapped[i as int]);
        if conds[i].condition_type == failed_literal {
            return Some(&conds[i]);
        }
        proof {
            lemma_first_failed_skip(mapped, i as int);
        }
        i = i + 1;
    }
    assert(mapped.skip(i as int) =~= Seq::empty());
    None
}

/// Derives the status of a job from an optional snapshot of its remote
/// resource, exactly as `spec_job_status` states.
pub fn job_status(job: &Option<&JobResourceSnapshot>) -> (r: JobStatus)
    ensures
        r@ == spec_job_status(spec_opt_snapshot_view(*job)),
{
    match job {
        None => JobStatus::NotRunning,
        Some(snapshot) => {
            match snapshot.succeeded {
                Some(n) if n > 0 => {
                    return JobStatus::Success;
                },
                _ => {},
            }
            match snapshot.failed {
                Some(n) if n > 0 => {},
                _ => {
                    return JobStatus::Running;
                },
            }
            let first_failed = match &snapshot.conditions {
                Some(conds) => first_failed_condition(conds),
                None => None,
            };
            proof {
                if snapshot.conditions is None {
                    assert(spec_conditions_of(snapshot@) =~= Seq::<JobConditionView>::empty());
                }
            }
            match first_failed {
                Some(cond) => {
                    let reason = match &cond.reason {
                        Some(r) => r.clone(),
                        None => String::new(),
                    };
                    let message = match &cond.message {
                        Some(m) => m.clone(),
                        None => String::new(),
                    };
                    JobStatus::Failure { reason, message }
                },
                None => JobStatus::Failure { reason: String::new(), message: String::new() },
            }
        },
    }
}

/// True exactly when the classification of the snapshot is terminal, that is
/// `Success` or `Failure`; used as the wait condition for job completion.
pub fn is_job_terminated(job: &Option<&JobResourceSnapshot>) -> (r: bool)
    ensures
        r == spec_is_terminal(spec_job_status(spec_opt_snapshot_view(*job))),
{
    match job_status(job) {
        JobStatus::NotRunning => false,
        JobStatus::Running => false,
        JobStatus::Success => true,
        JobStatus::Failure { .. } => true,
    }
}

} // verus!
