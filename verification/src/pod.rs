//! Selection of the single active workload pod among those matching a label
//! selector, and the container-level termination predicate. The remote
//! listing itself is the caller's work: the caller polls the cluster at a
//! fixed interval and hands each listing to the `PodSelector` state machine
//! as plain snapshots; every decision taken on a listing is verified here.
use vstd::prelude::*;

verus! {

use crate::strutil::{spec_eq_ignore_ascii_case, eq_ignore_ascii_case, str_eq};

/// What a container status reports of its state: whether a running state or
/// a terminated state is present.
#[derive(Clone, Copy)]
pub struct ContainerStateSnapshot {
    pub running: bool,
    pub terminated: bool,
}

/// The fields of one container status that the library reads.
pub struct ContainerStatusSnapshot {
    pub name: String,
    pub state: Option<ContainerStateSnapshot>,
}

/// The fields of a listed pod that the library reads.
pub struct PodSnapshot {
    pub name: String,
    pub phase: Option<String>,
    pub container_statuses: Option<Vec<ContainerStatusSnapshot>>,
}

pub struct ContainerStatusSnapshotView {
    pub name: Seq<char>,
    pub state: Option<ContainerStateSnapshot>,
}

pub struct PodSnapshotView {
    pub name: Seq<char>,
    pub phase: Option<Seq<char>>,
    pub container_statuses: Option<Seq<ContainerStatusSnapshotView>>,
}

impl View for ContainerStatusSnapshot {
    type V = ContainerStatusSnapshotView;

    open spec fn view(&self) -> ContainerStatusSnapshotView {
        ContainerStatusSnapshotView {
            name: self.name@,
            state: self.state,
        }
    }
}

pub open spec fn spec_status_views(statuses: Seq<ContainerStatusSnapshot>) -> Seq<ContainerStatusSnapshotView> {
    statuses.map_values(|c: ContainerStatusSnapshot| c@)
}

impl View for PodSnapshot {
    type V = PodSnapshotView;

    open spec fn view(&self) -> PodSnapshotView {
        PodSnapshotView {
            name: self.name@,
            phase: match self.phase {
                Some(p) => Some(p@),
                None => None,
            },
            container_statuses: match self.container_statuses {
                Some(cs) => Some(spec_status_views(cs@)),
                None => None,
            },
        }
    }
}

/// A pod is pending when its reported phase compares equal to `pending`
/// regardless of case; such a pod has been scheduled but is not running yet.
pub open spec fn spec_pod_is_pending(pod: PodSnapshotView) -> bool {
    pod.phase matches Some(phase) && spec_eq_ignore_ascii_case(phase, "pending"@)
}

pub open spec fn spec_status_is_running(status: ContainerStatusSnapshotView) -> bool {
    status.state matches Some(state) && state.running
}

/// A pod is active when any of its container statuses reports a running
/// state.
pub open spec fn spec_pod_has_running_container(pod: PodSnapshotView) -> bool {
    pod.container_statuses matches Some(statuses) && exists|i: int|
        0 <= i < statuses.len() && spec_status_is_running(#[trigger] statuses[i])
}

/// The names of the active pods of a listing, in listing order.
pub open spec fn spec_active_pod_names(pods: Seq<PodSnapshotView>) -> Seq<Seq<char>> {
    pods.filter(|p: PodSnapshotView| spec_pod_has_running_container(p)).map_values(
        |p: PodSnapshotView| p.name,
    )
}

pub open spec fn spec_pod_views(pods: Seq<PodSnapshot>) -> Seq<PodSnapshotView> {
    pods.map_values(|p: PodSnapshot| p@)
}

/// A named container of the pod reports a terminated state. This is the
/// container-level terminal condition: it says that the workload container is
/// done, which is distinct from job-level completion.
pub open spec fn spec_status_is_terminated(status: ContainerStatusSnapshotView, container_name: Seq<char>) -> bool {
    &&& status.name == container_name
    &&& status.state matches Some(state) && state.terminated
}

pub open spec fn spec_container_terminated(pod: Option<PodSnapshotView>, container_name: Seq<char>) -> bool {
    pod matches Some(p) && p.container_statuses matches Some(statuses) && exists|i: int|
        0 <= i < statuses.len() && spec_status_is_terminated(#[trigger] statuses[i], container_name)
}

pub open spec fn spec_opt_pod_view(pod: Option<&PodSnapshot>) -> Option<PodSnapshotView> {
    match pod {
        None => None,
        Some(p) => Some(p@),
    }
}

/// True exactly when the container of the given name reports a terminated
/// state in the pod snapshot.
pub fn job_pod_container_status_is_terminated(job_pod: &Option<&PodSnapshot>, job_container_name: &str) -> (r:
    bool)
    ensures
        r == spec_container_terminated(spec_opt_pod_view(*job_pod), job_container_name@),
{
    let pod = match job_pod {
        None => {
            return false;
        },
        Some(p) => *p,
    };
    let statuses = match &pod.container_statuses {
        None => {
            return false;
        },
        Some(statuses) => statuses,
    };
    assert(spec_opt_pod_view(*job_pod) == Some(pod@));
    assert(pod@.container_statuses == Some(spec_status_views(statuses@)));
    let ghost mapped = spec_status_views(statuses@);
    let mut i: usize = 0;
    while i < statuses.len()
        invariant
            0 <= i <= statuses.len(),
            spec_opt_pod_view(*job_pod) == Some(pod@),
            pod@.container_statuses == Some(mapped),
            mapped == spec_status_views(statuses@),
            mapped.len() == statuses@.len(),
            forall|k: int| 0 <= k < i ==> !spec_status_is_terminated(#[trigger] mapped[k], job_container_name@),
        decreases statuses.len() - i,
    {
        if str_eq(statuses[i].name.as_str(), job_container_name) {
            match &statuses[i].state {
                Some(state) => {
                    if state.terminated {
                        proof {
                            assert(mapped[i as int] == statuses@[i as int]@);
                            assert(spec_status_is_terminated(mapped[i as int], job_container_name@));
                            let vs = pod@.container_statuses->Some_0;
                            assert(vs == mapped);
                            assert(exists|k: int|
                                0 <= k < vs.len() && spec_status_is_terminated(
                                    #[trigger] vs[k],
                                    job_container_name@,
                                ));
                            assert(spec_container_terminated(spec_opt_pod_view(*job_pod), job_container_name@));
                        }
                        return true;
                    }
                },
                None => {},
            }
        }
        i = i + 1;
    }
    false
}

/// Same condition under the name the callers poll with.
pub fn is_job_pod_container_terminated(job_pod: &Option<&PodSnapshot>, job_container_name: &str) -> (r: bool)
    ensures
        r == spec_container_terminated(spec_opt_pod_view(*job_pod), job_container_name@),
{
    job_pod_container_status_is_terminated(job_pod, job_container_name)
}

/// The set of pod names already fully processed within one run. Owned by one
/// run's control loop; grows monotonically during the run.
pub struct TrackedPodSet {
    names: Vec<String>,
}

impl TrackedPodSet {
    pub closed spec fn view(&self) -> Set<Seq<char>> {
        self.names@.map_values(|s: String| s@).to_set()
    }

    pub fn new() -> (r: TrackedPodSet)
        ensures
            r@ == Set::<Seq<char>>::empty(),
    {
        let r = TrackedPodSet { names: Vec::new() };
        proof {
            assert(r.names@.map_values(|s: String| s@) =~= Seq::<Seq<char>>::empty());
            assert(r@ =~= Set::<Seq<char>>::empty());
        }
        r
    }

    pub fn contains(&self, name: &str) -> (r: bool)
        ensures
            r == self@.contains(name@),
    {
        let ghost mapped = self.names@.map_values(|s: String| s@);
        let mut i: usize = 0;
        while i < self.names.len()
            invariant
                0 <= i <= self.names.len(),
                mapped == self.names@.map_values(|s: String| s@),
                mapped.len() == self.names@.len(),
                forall|k: int| 0 <= k < i ==> mapped[k] != name@,
            decreases self.names.len() - i,
        {
            if str_eq(self.names[i].as_str(), name) {
                proof {
                    assert(mapped[i as int] == self.names@[i as int]@);
                    assert(mapped.contains(name@));
                }
                return true;
            }
            i = i + 1;
        }
        proof {
            if self@.contains(name@) {
                let k = choose|k: int| 0 <= k < mapped.len() && mapped[k] == name@;
                assert(false);
            }
        }
        false
    }

    /// Records a pod as processed; the set only ever grows.
    pub fn insert(&mut self, name: String)
        ensures
            final(self)@ == old(self)@.insert(name@),
    {
        let ghost old_names = self.names@;
        self.names.push(name);
        proof {
            let old_mapped = old_names.map_values(|s: String| s@);
            let new_mapped = self.names@.map_values(|s: String| s@);
            assert(new_mapped =~= old_mapped.push(name@));
            assert forall|x: Seq<char>| new_mapped.to_set().contains(x) <==> old_mapped.to_set().insert(
                name@,
            ).contains(x) by {
                if new_mapped.to_set().contains(x) {
                    let k = choose|k: int| 0 <= k < new_mapped.len() && new_mapped[k] == x;
                    if k < old_mapped.len() {
                        assert(old_mapped[k] == x);
                    }
                }
                if old_mapped.to_set().insert(name@).contains(x) {
                    if x == name@ {
                        assert(new_mapped[new_mapped.len() - 1] == x);
                    } else {
                        let k = choose|k: int| 0 <= k < old_mapped.len() && old_mapped[k] == x;
                        assert(new_mapped[k] == x);
                    }
                }
            }
            assert(new_mapped.to_set() =~= old_mapped.to_set().insert(name@));
        }
    }
}

/// What one evaluation of a pod listing decides: either exactly one active,
/// not-yet-processed pod was found, or the listing is retried for the stated
/// reason.
pub enum PodSelection {
    /// Exactly one active pod, not processed before: track this one.
    Selected { pod_name: String },
    /// Nothing matched the selector yet: scheduling latency, retry.
    RetryNoPods,
    /// A matching pod is still pending, e.g. while the cluster scales: retry.
    RetryPendingPod,
    /// Zero or more than one active pod: a restart transition, retry.
    RetryNotExactlyOneActive,
    /// The single active pod was already processed; a new one is expected.
    RetryAlreadyProcessed,
}

pub enum PodSelectionView {
    Selected { pod_name: Seq<char> },
    RetryNoPods,
    RetryPendingPod,
    RetryNotExactlyOneActive,
    RetryAlreadyProcessed,
}

impl View for PodSelection {
    type V = PodSelectionView;

    open spec fn view(&self) -> PodSelectionView {
        match self {
            PodSelection::Selected { pod_name } => PodSelectionView::Selected { pod_name: pod_name@ },
            PodSelection::RetryNoPods => PodSelectionView::RetryNoPods,
            PodSelection::RetryPendingPod => PodSelectionView::RetryPendingPod,
            PodSelection::RetryNotExactlyOneActive => PodSelectionView::RetryNotExactlyOneActive,
            PodSelection::RetryAlreadyProcessed => PodSelectionView::RetryAlreadyProcessed,
        }
    }
}

/// What one evaluation of a listing decides, step by step: an empty listing
/// is retried; a listing with a pending pod is retried; a listing whose
/// active-pod count is not exactly one is retried; a single active pod that
/// was already processed is retried; otherwise that pod is selected.
pub open spec fn spec_select_active_pod(pods: Seq<PodSnapshotView>, processed: Set<Seq<char>>) -> PodSelectionView {
    let active = spec_active_pod_names(pods);
    if pods.len() == 0 {
        PodSelectionView::RetryNoPods
    } else if exists|i: int| 0 <= i < pods.len() && spec_pod_is_pending(#[trigger] pods[i]) {
        PodSelectionView::RetryPendingPod
    } else if active.len() != 1 {
        PodSelectionView::RetryNotExactlyOneActive
    } else if processed.contains(active[0]) {
        PodSelectionView::RetryAlreadyProcessed
    } else {
        PodSelectionView::Selected { pod_name: active[0] }
    }
}

fn find_pending_pod(pods: &Vec<PodSnapshot>) -> (r: bool)
    ensures
        r == exists|i: int| 0 <= i < spec_pod_views(pods@).len() && spec_pod_is_pending(spec_pod_views(pods@)[i]),
{
    let ghost mapped = spec_pod_views(pods@);
    let mut i: usize = 0;
    while i < pods.len()
        invariant
            0 <= i <= pods.len(),
            mapped == spec_pod_views(pods@),
            mapped.len() == pods@.len(),
            forall|k: int| 0 <= k < i ==> !spec_pod_is_pending(mapped[k]),
        decreases pods.len() - i,
    {
        match &pods[i].phase {
            Some(phase) => {
                if eq_ignore_ascii_case(phase.as_str(), "pending") {
                    proof {
                        assert(spec_pod_is_pending(mapped[i as int]));
                    }
                    return true;
                }
            },
            None => {},
        }
        i = i + 1;
    }
    false
}

fn pod_has_running_container(pod: &PodSnapshot) -> (r: bool)
    ensures
        r == spec_pod_has_running_container(pod@),
{
    let statuses = match &pod.container_statuses {
        None => {
            return false;
        },
        Some(statuses) => statuses,
    };
    assert(pod.container_statuses == Some(*statuses));
    assert(pod@.container_statuses == Some(spec_status_views(statuses@)));
    let ghost mapped = spec_status_views(statuses@);
    let mut i: usize = 0;
    while i < statuses.len()
        invariant
            0 <= i <= statuses.len(),
            pod@.container_statuses == Some(mapped),
            mapped == spec_status_views(statuses@),
            mapped.len() == statuses@.len(),
            forall|k: int| 0 <= k < i ==> !spec_status_is_running(#[trigger] mapped[k]),
        decreases statuses.len() - i,
    {
        match &statuses[i].state {
            Some(state) => {
                if state.running {
                    proof {
                        assert(mapped[i as int] == statuses@[i as int]@);
                        assert(spec_status_is_running(mapped[i as int]));
                        let ghost vs = pod@.container_statuses->Some_0;
                        assert(vs == mapped);
                        assert(exists|k: int| 0 <= k < vs.len() && spec_status_is_running(#[trigger] vs[k]));
                        assert(spec_pod_has_running_container(pod@));
                    }
                    return true;
                }
            },
            None => {},
        }
        i = i + 1;
    }
    false
}

/// The names of the active pods of a listing, in listing order, as
/// `spec_active_pod_names` states.
fn active_pod_names(pods: &Vec<PodSnapshot>) -> (r: Vec<String>)
    ensures
        r@.map_values(|s: String| s@) == spec_active_pod_names(spec_pod_views(pods@)),
{
    let ghost mapped = spec_pod_views(pods@);
    let mut result: Vec<String> = Vec::new();
    let mut i: usize = 0;
    proof {
        assert(result@.map_values(|s: String| s@) =~= mapped.take(0int).filter(
            |p: PodSnapshotView| spec_pod_has_running_container(p),
        ).map_values(|p: PodSnapshotView| p.name));
    }
    while i < pods.len()
        invariant
            0 <= i <= pods.len(),
            mapped == spec_pod_views(pods@),
            mapped.len() == pods@.len(),
            result@.map_values(|s: String| s@) == mapped.take(i as int).filter(
                |p: PodSnapshotView| spec_pod_has_running_container(p),
            ).map_values(|p: PodSnapshotView| p.name),
        decreases pods.len() - i,
    {
        let ghost prefix = mapped.take(i as int);
        proof {
            assert(mapped.take(i + 1int).drop_last() =~= prefix);
            assert(mapped.take(i + 1int).last() == mapped[i as int]);
            reveal_with_fuel(Seq::filter, 2);
        }
        if pod_has_running_container(&pods[i]) {
            result.push(pods[i].name.clone());
        }
        proof {
            assert(prefix.push(mapped[i as int]).drop_last() =~= prefix);
            assert(prefix.push(mapped[i as int]).last() == mapped[i as int]);
            assert(mapped.take(i + 1int) =~= prefix.push(mapped[i as int]));
            if spec_pod_has_running_container(mapped[i as int]) {
                assert(result@.map_values(|s: String| s@) =~= prefix.filter(
                    |p: PodSnapshotView| spec_pod_has_running_container(p),
                ).map_values(|p: PodSnapshotView| p.name).push(mapped[i as int].name));
                assert(prefix.push(mapped[i as int]).filter(
                    |p: PodSnapshotView| spec_pod_has_running_container(p),
                ).map_values(|p: PodSnapshotView| p.name) =~= prefix.filter(
                    |p: PodSnapshotView| spec_pod_has_running_container(p),
                ).map_values(|p: PodSnapshotView| p.name).push(mapped[i as int].name));
            }
        }
        i = i + 1;
    }
    proof {
        assert(mapped.take(pods@.len() as int) =~= mapped);
    }
    result
}

/// Evaluates one listing of pods against the set already processed. The
/// result is `Selected` exactly when the listing is non-empty, reports no
/// pending pod, holds exactly one active pod, and that pod's name is not in
/// the processed set; otherwise the matching retry reason is returned.
pub fn select_active_pod(pods: &Vec<PodSnapshot>, already_processed: &TrackedPodSet) -> (r: PodSelection)
    ensures
        r@ == spec_select_active_pod(spec_pod_views(pods@), already_processed@),
{
    if pods.len() == 0 {
        return PodSelection::RetryNoPods;
    }
    if find_pending_pod(pods) {
        return PodSelection::RetryPendingPod;
    }
    let mut active = active_pod_names(pods);
    if active.len() != 1 {
        return PodSelection::RetryNotExactlyOneActive;
    }
    let pod_name = active.remove(0);
    if already_processed.contains(pod_name.as_str()) {
        return PodSelection::RetryAlreadyProcessed;
    }
    PodSelection::Selected { pod_name }
}

/// Fixed delay between two pod-listing attempts, in milliseconds.
pub const POD_POLL_DELAY_MILLIS: u64 = 10_000;

/// The number of retries granted to the pod poll after its first attempt:
/// one per ten seconds of the job's maximum duration, capped at thirty. The
/// cap bounds the wait at five minutes; the quotient clamps it to the job's
/// own budget where that is shorter.
pub open spec fn spec_pod_poll_budget(job_max_duration_secs: u64) -> u64 {
    if job_max_duration_secs / 10 < 30 {
        (job_max_duration_secs / 10) as u64
    } else {
        30u64
    }
}

/// Computes the retry budget of the pod poll from the job's maximum
/// duration in seconds, exactly as `spec_pod_poll_budget` states.
pub fn pod_poll_budget(job_max_duration_secs: u64) -> (r: u64)
    ensures
        r == spec_pod_poll_budget(job_max_duration_secs),
{
    let quotient = job_max_duration_secs / 10;
    if quotient < 30 {
        quotient
    } else {
        30
    }
}

/// What the poll loop does after one listing was evaluated: stop with the
/// selected pod, sleep for the fixed delay and list again, or give up with
/// the selector in hand for the error report.
pub enum PodPollStep {
    Found { pod_name: String },
    RetryAfterDelay,
    Exhausted { selector: String },
}

/// The bounded poll for the active pod: the caller lists pods by the label
/// selector, hands each listing (or listing failure) to `on_poll`, and obeys
/// the returned step. One first attempt plus `budget` retries are allowed.
pub struct PodSelector {
    selector: String,
    budget: u64,
    attempts: u64,
}

impl PodSelector {
    pub closed spec fn spec_selector(&self) -> Seq<char> {
        self.selector@
    }

    pub closed spec fn spec_budget(&self) -> u64 {
        self.budget
    }

    pub closed spec fn spec_attempts(&self) -> u64 {
        self.attempts
    }

    pub closed spec fn wf(&self) -> bool {
        self.budget <= 30 && self.attempts <= self.budget + 1
    }

    pub fn new(selector: String, job_max_duration_secs: u64) -> (r: PodSelector)
        ensures
            r.wf(),
            r.spec_selector() == selector@,
            r.spec_budget() == spec_pod_poll_budget(job_max_duration_secs),
            r.spec_attempts() == 0,
    {
        PodSelector { selector, budget: pod_poll_budget(job_max_duration_secs), attempts: 0 }
    }

    /// The number of listing attempts evaluated so far.
    pub fn attempts_made(&self) -> (r: u64)
        ensures
            r == self.spec_attempts(),
    {
        self.attempts
    }

    /// Evaluates one poll: `pods` is the listing, or `None` where the listing
    /// call itself failed. A selected pod ends the poll; any retry reason
    /// consumes one attempt, and once the first attempt and all budgeted
    /// retries are spent the poll is exhausted.
    pub fn on_poll(&mut self, pods: Option<&Vec<PodSnapshot>>, already_processed: &TrackedPodSet) -> (r:
        PodPollStep)
        requires
            old(self).wf(),
            old(self).spec_attempts() <= old(self).spec_budget(),
        ensures
            final(self).wf(),
            final(self).spec_selector() == old(self).spec_selector(),
            final(self).spec_budget() == old(self).spec_budget(),
            final(self).spec_attempts() == old(self).spec_attempts() + 1,
            ({
                let selected = match pods {
                    Some(list) => spec_select_active_pod(
                        spec_pod_views(list@),
                        already_processed@,
                    ) matches PodSelectionView::Selected { pod_name },
                    None => false,
                };
                &&& (selected ==> (r matches PodPollStep::Found { pod_name } && (
                spec_select_active_pod(
                    spec_pod_views(pods->Some_0@),
                    already_processed@,
                ) matches PodSelectionView::Selected { pod_name: selected_name } && pod_name@
                    == selected_name)))
                &&& (!selected && final(self).spec_attempts() <= final(self).spec_budget() ==> r is RetryAfterDelay)
                &&& (!selected && final(self).spec_attempts() > final(self).spec_budget() ==> (r matches
                PodPollStep::Exhausted { selector } && selector@ == final(self).spec_selector()))
            }),
    {
        self.attempts = self.attempts + 1;
        match pods {
            Some(list) => {
                match select_active_pod(list, already_processed) {
                    PodSelection::Selected { pod_name } => {
                        return PodPollStep::Found { pod_name };
                    },
                    _ => {},
                }
            },
            None => {},
        }
        if self.attempts <= self.budget {
            PodPollStep::RetryAfterDelay
        } else {
            PodPollStep::Exhausted { selector: self.selector.clone() }
        }
    }
}

} // verus!
