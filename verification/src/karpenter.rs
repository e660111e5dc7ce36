//! The decisions around the Karpenter autoscaler's lifecycle: whether it is
//! installed and paused, when its pods are back, how long draining its nodes
//! may take, and which node groups a cluster action may manage while
//! Karpenter owns scaling. The cluster reads behind these decisions are the
//! caller's; the decisions themselves are verified here.
use vstd::prelude::*;

verus! {

/// How many pods the Karpenter deployment runs when it is up.
pub const KARPENTER_EXPECTED_POD_COUNT: u32 = 2;

/// The floor on the node-drain timeout, in seconds.
pub const KARPENTER_MIN_NODES_DRAIN_TIMEOUT_SECS: i64 = 60;

/// A cluster node group as the scaling decisions see it.
#[derive(Debug, Clone, PartialEq, Eq)]
pub struct NodeGroups {
    pub name: String,
    pub min_nodes: i32,
    pub max_nodes: i32,
    pub instance_type: String,
}

/// A lifecycle action on a cluster; the payload of an update or resume
/// carries the requested version, where one was given.
pub enum KubernetesClusterAction {
    Bootstrap,
    Update(Option<String>),
    Upgrade(Option<String>),
    Pause,
    Resume(Option<String>),
    Delete,
    CleanKarpenterMigration,
}

/// The Karpenter autoscaler's decision surface.
pub struct Karpenter {}

impl Karpenter {
    /// Karpenter is paused exactly when its deployment is installed and no
    /// node it spawned remains; without the deployment there is nothing to
    /// call paused.
    pub fn is_paused(deployment_installed: bool, spawned_node_count: usize) -> (r: bool)
        ensures
            r == (deployment_installed && spawned_node_count == 0),
    {
        if !deployment_installed {
            return false;
        }
        spawned_node_count == 0
    }

    /// The deployment is installed exactly when the labelled listing found
    /// anything.
    pub fn deployment_is_installed(matching_deployment_count: usize) -> (r: bool)
        ensures
            r == (matching_deployment_count != 0),
    {
        matching_deployment_count != 0
    }

    /// After a restart, Karpenter is ready exactly when all its expected pods
    /// report running; the caller polls the pod listing until this holds.
    pub fn pods_are_ready(running_pod_count: usize) -> (r: bool)
        ensures
            r == (running_pod_count == KARPENTER_EXPECTED_POD_COUNT as usize),
    {
        running_pod_count == KARPENTER_EXPECTED_POD_COUNT as usize
    }
}

pub open spec fn spec_max_grace_period(periods: Seq<i64>) -> Option<i64>
    decreases periods.len(),
{
    if periods.len() == 0 {
        None
    } else {
        match spec_max_grace_period(periods.drop_last()) {
            None => Some(periods.last()),
            Some(m) => if periods.last() > m {
                Some(periods.last())
            } else {
                Some(m)
            },
        }
    }
}

/// The drain timeout granted before Karpenter's nodes are deleted: the
/// longest termination grace period any pod asks for, never below the floor,
/// and capped by the configured maximum where one is set.
pub open spec fn spec_nodes_drain_timeout(periods: Seq<i64>, max_drain_secs: Option<i64>) -> i64 {
    let base = match spec_max_grace_period(periods) {
        None => KARPENTER_MIN_NODES_DRAIN_TIMEOUT_SECS,
        Some(m) => if m > KARPENTER_MIN_NODES_DRAIN_TIMEOUT_SECS {
            m
        } else {
            KARPENTER_MIN_NODES_DRAIN_TIMEOUT_SECS
        },
    };
    match max_drain_secs {
        None => base,
        Some(cap) => if base < cap {
            base
        } else {
            cap
        },
    }
}

/// Computes the node-drain timeout from the pods' termination grace periods
/// (a pod without one counts as zero, supplied as such) and the optional
/// configured cap, exactly as `spec_nodes_drain_timeout` states.
pub fn nodes_drain_timeout(termination_grace_periods_secs: &Vec<i64>, max_nodes_drain_secs: Option<i64>) -> (r:
    i64)
    ensures
        r == spec_nodes_drain_timeout(termination_grace_periods_secs@, max_nodes_drain_secs),
{
    let mut max_period: Option<i64> = None;
    let mut i: usize = 0;
    proof {
        assert(termination_grace_periods_secs@.take(0) =~= Seq::empty());
    }
    while i < termination_grace_periods_secs.len()
        invariant
            0 <= i <= termination_grace_periods_secs@.len(),
            max_period == spec_max_grace_period(termination_grace_periods_secs@.take(i as int)),
        decreases termination_grace_periods_secs@.len() - i,
    {
        let current = termination_grace_periods_secs[i];
        proof {
            assert(termination_grace_periods_secs@.take(i + 1int).drop_last()
                =~= termination_grace_periods_secs@.take(i as int));
            assert(termination_grace_periods_secs@.take(i + 1int).last()
                == termination_grace_periods_secs@[i as int]);
        }
        max_period = match max_period {
            None => Some(current),
            Some(m) => if current > m {
                Some(current)
            } else {
                Some(m)
            },
        };
        i = i + 1;
    }
    proof {
        assert(termination_grace_periods_secs@.take(termination_grace_periods_secs@.len() as int)
            =~= termination_grace_periods_secs@);
    }
    let base = match max_period {
        None => KARPENTER_MIN_NODES_DRAIN_TIMEOUT_SECS,
        Some(m) => if m > KARPENTER_MIN_NODES_DRAIN_TIMEOUT_SECS {
            m
        } else {
            KARPENTER_MIN_NODES_DRAIN_TIMEOUT_SECS
        },
    };
    match max_nodes_drain_secs {
        None => base,
        Some(cap) => if base < cap {
            base
        } else {
            cap
        },
    }
}

/// Which node groups a cluster action may manage while Karpenter is enabled:
/// none at all — Karpenter owns scaling — except during an update of a
/// cluster that neither is on its first deployment nor has Karpenter
/// installed yet, where the configured groups still apply. With Karpenter
/// disabled the configured groups always apply.
pub fn node_groups_when_karpenter_is_enabled<'a>(
    karpenter_enabled: bool,
    kubernetes_action: &KubernetesClusterAction,
    is_first_cluster_deployment: bool,
    karpenter_deployment_installed: bool,
    node_groups: &'a [NodeGroups],
) -> (r: &'a [NodeGroups])
    ensures
        !karpenter_enabled ==> r@ == node_groups@,
        karpenter_enabled ==> (match kubernetes_action {
            KubernetesClusterAction::Update(_) => if is_first_cluster_deployment
                || karpenter_deployment_installed {
                r@.len() == 0
            } else {
                r@ == node_groups@
            },
            _ => r@.len() == 0,
        }),
{
    if !karpenter_enabled {
        return node_groups;
    }
    match kubernetes_action {
        KubernetesClusterAction::Bootstrap
        | KubernetesClusterAction::Upgrade(_)
        | KubernetesClusterAction::Pause
        | KubernetesClusterAction::Resume(_)
        | KubernetesClusterAction::Delete
        | KubernetesClusterAction::CleanKarpenterMigration => &[],
        KubernetesClusterAction::Update(_) => {
            if is_first_cluster_deployment || karpenter_deployment_installed {
                &[]
            } else {
                node_groups
            }
        },
    }
}

} // verus!
