//! The teardown path and the cache bookkeeping around a run. The workload
//! resource is removed unconditionally and idempotently — absence is not an
//! error — and only then are the job's cached or mirrored images evicted.
//! Every eviction is best effort: its failures are reported, never
//! propagated, so a failed cleanup cannot mask a successful deployment. The
//! previous image is snapshotted before the cluster state is mutated and
//! carried through in a `TaskContext`.
use vstd::prelude::*;

verus! {

use crate::io_models::ServiceAction;
use crate::runner::JobRunError;

/// The carrier threaded from the pre-run phase to the post-run phase: the
/// image deployed before this invocation mutates the cluster state, captured
/// while it could still be read.
pub struct TaskContext {
    pub last_deployed_image: Option<String>,
}

/// Where the job's container image comes from, reduced to what the cache
/// bookkeeping needs: a registry image carries the tag its cluster-local
/// mirror was given; a built image carries its repository names and whether
/// the shared repository is to go with the job.
pub enum ImageSource {
    Registry { mirrored_image_tag: String },
    Build {
        shared_repository_name: String,
        dedicated_repository_name: String,
        delete_shared_registry: bool,
    },
}

/// What removing the workload resource reported: removed, already absent, or
/// failed.
#[derive(Clone, Copy, Debug, PartialEq, Eq)]
pub enum UninstallOutcome {
    Removed,
    AlreadyAbsent,
    Failed,
}

/// The teardown's verdict on the removal: removal is idempotent, so an
/// already absent resource is success, exactly as a removed one is; only a
/// failed removal is an error.
pub fn teardown_uninstall_result(outcome: &UninstallOutcome) -> (r: Result<(), JobRunError>)
    ensures
        r is Ok <==> !(outcome is Failed),
        outcome is Failed ==> r == Result::<(), JobRunError>::Err(JobRunError::ChartFailed),
{
    match outcome {
        UninstallOutcome::Removed => Ok(()),
        UninstallOutcome::AlreadyAbsent => Ok(()),
        UninstallOutcome::Failed => Err(JobRunError::ChartFailed),
    }
}

/// One best-effort cleanup step; a failed step is logged and never fails the
/// flow it runs in.
#[derive(Debug, PartialEq, Eq)]
pub enum CleanupAction {
    /// Evict the mirrored image of this run from the cluster cache, handing
    /// along the pre-mutation snapshot of the previously deployed image;
    /// the mirror repository itself goes only on the teardown path.
    DeleteCachedImage {
        mirrored_image_tag: String,
        last_deployed_image: Option<String>,
        delete_mirror_repository: bool,
    },
    /// Delete the repository shared across the application's jobs.
    DeleteSharedRepository { repository_name: String },
    /// Delete the repository dedicated to this job.
    DeleteDedicatedRepository { repository_name: String },
}

/// The cleanup that follows a successful run: a registry-sourced image has
/// its cache entry evicted, keeping the mirror repository; a built image
/// needs nothing here.
pub fn post_run_cleanup_actions(source: &ImageSource, context: TaskContext) -> (r: Vec<CleanupAction>)
    ensures
        (*source matches ImageSource::Registry { mirrored_image_tag } ==> (r@.len() == 1 && r@[0]
            == (CleanupAction::DeleteCachedImage {
            mirrored_image_tag,
            last_deployed_image: context.last_deployed_image,
            delete_mirror_repository: false,
        }))),
        source is Build ==> r@.len() == 0,
{
    match source {
        ImageSource::Registry { mirrored_image_tag } => {
            let mut actions: Vec<CleanupAction> = Vec::new();
            actions.push(CleanupAction::DeleteCachedImage {
                mirrored_image_tag: mirrored_image_tag.clone(),
                last_deployed_image: context.last_deployed_image,
                delete_mirror_repository: false,
            });
            actions
        },
        ImageSource::Build { .. } => Vec::new(),
    }
}

/// Whether the post-run cleanup may report success messages: they are
/// silenced during a delete action, where the job must stay in its deleting
/// state until all resources are gone.
pub fn should_report_cleanup(action: &ServiceAction) -> (r: bool)
    ensures
        r == !(action is Delete),
{
    match action {
        ServiceAction::Delete => false,
        _ => true,
    }
}

/// The cleanup that follows a teardown: a registry-sourced image has its
/// cache entry evicted together with its mirror repository; a built image
/// has its shared repository deleted where the job owns it, and its
/// dedicated repository always.
pub fn teardown_cleanup_actions(source: &ImageSource, context: TaskContext) -> (r: Vec<CleanupAction>)
    ensures
        (*source matches ImageSource::Registry { mirrored_image_tag } ==> (r@.len() == 1 && r@[0]
            == (CleanupAction::DeleteCachedImage {
            mirrored_image_tag,
            last_deployed_image: context.last_deployed_image,
            delete_mirror_repository: true,
        }))),
        (*source matches ImageSource::Build {
            shared_repository_name,
            dedicated_repository_name,
            delete_shared_registry,
        } ==> (if delete_shared_registry {
            r@.len() == 2 && r@[0] == (CleanupAction::DeleteSharedRepository {
                repository_name: shared_repository_name,
            }) && r@[1] == (CleanupAction::DeleteDedicatedRepository {
                repository_name: dedicated_repository_name,
            })
        } else {
            r@.len() == 1 && r@[0] == (CleanupAction::DeleteDedicatedRepository {
                repository_name: dedicated_repository_name,
            })
        })),
{
    let mut actions: Vec<CleanupAction> = Vec::new();
    match source {
        ImageSource::Registry { mirrored_image_tag } => {
            actions.push(CleanupAction::DeleteCachedImage {
                mirrored_image_tag: mirrored_image_tag.clone(),
                last_deployed_image: context.last_deployed_image,
                delete_mirror_repository: true,
            });
        },
        ImageSource::Build {
            shared_repository_name,
            dedicated_repository_name,
            delete_shared_registry,
        } => {
            if *delete_shared_registry {
                actions.push(CleanupAction::DeleteSharedRepository {
                    repository_name: shared_repository_name.clone(),
                });
            }
            actions.push(CleanupAction::DeleteDedicatedRepository {
                repository_name: dedicated_repository_name.clone(),
            });
        },
    }
    actions
}

} // verus!
