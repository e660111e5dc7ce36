use job_engine::database::{check_database_resources, storage_size_review, DatabaseError, StorageSizeReview};
use job_engine::io_models::{
    normalize_root_and_dockerfile_path, sanitized_git_url, Action, NginxConfigurationServerSnippet,
    ServiceAction,
};
use job_engine::karpenter::{nodes_drain_timeout, Karpenter, KubernetesClusterAction, NodeGroups};
use job_engine::nginx::{
    HelmChartDirectoryLocation, HelmChartResources, HelmChartResourcesConstraintType,
    KubernetesCpuResourceUnit, KubernetesMemoryResourceUnit, NginxIngressChart,
    NginxIngressChartChecker,
};

#[test]
fn action_maps_to_its_service_action() {
    assert_eq!(Action::Create.to_service_action(), ServiceAction::Create);
    assert_eq!(Action::Pause.to_service_action(), ServiceAction::Pause);
    assert_eq!(Action::Delete.to_service_action(), ServiceAction::Delete);
    assert_eq!(Action::Restart.to_service_action(), ServiceAction::Restart);
}

#[test]
fn snippet_keeps_its_value() {
    let snippet = NginxConfigurationServerSnippet::new("gzip on;".to_string());
    assert_eq!(snippet.get_snippet_value(), "gzip on;");
}

#[test]
fn root_and_dockerfile_paths_are_normalized() {
    let (root, dockerfile) = normalize_root_and_dockerfile_path("/app/src", &Some("/Dockerfile".to_string()));
    assert_eq!(root, "app/src");
    assert_eq!(dockerfile, Some("app/src/Dockerfile".to_string()));

    let (root, dockerfile) = normalize_root_and_dockerfile_path("rel", &Some("sub/Dockerfile".to_string()));
    assert_eq!(root, "rel");
    assert_eq!(dockerfile, Some("rel/sub/Dockerfile".to_string()));

    let (root, dockerfile) = normalize_root_and_dockerfile_path("//twice", &None);
    assert_eq!(root, "twice");
    assert_eq!(dockerfile, None);

    let (root, dockerfile) = normalize_root_and_dockerfile_path("/", &Some("Dockerfile".to_string()));
    assert_eq!(root, "");
    assert_eq!(dockerfile, Some("Dockerfile".to_string()));
}

#[test]
fn git_urls_are_sanitized() {
    assert_eq!(
        sanitized_git_url("https://github.com/Example/Engine.git"),
        "https-github-com-example-engine-git"
    );
    assert_eq!(sanitized_git_url("abc123"), "abc123");
    assert_eq!(sanitized_git_url("--a--b--"), "-a-b-");
}

#[test]
fn karpenter_pause_state_needs_the_deployment() {
    assert!(!Karpenter::is_paused(false, 0));
    assert!(Karpenter::is_paused(true, 0));
    assert!(!Karpenter::is_paused(true, 3));
    assert!(Karpenter::deployment_is_installed(1));
    assert!(!Karpenter::deployment_is_installed(0));
    assert!(Karpenter::pods_are_ready(2));
    assert!(!Karpenter::pods_are_ready(1));
}

#[test]
fn drain_timeout_honours_floor_and_cap() {
    // no pods: the floor applies
    assert_eq!(nodes_drain_timeout(&vec![], None), 60);
    // the longest grace period wins over the floor
    assert_eq!(nodes_drain_timeout(&vec![30, 120, 45], None), 120);
    // short grace periods stay at the floor
    assert_eq!(nodes_drain_timeout(&vec![5, 10], None), 60);
    // the configured cap bounds everything
    assert_eq!(nodes_drain_timeout(&vec![500], Some(90)), 90);
    assert_eq!(nodes_drain_timeout(&vec![30], Some(90)), 60);
}

#[test]
fn karpenter_owns_scaling_except_during_plain_updates() {
    let groups = vec![NodeGroups {
        name: "ng".to_string(),
        min_nodes: 1,
        max_nodes: 3,
        instance_type: "t3.large".to_string(),
    }];
    // Karpenter disabled: the groups always apply
    let r = job_engine::karpenter::node_groups_when_karpenter_is_enabled(
        false,
        &KubernetesClusterAction::Delete,
        false,
        false,
        &groups,
    );
    assert_eq!(r.len(), 1);
    // enabled: nothing for bootstrap and friends
    let r = job_engine::karpenter::node_groups_when_karpenter_is_enabled(
        true,
        &KubernetesClusterAction::Bootstrap,
        false,
        false,
        &groups,
    );
    assert_eq!(r.len(), 0);
    // enabled, plain update of a settled cluster without Karpenter installed:
    // the groups still apply
    let r = job_engine::karpenter::node_groups_when_karpenter_is_enabled(
        true,
        &KubernetesClusterAction::Update(None),
        false,
        false,
        &groups,
    );
    assert_eq!(r.len(), 1);
    // enabled, update with Karpenter already installed: nothing
    let r = job_engine::karpenter::node_groups_when_karpenter_is_enabled(
        true,
        &KubernetesClusterAction::Update(None),
        false,
        true,
        &groups,
    );
    assert_eq!(r.len(), 0);
}

#[test]
fn nginx_chart_names_and_defaults() {
    assert_eq!(NginxIngressChart::chart_name(), "ingress-nginx");
    assert_eq!(NginxIngressChart::chart_old_name(), "nginx-ingress");
    let chart = NginxIngressChart::new(
        Some("prefix"),
        HelmChartResourcesConstraintType::ChartDefault,
        HelmChartResourcesConstraintType::Constrained(HelmChartResources {
            request_cpu: KubernetesCpuResourceUnit::MilliCpu(1),
            request_memory: KubernetesMemoryResourceUnit::MebiByte(2),
            limit_cpu: KubernetesCpuResourceUnit::MilliCpu(3),
            limit_memory: KubernetesMemoryResourceUnit::MebiByte(4),
        }),
        true,
        None,
    );
    assert_eq!(chart.chart_path.chart_name, "ingress-nginx");
    assert_eq!(chart.chart_path.location, HelmChartDirectoryLocation::CommonFolder);
    assert_eq!(chart.chart_values_path.chart_name, "nginx-ingress");
    assert_eq!(chart.chart_values_path.location, HelmChartDirectoryLocation::CloudProviderFolder);
    assert_eq!(chart.controller_resources.request_cpu, KubernetesCpuResourceUnit::MilliCpu(100));
    assert_eq!(chart.controller_resources.limit_cpu, KubernetesCpuResourceUnit::MilliCpu(500));
    assert_eq!(chart.controller_resources.request_memory, KubernetesMemoryResourceUnit::MebiByte(768));
    assert_eq!(chart.default_backend_resources.request_cpu, KubernetesCpuResourceUnit::MilliCpu(1));
    assert!(chart.ff_metrics_history_enabled);
    let _checker = NginxIngressChartChecker::new();
}

#[test]
fn database_resource_checks_reject_bad_settings() {
    assert!(check_database_resources(100, 200, 256, 512, true).is_ok());
    // managed databases are sized by instance type: no checks apply
    assert!(check_database_resources(0, 0, 0, 0, false).is_ok());
    assert!(matches!(
        check_database_resources(300, 200, 256, 512, true),
        Err(DatabaseError::InvalidConfig(_))
    ));
    assert!(matches!(
        check_database_resources(0, 200, 256, 512, true),
        Err(DatabaseError::InvalidConfig(_))
    ));
    assert!(matches!(
        check_database_resources(100, 200, 600, 512, true),
        Err(DatabaseError::InvalidConfig(_))
    ));
    assert!(matches!(
        check_database_resources(100, 200, 0, 512, true),
        Err(DatabaseError::InvalidConfig(_))
    ));
}

#[test]
fn storage_never_shrinks() {
    assert_eq!(storage_size_review(20, 10), Ok(StorageSizeReview::MustGrow));
    assert_eq!(storage_size_review(10, 10), Ok(StorageSizeReview::Unchanged));
    assert!(matches!(storage_size_review(5, 10), Err(DatabaseError::InvalidConfig(_))));
}
