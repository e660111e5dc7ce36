//! The nginx ingress chart description: where its chart and values files
//! live, the resource settings of its controller and default backend with
//! their defaults, and the install checker attached to it.
use vstd::prelude::*;

verus! {

/// Where a chart's directory lives relative to the charts root.
#[derive(Clone, Copy, Debug, PartialEq, Eq, Structural)]
pub enum HelmChartDirectoryLocation {
    CommonFolder,
    CloudProviderFolder,
}

/// The location of a chart's directory: an optional prefix, the folder it
/// lives under, and the chart's own name.
pub struct HelmChartPath {
    pub prefix_path: Option<String>,
    pub location: HelmChartDirectoryLocation,
    pub chart_name: String,
}

impl HelmChartPath {
    pub fn new(chart_prefix_path: Option<&str>, location: HelmChartDirectoryLocation, chart_name: String) -> (r:
        HelmChartPath)
        ensures
            (match chart_prefix_path {
                Some(p) => r.prefix_path matches Some(q) && q@ == p@,
                None => r.prefix_path is None,
            }),
            r.location == location,
            r.chart_name@ == chart_name@,
    {
        HelmChartPath {
            prefix_path: match chart_prefix_path {
                Some(p) => Some(p.to_owned()),
                None => None,
            },
            location,
            chart_name,
        }
    }
}

/// The location of a chart's values file, laid out as the chart path is.
pub struct HelmChartValuesFilePath {
    pub prefix_path: Option<String>,
    pub location: HelmChartDirectoryLocation,
    pub chart_name: String,
}

impl HelmChartValuesFilePath {
    pub fn new(chart_prefix_path: Option<&str>, location: HelmChartDirectoryLocation, chart_name: String) -> (r:
        HelmChartValuesFilePath)
        ensures
            (match chart_prefix_path {
                Some(p) => r.prefix_path matches Some(q) && q@ == p@,
                None => r.prefix_path is None,
            }),
            r.location == location,
            r.chart_name@ == chart_name@,
    {
        HelmChartValuesFilePath {
            prefix_path: match chart_prefix_path {
                Some(p) => Some(p.to_owned()),
                None => None,
            },
            location,
            chart_name,
        }
    }
}

/// A CPU quantity of a workload.
#[derive(Clone, Copy, Debug, PartialEq, Eq, Structural)]
pub enum KubernetesCpuResourceUnit {
    /// Whole CPUs.
    Cpu(u32),
    /// Thousandths of a CPU.
    MilliCpu(u32),
}

/// A memory quantity of a workload.
#[derive(Clone, Copy, Debug, PartialEq, Eq, Structural)]
pub enum KubernetesMemoryResourceUnit {
    MebiByte(u32),
    GibiByte(u32),
}

/// The resource requests and limits of one chart workload.
#[derive(Clone, Copy, Debug, PartialEq, Eq, Structural)]
pub struct HelmChartResources {
    pub request_cpu: KubernetesCpuResourceUnit,
    pub request_memory: KubernetesMemoryResourceUnit,
    pub limit_cpu: KubernetesCpuResourceUnit,
    pub limit_memory: KubernetesMemoryResourceUnit,
}

/// Either the chart's own defaults or explicitly constrained resources.
#[derive(Clone, Copy, Debug, PartialEq, Eq, Structural)]
pub enum HelmChartResourcesConstraintType {
    ChartDefault,
    Constrained(HelmChartResources),
}

/// A customer's override of one chart's values.
#[derive(Clone, Debug, PartialEq, Eq)]
pub struct CustomerHelmChartsOverride {
    pub chart_name: String,
    pub chart_values: String,
}

/// The controller resources the chart defaults to.
pub open spec fn spec_default_controller_resources() -> HelmChartResources {
    HelmChartResources {
        request_cpu: KubernetesCpuResourceUnit::MilliCpu(100),
        request_memory: KubernetesMemoryResourceUnit::MebiByte(768),
        limit_cpu: KubernetesCpuResourceUnit::MilliCpu(500),
        limit_memory: KubernetesMemoryResourceUnit::MebiByte(768),
    }
}

/// The default-backend resources the chart defaults to.
pub open spec fn spec_default_backend_resources() -> HelmChartResources {
    HelmChartResources {
        request_cpu: KubernetesCpuResourceUnit::MilliCpu(10),
        request_memory: KubernetesMemoryResourceUnit::MebiByte(32),
        limit_cpu: KubernetesCpuResourceUnit::MilliCpu(20),
        limit_memory: KubernetesMemoryResourceUnit::MebiByte(32),
    }
}

pub open spec fn spec_resolved_resources(
    constraint: HelmChartResourcesConstraintType,
    chart_default: HelmChartResources,
) -> HelmChartResources {
    match constraint {
        HelmChartResourcesConstraintType::ChartDefault => chart_default,
        HelmChartResourcesConstraintType::Constrained(r) => r,
    }
}

/// The nginx ingress chart: its file locations, its resolved resources, the
/// metrics-history flag, and a customer override where one applies.
pub struct NginxIngressChart {
    pub chart_path: HelmChartPath,
    pub chart_values_path: HelmChartValuesFilePath,
    pub controller_resources: HelmChartResources,
    pub default_backend_resources: HelmChartResources,
    pub ff_metrics_history_enabled: bool,
    pub customer_helm_chart_override: Option<CustomerHelmChartsOverride>,
}

impl NginxIngressChart {
    /// Builds the chart description: the chart directory sits in the common
    /// folder under the chart's current name, the values file in the
    /// cloud-provider folder under its old name, and unconstrained resources
    /// resolve to the chart defaults.
    pub fn new(
        chart_prefix_path: Option<&str>,
        controller_resources: HelmChartResourcesConstraintType,
        default_backend_resources: HelmChartResourcesConstraintType,
        ff_metrics_history_enabled: bool,
        customer_helm_chart_override: Option<CustomerHelmChartsOverride>,
    ) -> (r: NginxIngressChart)
        ensures
            r.chart_path.location == HelmChartDirectoryLocation::CommonFolder,
            r.chart_path.chart_name@ == "ingress-nginx"@,
            r.chart_values_path.location == HelmChartDirectoryLocation::CloudProviderFolder,
            r.chart_values_path.chart_name@ == "nginx-ingress"@,
            (match chart_prefix_path {
                Some(p) => r.chart_path.prefix_path matches Some(q) && q@ == p@,
                None => r.chart_path.prefix_path is None,
            }),
            r.controller_resources == spec_resolved_resources(
                controller_resources,
                spec_default_controller_resources(),
            ),
            r.default_backend_resources == spec_resolved_resources(
                default_backend_resources,
                spec_default_backend_resources(),
            ),
            r.ff_metrics_history_enabled == ff_metrics_history_enabled,
            r.customer_helm_chart_override == customer_helm_chart_override,
    {
        NginxIngressChart {
            chart_path: HelmChartPath::new(
                chart_prefix_path,
                HelmChartDirectoryLocation::CommonFolder,
                NginxIngressChart::chart_name(),
            ),
            chart_values_path: HelmChartValuesFilePath::new(
                chart_prefix_path,
                HelmChartDirectoryLocation::CloudProviderFolder,
                NginxIngressChart::chart_old_name(),
            ),
            controller_resources: match controller_resources {
                HelmChartResourcesConstraintType::ChartDefault => HelmChartResources {
                    request_cpu: KubernetesCpuResourceUnit::MilliCpu(100),
                    request_memory: KubernetesMemoryResourceUnit::MebiByte(768),
                    limit_cpu: KubernetesCpuResourceUnit::MilliCpu(500),
                    limit_memory: KubernetesMemoryResourceUnit::MebiByte(768),
                },
                HelmChartResourcesConstraintType::Constrained(r) => r,
            },
            default_backend_resources: match default_backend_resources {
                HelmChartResourcesConstraintType::ChartDefault => HelmChartResources {
                    request_cpu: KubernetesCpuResourceUnit::MilliCpu(10),
                    request_memory: KubernetesMemoryResourceUnit::MebiByte(32),
                    limit_cpu: KubernetesCpuResourceUnit::MilliCpu(20),
                    limit_memory: KubernetesMemoryResourceUnit::MebiByte(32),
                },
                HelmChartResourcesConstraintType::Constrained(r) => r,
            },
            ff_metrics_history_enabled,
            customer_helm_chart_override,
        }
    }

    /// The chart's current upstream name.
    pub fn chart_name() -> (r: String)
        ensures
            r@ == "ingress-nginx"@,
    {
        "ingress-nginx".to_owned()
    }

    /// The name the chart had before upstream renamed it; the values files
    /// still carry it.
    pub fn chart_old_name() -> (r: String)
        ensures
            r@ == "nginx-ingress"@,
    {
        "nginx-ingress".to_owned()
    }
}

/// The installation checker attached to the nginx ingress chart.
#[derive(Clone)]
pub struct NginxIngressChartChecker {}

impl NginxIngressChartChecker {
    pub fn new() -> (r: NginxIngressChartChecker)
        ensures
            r == (NginxIngressChartChecker {  }),
    {
        NginxIngressChartChecker {  }
    }
}

impl Default for NginxIngressChartChecker {
    fn default() -> (r: NginxIngressChartChecker)
        ensures
            r == (NginxIngressChartChecker {  }),
    {
        NginxIngressChartChecker::new()
    }
}

} // verus!
