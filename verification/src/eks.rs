//! The load-balancer annotations an EKS cluster puts on a service of the
//! level-four kind: the network load balancer by default, or the
//! load-balancer controller's external mode with its scheme, target type,
//! cross-zone setting and resource tags. Changing these may destroy and
//! recreate a balancer, so the exact strings are pinned here.
use vstd::prelude::*;

verus! {

use vstd::string::StringExecFns;

/// The value of the additional-resource-tags annotation: the organization
/// and cluster identifiers, and the balancer's own name where one is given.
pub open spec fn spec_lb_tags_value(
    organization_long_id: Seq<char>,
    organization_short_id: Seq<char>,
    cluster_long_id: Seq<char>,
    cluster_short_id: Seq<char>,
    cloud_provider_lb_name: Option<Seq<char>>,
) -> Seq<char> {
    "OrganizationLongId="@ + organization_long_id + ",OrganizationId="@ + organization_short_id
        + ",ClusterLongId="@ + cluster_long_id + ",ClusterId="@ + cluster_short_id + (
    match cloud_provider_lb_name {
        Some(name) => ",QoveryName="@ + name,
        None => Seq::empty(),
    })
}

/// Builds the level-four load-balancer annotations. Without the controller
/// the one annotation picks the network load balancer; with it the balancer
/// is external, internet-facing, targets addresses directly, balances across
/// zones, and carries the identifying tags.
pub fn loadbalancer_l4_annotations(
    alb_controller_enabled: bool,
    organization_long_id: &str,
    organization_short_id: &str,
    cluster_long_id: &str,
    cluster_short_id: &str,
    cloud_provider_lb_name: Option<&str>,
) -> (r: Vec<(String, String)>)
    ensures
        !alb_controller_enabled ==> ({
            &&& r@.len() == 1
            &&& r@[0].0@ == "service.beta.kubernetes.io/aws-load-balancer-type"@
            &&& r@[0].1@ == "nlb"@
        }),
        alb_controller_enabled ==> ({
            &&& r@.len() == 5
            &&& r@[0].0@ == "service.beta.kubernetes.io/aws-load-balancer-type"@
            &&& r@[0].1@ == "external"@
            &&& r@[1].0@ == "service.beta.kubernetes.io/aws-load-balancer-scheme"@
            &&& r@[1].1@ == "internet-facing"@
            &&& r@[2].0@ == "service.beta.kubernetes.io/aws-load-balancer-nlb-target-type"@
            &&& r@[2].1@ == "ip"@
            &&& r@[3].0@
                == "service.beta.kubernetes.io/aws-load-balancer-cross-zone-load-balancing-enabled"@
            &&& r@[3].1@ == "true"@
            &&& r@[4].0@ == "service.beta.kubernetes.io/aws-load-balancer-additional-resource-tags"@
            &&& r@[4].1@ == spec_lb_tags_value(
                organization_long_id@,
                organization_short_id@,
                cluster_long_id@,
                cluster_short_id@,
                match cloud_provider_lb_name {
                    Some(n) => Some(n@),
                    None => None,
                },
            )
        }),
{
    if !alb_controller_enabled {
        let mut annotations: Vec<(String, String)> = Vec::new();
        annotations.push((
            "service.beta.kubernetes.io/aws-load-balancer-type".to_owned(),
            "nlb".to_owned(),
        ));
        return annotations;
    }
    let mut tags = "OrganizationLongId=".to_owned().concat(organization_long_id);
    tags = tags.concat(",OrganizationId=").concat(organization_short_id);
    tags = tags.concat(",ClusterLongId=").concat(cluster_long_id);
    tags = tags.concat(",ClusterId=").concat(cluster_short_id);
    match cloud_provider_lb_name {
        Some(name) => {
            tags = tags.concat(",QoveryName=").concat(name);
        },
        None => {},
    }
    let mut annotations: Vec<(String, String)> = Vec::new();
    annotations.push((
        "service.beta.kubernetes.io/aws-load-balancer-type".to_owned(),
        "external".to_owned(),
    ));
    annotations.push((
        "service.beta.kubernetes.io/aws-load-balancer-scheme".to_owned(),
        "internet-facing".to_owned(),
    ));
    annotations.push((
        "service.beta.kubernetes.io/aws-load-balancer-nlb-target-type".to_owned(),
        "ip".to_owned(),
    ));
    annotations.push((
        "service.beta.kubernetes.io/aws-load-balancer-cross-zone-load-balancing-enabled".to_owned(),
        "true".to_owned(),
    ));
    annotations.push((
        "service.beta.kubernetes.io/aws-load-balancer-additional-resource-tags".to_owned(),
        tags,
    ));
    annotations
}

} // verus!
