//! Assembly of one cycle's report from the listed containers and their
//! sampled counter pairs.
//!
//! Every report entry corresponds to exactly one listed container, and the
//! report preserves the discovery order the runtime returned: entry `i` is
//! the normalized form of container `i` with the metrics derived from that
//! container's own snapshot pair.

use crate::metrics::{
    compute_metrics, metrics_record_matches, MetricsError, MetricsRecord, StatsSnapshot,
};
use crate::names::{normalize_names, normalized_name};
use vstd::prelude::*;

verus! {

/// One port mapping of a container, passed through unvalidated.
pub struct PortMapping {
    /// The port inside the container.
    pub container_port: u64,
    /// The port published on the host, `0` when the port is not published.
    pub host_port: u64,
    /// The transport protocol, as the runtime names it.
    pub protocol: String,
    /// The host address the port is bound to, empty when unbound.
    pub host_ip: String,
}

/// One running container as the runtime lists it.
pub struct ContainerDescriptor {
    /// The runtime's unique identifier of the container instance.
    pub id: String,
    /// The image reference the container was created from.
    pub image: String,
    /// The human-readable status string.
    pub status: String,
    /// The command line the container runs.
    pub command: String,
    /// The creation timestamp, in the runtime's epoch units.
    pub created: u64,
    /// The raw name strings, each prefixed by the runtime's path separator.
    pub names: Vec<String>,
    /// The container's port mappings.
    pub ports: Vec<PortMapping>,
}

/// One container's entry in the assembled report: the descriptor's fields
/// with the names normalized, plus the derived metrics.
pub struct ContainerReport {
    /// The runtime's unique identifier of the container instance.
    pub id: String,
    /// The image reference the container was created from.
    pub image: String,
    /// The human-readable status string.
    pub status: String,
    /// The command line the container runs.
    pub command: String,
    /// The creation timestamp, in the runtime's epoch units.
    pub created: u64,
    /// The display names: the raw names with the leading separator removed.
    pub names: Vec<String>,
    /// The container's port mappings, passed through unchanged.
    pub ports: Vec<PortMapping>,
    /// The metrics derived from this container's snapshot pair.
    pub stats: MetricsRecord,
}

/// Field-by-field equality of two port mappings, over their string views.
pub open spec fn port_mapping_matches(a: PortMapping, b: PortMapping) -> bool {
    &&& a.container_port == b.container_port
    &&& a.host_port == b.host_port
    &&& a.protocol@ == b.protocol@
    &&& a.host_ip@ == b.host_ip@
}

/// What it means for a report entry to be the normalized form of a listed
/// container together with its snapshot pair: every field is pinned.
pub open spec fn report_entry_matches(
    r: ContainerReport,
    c: ContainerDescriptor,
    base: StatsSnapshot,
    adv: StatsSnapshot,
) -> bool {
    &&& r.id@ == c.id@
    &&& r.image@ == c.image@
    &&& r.status@ == c.status@
    &&& r.command@ == c.command@
    &&& r.created == c.created
    &&& r.names@.len() == c.names@.len()
    &&& forall|i: int| 0 <= i < c.names@.len() ==> r.names@[i]@ == normalized_name(c.names@[i]@)
    &&& r.ports@.len() == c.ports@.len()
    &&& forall|i: int| 0 <= i < c.ports@.len() ==> port_mapping_matches(r.ports@[i], c.ports@[i])
    &&& metrics_record_matches(r.stats, base, adv)
}

/// Copies one port mapping.
fn clone_port_mapping(p: &PortMapping) -> (r: PortMapping)
    ensures
        port_mapping_matches(r, *p),
{
    PortMapping {
        container_port: p.container_port,
        host_port: p.host_port,
        protocol: p.protocol.clone(),
        host_ip: p.host_ip.clone(),
    }
}

/// Copies a container's port mapping sequence, order preserved.
fn clone_port_mappings(ports: &Vec<PortMapping>) -> (r: Vec<PortMapping>)
    ensures
        r@.len() == ports@.len(),
        forall|i: int| 0 <= i < ports@.len() ==> port_mapping_matches(r@[i], ports@[i]),
{
    let mut out: Vec<PortMapping> = Vec::new();
    let mut i: usize = 0;
    while i < ports.len()
        invariant
            i <= ports@.len(),
            out@.len() == i,
            forall|j: int| 0 <= j < i ==> port_mapping_matches(out@[j], ports@[j]),
        decreases ports@.len() - i,
    {
        out.push(clone_port_mapping(&ports[i]));
        i = i + 1;
    }
    out
}

/// Builds the report entry of one listed container from its snapshot pair.
pub fn assemble_entry(
    container: &ContainerDescriptor,
    base: &StatsSnapshot,
    adv: &StatsSnapshot,
) -> (r: Result<ContainerReport, MetricsError>)
    requires
        base.percpu@.len() <= u32::MAX,
    ensures
        r is Ok <==> adv.percpu@.len() == base.percpu@.len(),
        r matches Ok(entry) ==> report_entry_matches(entry, *container, *base, *adv),
        r matches Err(e) ==> e == MetricsError::CoreCountMismatch,
{
    let stats = match compute_metrics(base, adv) {
        Ok(stats) => stats,
        Err(e) => {
            return Err(e);
        },
    };
    Ok(ContainerReport {
        id: container.id.clone(),
        image: container.image.clone(),
        status: container.status.clone(),
        command: container.command.clone(),
        created: container.created,
        names: normalize_names(&container.names),
        ports: clone_port_mappings(&container.ports),
        stats,
    })
}

/// Assembles one cycle's report: entry `i` of the result is container `i`
/// of the listing, normalized and joined with the metrics derived from
/// snapshot pair `i`. The listing order is preserved end to end; the first
/// pair whose snapshots disagree on the core count fails the whole cycle.
pub fn assemble_report(
    containers: &Vec<ContainerDescriptor>,
    samples: &Vec<(StatsSnapshot, StatsSnapshot)>,
) -> (r: Result<Vec<ContainerReport>, MetricsError>)
    requires
        samples@.len() == containers@.len(),
        forall|i: int| 0 <= i < samples@.len() ==> (#[trigger] samples@[i]).0.percpu@.len() <= u32::MAX,
    ensures
        r is Ok <==> (forall|i: int|
            0 <= i < samples@.len() ==> (#[trigger] samples@[i]).1.percpu@.len()
                == samples@[i].0.percpu@.len()),
        r matches Ok(report) ==> {
            &&& report@.len() == containers@.len()
            &&& forall|i: int|
                0 <= i < containers@.len() ==> report_entry_matches(
                    #[trigger] report@[i],
                    containers@[i],
                    samples@[i].0,
                    samples@[i].1,
                )
        },
        r matches Err(e) ==> e == MetricsError::CoreCountMismatch,
{
    let mut report: Vec<ContainerReport> = Vec::new();
    let mut i: usize = 0;
    while i < containers.len()
        invariant
            i <= containers@.len(),
            samples@.len() == containers@.len(),
            forall|k: int|
                0 <= k < samples@.len() ==> (#[trigger] samples@[k]).0.percpu@.len() <= u32::MAX,
            report@.len() == i,
            forall|k: int|
                0 <= k < i ==> (#[trigger] samples@[k]).1.percpu@.len() == samples@[k].0.percpu@.len(),
            forall|k: int|
                0 <= k < i ==> report_entry_matches(
                    #[trigger] report@[k],
                    containers@[k],
                    samples@[k].0,
                    samples@[k].1,
                ),
        decreases containers@.len() - i,
    {
        let pair = &samples[i];
        let entry = match assemble_entry(&containers[i], &pair.0, &pair.1) {
            Ok(entry) => entry,
            Err(e) => {
                return Err(e);
            },
        };
        report.push(entry);
        i = i + 1;
    }
    Ok(report)
}

} // verus!
