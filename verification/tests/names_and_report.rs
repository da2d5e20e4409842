use cosmos_agent::metrics::StatsSnapshot;
use cosmos_agent::names::{normalize_name, normalize_names};
use cosmos_agent::report::{assemble_report, ContainerDescriptor, PortMapping};

#[test]
fn normalize_removes_one_leading_separator() {
    assert_eq!(normalize_name("/web-1"), "web-1");
}

#[test]
fn normalize_passes_plain_name_through() {
    assert_eq!(normalize_name("web-1"), "web-1");
}

#[test]
fn normalize_is_idempotent_without_separator() {
    let once = normalize_name("web-1");
    assert_eq!(normalize_name(&once), once);
}

#[test]
fn normalize_removes_only_the_first_separator() {
    assert_eq!(normalize_name("//nested"), "/nested");
}

#[test]
fn normalize_empty_name() {
    assert_eq!(normalize_name(""), "");
}

#[test]
fn normalize_lone_separator() {
    assert_eq!(normalize_name("/"), "");
}

#[test]
fn normalize_names_keeps_order() {
    let names = vec!["/a".to_string(), "b".to_string(), "/c".to_string()];
    assert_eq!(normalize_names(&names), vec!["a", "b", "c"]);
}

fn descriptor(id: &str, name: &str) -> ContainerDescriptor {
    ContainerDescriptor {
        id: id.to_string(),
        image: "img:latest".to_string(),
        status: "Up 2 minutes".to_string(),
        command: "sleep infinity".to_string(),
        created: 1_700_000_000,
        names: vec![name.to_string()],
        ports: vec![PortMapping {
            container_port: 80,
            host_port: 8080,
            protocol: "tcp".to_string(),
            host_ip: "0.0.0.0".to_string(),
        }],
    }
}

fn pair(cpu0: u64, cpu1: u64) -> (StatsSnapshot, StatsSnapshot) {
    (
        StatsSnapshot {
            cpu_total: cpu0,
            percpu: vec![cpu0],
            system_total: 1_000,
            memory_usage: 10,
            memory_limit: 100,
            rx_bytes: 0,
            tx_bytes: 0,
        },
        StatsSnapshot {
            cpu_total: cpu1,
            percpu: vec![cpu1],
            system_total: 2_000,
            memory_usage: 20,
            memory_limit: 100,
            rx_bytes: 5,
            tx_bytes: 6,
        },
    )
}

#[test]
fn report_preserves_discovery_order() {
    let containers = vec![descriptor("A", "/a"), descriptor("B", "/b"), descriptor("C", "/c")];
    let samples = vec![pair(0, 100), pair(0, 200), pair(0, 300)];
    let report = assemble_report(&containers, &samples).unwrap();
    let ids: Vec<&str> = report.iter().map(|r| r.id.as_str()).collect();
    assert_eq!(ids, vec!["A", "B", "C"]);
}

#[test]
fn report_entry_carries_normalized_names_and_metrics() {
    let containers = vec![descriptor("A", "/web-1")];
    let samples = vec![pair(100, 300)];
    let report = assemble_report(&containers, &samples).unwrap();
    assert_eq!(report.len(), 1);
    let entry = &report[0];
    assert_eq!(entry.id, "A");
    assert_eq!(entry.image, "img:latest");
    assert_eq!(entry.status, "Up 2 minutes");
    assert_eq!(entry.command, "sleep infinity");
    assert_eq!(entry.created, 1_700_000_000);
    assert_eq!(entry.names, vec!["web-1"]);
    assert_eq!(entry.ports.len(), 1);
    assert_eq!(entry.ports[0].container_port, 80);
    assert_eq!(entry.ports[0].host_port, 8080);
    assert_eq!(entry.ports[0].protocol, "tcp");
    assert_eq!(entry.ports[0].host_ip, "0.0.0.0");
    // (200 / 1000) * 1 * 100 = 20, memory and network from the advanced
    // snapshot, deltas over the window.
    assert_eq!(entry.stats.cpu_total_percent, 20);
    assert_eq!(entry.stats.percpu_percent, vec![20]);
    assert_eq!(entry.stats.memory_usage, 20);
    assert_eq!(entry.stats.memory_limit, 100);
    assert_eq!(entry.stats.rx_bytes, 5);
    assert_eq!(entry.stats.tx_bytes, 6);
    assert_eq!(entry.stats.rx_bytes_delta, 5);
    assert_eq!(entry.stats.tx_bytes_delta, 6);
}

#[test]
fn report_fails_whole_cycle_on_core_mismatch() {
    let containers = vec![descriptor("A", "/a"), descriptor("B", "/b")];
    let mut samples = vec![pair(0, 100), pair(0, 200)];
    samples[1].1.percpu = vec![1, 2];
    assert!(assemble_report(&containers, &samples).is_err());
}

#[test]
fn report_of_no_containers_is_empty() {
    let report = assemble_report(&vec![], &vec![]).unwrap();
    assert!(report.is_empty());
}
