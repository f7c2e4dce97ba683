use benchmark::action::Gauge;
use benchmark::execution::Target;
use benchmark::usage::{find_named, usage_gauges, ProcessUsage, Usage};

#[test]
fn the_usage_is_divided_among_the_cpus() {
    let usage = Usage {
        cpus: 4,
        machine: ProcessUsage { cpu: 30, memory: 1000 },
        server: Some(ProcessUsage { cpu: 399, memory: 7 }),
    };
    assert_eq!(
        usage_gauges(Target::Falkor, usage),
        vec![
            (Gauge::CpuUsage, 7),
            (Gauge::MemUsage, 1000),
            (Gauge::FalkorCpuUsage, 99),
            (Gauge::FalkorMemUsage, 7),
        ]
    );
    assert_eq!(
        usage_gauges(Target::Ibex, usage)[2..],
        [(Gauge::IbexCpuUsage, 99), (Gauge::IbexMemUsage, 7)]
    );
}

#[test]
fn the_quotient_is_rounded_toward_zero() {
    let usage = Usage { cpus: 4, machine: ProcessUsage { cpu: -7, memory: 0 }, server: None };
    assert_eq!(
        usage_gauges(Target::Falkor, usage),
        vec![(Gauge::CpuUsage, -1), (Gauge::MemUsage, 0)]
    );
}

#[test]
fn the_first_process_with_the_name_counts() {
    let named = |pid: u32, name: &str| (pid, Some(name.to_string()));
    let processes =
        vec![named(1, "init"), (2, None), named(3, "redis-server"), named(4, "redis-server")];
    assert_eq!(find_named(&processes, "redis-server"), Some(3));
    assert_eq!(find_named(&processes, "redis"), None);
    assert_eq!(find_named(&vec![], "redis-server"), None);
}
