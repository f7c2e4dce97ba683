//! What the gauges for memory and CPU show.
use vstd::prelude::*;
use crate::action::Gauge;
use crate::execution::Target;
use crate::text;

verus! {

/// The quotient of two numbers, rounded toward zero.
pub open spec fn quotient(a: int, b: int) -> int {
    if a >= 0 {
        a / b
    } else {
        -(-a / b)
    }
}

/// What a process uses: percent of a CPU, and bytes of memory.
#[derive(Debug, Clone, Copy, PartialEq, Eq, Structural)]
pub struct ProcessUsage {
    pub cpu: i64,
    pub memory: u64,
}

/// What the machine with its logical CPUs uses, and the server, if it was found.
#[derive(Debug, Clone, Copy, PartialEq, Eq, Structural)]
pub struct Usage {
    pub cpus: usize,
    pub machine: ProcessUsage,
    pub server: Option<ProcessUsage>,
}

/// What the gauges for CPU and memory show for a usage: the CPU usage is divided among
/// the CPUs, the memory is shown as it is.
pub open spec fn shown(
    cpu: Gauge,
    memory: Gauge,
    usage: ProcessUsage,
    cpus: usize,
) -> Seq<(Gauge, i64)> {
    seq![
        (cpu, quotient(usage.cpu as int, cpus as int) as i64),
        (memory, usage.memory as i64),
    ]
}

/// The gauges for CPU and memory of the server.
pub open spec fn server_gauges(target: Target) -> (Gauge, Gauge) {
    match target {
        Target::Falkor => (Gauge::FalkorCpuUsage, Gauge::FalkorMemUsage),
        Target::Ibex => (Gauge::IbexCpuUsage, Gauge::IbexMemUsage),
    }
}

/// Which gauges are set to what for a usage, in order. The gauges of a server that was
/// not found stay as they are.
pub fn usage_gauges(target: Target, usage: Usage) -> (gauges: Vec<(Gauge, i64)>)
    requires
        0 < usage.cpus <= i64::MAX,
    ensures
        gauges@ == shown(Gauge::CpuUsage, Gauge::MemUsage, usage.machine, usage.cpus) + (
        match usage.server {
            Some(server) => shown(
                server_gauges(target).0,
                server_gauges(target).1,
                server,
                usage.cpus,
            ),
            None => Seq::empty(),
        }),
{
    let cpus: i64 = usage.cpus as i64;
    let mut gauges: Vec<(Gauge, i64)> = vec![
        (Gauge::CpuUsage, usage.machine.cpu / cpus),
        (Gauge::MemUsage, usage.machine.memory as i64),
    ];
    if let Some(server) = usage.server {
        let (cpu, memory) = match target {
            Target::Falkor => (Gauge::FalkorCpuUsage, Gauge::FalkorMemUsage),
            Target::Ibex => (Gauge::IbexCpuUsage, Gauge::IbexMemUsage),
        };
        gauges.push((cpu, server.cpu / cpus));
        gauges.push((memory, server.memory as i64));
    }
    gauges
}

/// The share of a CPU usage that is shown lies between zero and the usage.
pub proof fn shown_cpu_is_a_share(cpu: i64, cpus: usize)
    requires
        cpus > 0,
    ensures
        cpu >= 0 ==> 0 <= quotient(cpu as int, cpus as int) <= cpu,
        cpu <= 0 ==> cpu <= quotient(cpu as int, cpus as int) <= 0,
        cpus == 1 ==> quotient(cpu as int, cpus as int) == cpu,
{
    let n = cpus as int;
    let a = if cpu >= 0 {
        cpu as int
    } else {
        -(cpu as int)
    };
    assert(0 <= a / n <= a) by (nonlinear_arith)
        requires
            a >= 0,
            n > 0,
    ;
    if n == 1 {
        assert(a / 1 == a);
    }
}

/// Whether a process has a name, and this one.
pub open spec fn is_named(process: (u32, Option<String>), name: Seq<char>) -> bool {
    process.1 matches Some(n) && n@ == name
}

/// The id of the first process with the name.
pub open spec fn first_named(processes: Seq<(u32, Option<String>)>, name: Seq<char>) -> Option<u32>
    decreases processes.len(),
{
    if processes.len() == 0 {
        None
    } else if is_named(processes[0], name) {
        Some(processes[0].0)
    } else {
        first_named(processes.drop_first(), name)
    }
}

/// The id of the first process with the name. A process whose name is no text has none.
pub fn find_named(processes: &Vec<(u32, Option<String>)>, name: &str) -> (pid: Option<u32>)
    ensures
        pid == first_named(processes@, name@),
{
    let mut i: usize = 0;
    proof {
        assert(processes@.skip(0) =~= processes@);
    }
    while i < processes.len()
        invariant
            i <= processes@.len(),
            first_named(processes@, name@) == first_named(processes@.skip(i as int), name@),
        decreases processes@.len() - i,
    {
        proof {
            assert(processes@.skip(i as int).drop_first() =~= processes@.skip(i + 1));
        }
        if let Some(n) = &processes[i].1 {
            if text::same_text(n.as_str(), name) {
                return Some(processes[i].0);
            }
        }
        i = i + 1;
    }
    None
}

} // verus!
