use vstd::prelude::*;
use crate::config::Category;

verus! {

/// An IEEE 754 binary32 value carried through unchanged, held as its bit pattern.
#[derive(Clone, Copy, Debug, PartialEq, Eq, Structural)]
pub struct Float32 {
    pub bits: u32,
}

/// An IEEE 754 binary64 value carried through unchanged, held as its bit pattern.
#[derive(Clone, Copy, Debug, PartialEq, Eq, Structural)]
pub struct Float64 {
    pub bits: u64,
}

/// Positive zero, the reading reported for a sensor without a value.
pub open spec fn float32_zero() -> Float32 {
    Float32 { bits: 0 }
}

/// One logical CPU.
#[derive(Clone, Debug, PartialEq)]
pub struct CoreStats {
    /// Usage in percent.
    pub usage: Float32,
    pub frequency_mhz: u64,
    pub vendor_id: String,
    pub brand: String,
}

/// The `/cpu` record.
#[derive(Clone, Debug, PartialEq)]
pub struct CpuStats {
    /// Usage of all CPUs together, in percent.
    pub usage: Float32,
    /// Number of physical cores, 0 when unknown.
    pub physical_cores: u16,
    pub cores: Vec<CoreStats>,
}

/// The `/memory` record.
#[derive(Clone, Debug, PartialEq, Eq)]
pub struct MemoryStats {
    pub total_kb: u64,
    pub available_kb: u64,
    pub used_kb: u64,
    pub swap_total_kb: u64,
    pub swap_used_kb: u64,
}

/// One thermal sensor.
#[derive(Clone, Debug, PartialEq)]
pub struct ComponentStats {
    pub label: String,
    /// Temperature in degrees Celsius; zero when the sensor reports none.
    pub temperature: Float32,
}

/// The `/components` record.
#[derive(Clone, Debug, PartialEq)]
pub struct ComponentsStats {
    pub components: Vec<ComponentStats>,
}

/// One disk.
#[derive(Clone, Debug, PartialEq, Eq)]
pub struct DiskStats {
    pub name: String,
    pub mount_point: String,
    /// Read since boot.
    pub total_read_kb: u64,
    /// Written since boot.
    pub total_written_kb: u64,
    /// Read since the previous refresh.
    pub read_kb: u64,
    /// Written since the previous refresh.
    pub written_kb: u64,
}

/// The `/disks` record.
#[derive(Clone, Debug, PartialEq, Eq)]
pub struct DisksStats {
    pub disks: Vec<DiskStats>,
}

/// One network interface.
#[derive(Clone, Debug, PartialEq, Eq)]
pub struct NetworkStats {
    pub interface_name: String,
    pub mac_address: String,
    /// Bytes received since the previous refresh.
    pub received: u64,
    /// Bytes transmitted since the previous refresh.
    pub transmitted: u64,
    pub total_received: u64,
    pub total_transmitted: u64,
}

/// The `/networks` record.
#[derive(Clone, Debug, PartialEq, Eq)]
pub struct NetworksStats {
    pub networks: Vec<NetworkStats>,
}

/// One process.
#[derive(Clone, Debug, PartialEq)]
pub struct ProcessStats {
    pub pid: u32,
    /// Decimal parent pid, or `Unknown`.
    pub parent_pid: String,
    pub name: String,
    pub status: String,
    /// Usage in percent.
    pub cpu_usage: Float32,
    pub memory_usage_kb: u64,
    /// Start time in seconds since the epoch.
    pub start_time_seconds: u64,
    pub run_time_seconds: u64,
}

/// The `/processes` record.
#[derive(Clone, Debug, PartialEq)]
pub struct ProcessesStats {
    pub processes: Vec<ProcessStats>,
}

/// The `/system` record.
#[derive(Clone, Debug, PartialEq)]
pub struct SystemStats {
    pub name: String,
    pub kernel_version: String,
    pub os_version: String,
    pub os_long_version: String,
    pub host_name: String,
    pub kernel: String,
    /// Boot time in seconds since the epoch.
    pub boot_time_seconds: u64,
    pub uptime_seconds: u64,
    pub load_avg_one: Float64,
    pub load_avg_five: Float64,
    pub load_avg_fifteen: Float64,
}

/// One tick's record of one category.
#[derive(Clone, Debug, PartialEq)]
pub enum Sample {
    Cpu(CpuStats),
    Memory(MemoryStats),
    Components(ComponentsStats),
    Disks(DisksStats),
    Networks(NetworksStats),
    Processes(ProcessesStats),
    System(SystemStats),
}

impl Sample {
    pub open spec fn spec_category(self) -> Category {
        match self {
            Sample::Cpu(_) => Category::Cpu,
            Sample::Memory(_) => Category::Memory,
            Sample::Components(_) => Category::Components,
            Sample::Disks(_) => Category::Disks,
            Sample::Networks(_) => Category::Networks,
            Sample::Processes(_) => Category::Processes,
            Sample::System(_) => Category::System,
        }
    }

    /// The category this record belongs to.
    pub fn category(&self) -> (r: Category)
        ensures
            r == self.spec_category(),
    {
        match self {
            Sample::Cpu(_) => Category::Cpu,
            Sample::Memory(_) => Category::Memory,
            Sample::Components(_) => Category::Components,
            Sample::Disks(_) => Category::Disks,
            Sample::Networks(_) => Category::Networks,
            Sample::Processes(_) => Category::Processes,
            Sample::System(_) => Category::System,
        }
    }
}

/// Whole kibibytes in `bytes`.
pub open spec fn kib(bytes: u64) -> u64 {
    bytes / 1024
}

/// Whole kibibytes in `bytes`, rounded down.
pub fn to_kib(bytes: u64) -> (r: u64)
    ensures
        r == kib(bytes),
{
    bytes / 1024
}

/// `text`, or `fallback` when there is none.
pub open spec fn text_or(text: Option<String>, fallback: Seq<char>) -> Seq<char> {
    match text {
        Some(t) => t@,
        None => fallback,
    }
}

/// The fallback for a disk name, a mount point or a parent pid.
pub open spec fn unknown_text() -> Seq<char> {
    "Unknown"@
}

/// The fallback for a system identity field.
pub open spec fn unknown_placeholder() -> Seq<char> {
    "<unknown>"@
}

/// `text`, or `Unknown` when there is none.
pub fn or_unknown(text: Option<String>) -> (r: String)
    ensures
        r@ == text_or(text, unknown_text()),
{
    match text {
        Some(t) => t,
        None => "Unknown".to_owned(),
    }
}

/// `text`, or `<unknown>` when there is none.
pub fn or_placeholder(text: Option<String>) -> (r: String)
    ensures
        r@ == text_or(text, unknown_placeholder()),
{
    match text {
        Some(t) => t,
        None => "<unknown>".to_owned(),
    }
}

/// The decimal digit `d` as a character.
pub open spec fn digit_char(d: int) -> char {
    if d <= 0 {
        '0'
    } else if d == 1 {
        '1'
    } else if d == 2 {
        '2'
    } else if d == 3 {
        '3'
    } else if d == 4 {
        '4'
    } else if d == 5 {
        '5'
    } else if d == 6 {
        '6'
    } else if d == 7 {
        '7'
    } else if d == 8 {
        '8'
    } else {
        '9'
    }
}

/// Decimal notation of `n`, without leading zeros.
pub open spec fn decimal(n: nat) -> Seq<char>
    decreases n,
{
    if n < 10 {
        seq![digit_char(n as int)]
    } else {
        decimal(n / 10).push(digit_char((n % 10) as int))
    }
}

fn digit_text(d: u32) -> (r: &'static str)
    requires
        d < 10,
    ensures
        r@ == seq![digit_char(d as int)],
{
    proof {
        reveal_strlit("0");
        reveal_strlit("1");
        reveal_strlit("2");
        reveal_strlit("3");
        reveal_strlit("4");
        reveal_strlit("5");
        reveal_strlit("6");
        reveal_strlit("7");
        reveal_strlit("8");
        reveal_strlit("9");
    }
    match d {
        0 => "0",
        1 => "1",
        2 => "2",
        3 => "3",
        4 => "4",
        5 => "5",
        6 => "6",
        7 => "7",
        8 => "8",
        _ => "9",
    }
}

/// Decimal notation of `n`.
pub fn decimal_text(n: u32) -> (r: String)
    ensures
        r@ == decimal(n as nat),
    decreases n,
{
    if n < 10 {
        digit_text(n).to_owned()
    } else {
        let mut r = decimal_text(n / 10);
        r.append(digit_text(n % 10));
        proof {
            assert(r@ == decimal((n / 10) as nat) + seq![digit_char((n % 10) as int)]);
        }
        r
    }
}

/// The parent pid as published: decimal, or `Unknown` when the OS reports none.
pub open spec fn parent_pid_view(parent: Option<u32>) -> Seq<char> {
    match parent {
        Some(p) => decimal(p as nat),
        None => unknown_text(),
    }
}

/// The parent pid field of a process record.
pub fn parent_pid_text(parent: Option<u32>) -> (r: String)
    ensures
        r@ == parent_pid_view(parent),
{
    match parent {
        Some(p) => decimal_text(p),
        None => "Unknown".to_owned(),
    }
}

/// The physical core count as published: the count when it fits in 16 bits, else 0.
pub open spec fn physical_cores_view(count: Option<usize>) -> u16 {
    match count {
        Some(n) => if n <= u16::MAX {
            n as u16
        } else {
            0
        },
        None => 0,
    }
}

/// The physical core field of a CPU record.
pub fn physical_cores_from(count: Option<usize>) -> (r: u16)
    ensures
        r == physical_cores_view(count),
{
    match count {
        Some(n) => if n <= 0xffff {
            n as u16
        } else {
            0
        },
        None => 0,
    }
}

/// The `/cpu` record from the provider's readings.
pub fn cpu_stats(usage: Float32, physical_core_count: Option<usize>, cores: Vec<CoreStats>) -> (r:
    CpuStats)
    ensures
        r.usage == usage,
        r.physical_cores == physical_cores_view(physical_core_count),
        r.cores@ == cores@,
{
    CpuStats { usage, physical_cores: physical_cores_from(physical_core_count), cores }
}

/// The `/memory` record from byte counts.
pub fn memory_stats(
    total_bytes: u64,
    available_bytes: u64,
    used_bytes: u64,
    swap_total_bytes: u64,
    swap_used_bytes: u64,
) -> (r: MemoryStats)
    ensures
        r.total_kb == kib(total_bytes),
        r.available_kb == kib(available_bytes),
        r.used_kb == kib(used_bytes),
        r.swap_total_kb == kib(swap_total_bytes),
        r.swap_used_kb == kib(swap_used_bytes),
{
    MemoryStats {
        total_kb: to_kib(total_bytes),
        available_kb: to_kib(available_bytes),
        used_kb: to_kib(used_bytes),
        swap_total_kb: to_kib(swap_total_bytes),
        swap_used_kb: to_kib(swap_used_bytes),
    }
}

/// One sensor's entry; a sensor without a temperature reads as zero.
pub fn component_stats(label: String, temperature: Option<Float32>) -> (r: ComponentStats)
    ensures
        r.label@ == label@,
        r.temperature == match temperature {
            Some(t) => t,
            None => float32_zero(),
        },
{
    let temperature = match temperature {
        Some(t) => t,
        None => Float32 { bits: 0 },
    };
    ComponentStats { label, temperature }
}

/// A disk's byte counters, as the provider reports them.
#[derive(Clone, Copy, Debug, PartialEq, Eq, Structural)]
pub struct DiskCounters {
    pub total_read_bytes: u64,
    pub total_written_bytes: u64,
    pub read_bytes: u64,
    pub written_bytes: u64,
}

/// One disk's entry; a name or mount point that is not text reads as `Unknown`.
pub fn disk_stats(name: Option<String>, mount_point: Option<String>, usage: DiskCounters) -> (r:
    DiskStats)
    ensures
        r.name@ == text_or(name, unknown_text()),
        r.mount_point@ == text_or(mount_point, unknown_text()),
        r.total_read_kb == kib(usage.total_read_bytes),
        r.total_written_kb == kib(usage.total_written_bytes),
        r.read_kb == kib(usage.read_bytes),
        r.written_kb == kib(usage.written_bytes),
{
    DiskStats {
        name: or_unknown(name),
        mount_point: or_unknown(mount_point),
        total_read_kb: to_kib(usage.total_read_bytes),
        total_written_kb: to_kib(usage.total_written_bytes),
        read_kb: to_kib(usage.read_bytes),
        written_kb: to_kib(usage.written_bytes),
    }
}

/// One process's entry; a process without a parent reads as `Unknown`.
pub fn process_stats(
    pid: u32,
    parent: Option<u32>,
    name: String,
    status: String,
    cpu_usage: Float32,
    memory_bytes: u64,
    start_time_seconds: u64,
    run_time_seconds: u64,
) -> (r: ProcessStats)
    ensures
        r.pid == pid,
        r.parent_pid@ == parent_pid_view(parent),
        r.name@ == name@,
        r.status@ == status@,
        r.cpu_usage == cpu_usage,
        r.memory_usage_kb == kib(memory_bytes),
        r.start_time_seconds == start_time_seconds,
        r.run_time_seconds == run_time_seconds,
{
    ProcessStats {
        pid,
        parent_pid: parent_pid_text(parent),
        name,
        status,
        cpu_usage,
        memory_usage_kb: to_kib(memory_bytes),
        start_time_seconds,
        run_time_seconds,
    }
}

/// The `/system` record; an identity field the OS does not report reads as
/// `<unknown>`, and `kernel` repeats the kernel version.
pub fn system_stats(
    name: Option<String>,
    kernel_version: Option<String>,
    os_version: Option<String>,
    os_long_version: Option<String>,
    host_name: Option<String>,
    boot_time_seconds: u64,
    uptime_seconds: u64,
    load_average: (Float64, Float64, Float64),
) -> (r: SystemStats)
    ensures
        r.name@ == text_or(name, unknown_placeholder()),
        r.kernel_version@ == text_or(kernel_version, unknown_placeholder()),
        r.os_version@ == text_or(os_version, unknown_placeholder()),
        r.os_long_version@ == text_or(os_long_version, unknown_placeholder()),
        r.host_name@ == text_or(host_name, unknown_placeholder()),
        r.kernel@ == text_or(kernel_version, unknown_placeholder()),
        r.boot_time_seconds == boot_time_seconds,
        r.uptime_seconds == uptime_seconds,
        r.load_avg_one == load_average.0,
        r.load_avg_five == load_average.1,
        r.load_avg_fifteen == load_average.2,
{
    let kernel_version = or_placeholder(kernel_version);
    let kernel = kernel_version.clone();
    SystemStats {
        name: or_placeholder(name),
        kernel_version,
        os_version: or_placeholder(os_version),
        os_long_version: or_placeholder(os_long_version),
        host_name: or_placeholder(host_name),
        kernel,
        boot_time_seconds,
        uptime_seconds,
        load_avg_one: load_average.0,
        load_avg_five: load_average.1,
        load_avg_fifteen: load_average.2,
    }
}

} // verus!
