//! The system-metrics provider (the `sysinfo` crate) as seen by the library.
//! Every reading depends on the machine and the moment it is taken, so none of
//! these items promises anything of the values it returns.

use vstd::prelude::*;
use crate::records::{DiskCounters, Float32, Float64};

verus! {

#[verifier::external_type_specification]
#[verifier::external_body]
pub struct ExSystem(sysinfo::System);

#[verifier::external_type_specification]
#[verifier::external_body]
pub struct ExCpu(sysinfo::Cpu);

#[verifier::external_type_specification]
#[verifier::external_body]
pub struct ExComponents(sysinfo::Components);

#[verifier::external_type_specification]
#[verifier::external_body]
pub struct ExComponent(sysinfo::Component);

#[verifier::external_type_specification]
#[verifier::external_body]
pub struct ExDisks(sysinfo::Disks);

#[verifier::external_type_specification]
#[verifier::external_body]
pub struct ExDisk(sysinfo::Disk);

#[verifier::external_type_specification]
#[verifier::external_body]
pub struct ExNetworks(sysinfo::Networks);

#[verifier::external_type_specification]
#[verifier::external_body]
pub struct ExNetworkData(sysinfo::NetworkData);

#[verifier::external_type_specification]
#[verifier::external_body]
pub struct ExProcess(sysinfo::Process);

#[verifier::external_type_specification]
#[verifier::external_body]
pub struct ExPid(sysinfo::Pid);

/// Relies on `System::new_all`: a system handle with every reading loaded once.
pub assume_specification[ sysinfo::System::new_all ]() -> sysinfo::System;

/// Relies on `System::refresh_cpu_all`: reloads the usage and frequency of every CPU.
pub assume_specification[ sysinfo::System::refresh_cpu_all ](s: &mut sysinfo::System);

/// Relies on `System::physical_core_count`: the physical core count, when known.
pub assume_specification[ sysinfo::System::physical_core_count ](s: &sysinfo::System) -> Option<
    usize,
>;

/// Relies on `System::cpus`: the logical CPUs of the last refresh.
pub assume_specification[ sysinfo::System::cpus ](s: &sysinfo::System) -> &[sysinfo::Cpu];

/// Relies on `Cpu::frequency`: the CPU frequency in MHz.
pub assume_specification[ sysinfo::Cpu::frequency ](c: &sysinfo::Cpu) -> u64;

/// Relies on `Cpu::vendor_id`: the vendor identifier.
pub assume_specification[ sysinfo::Cpu::vendor_id ](c: &sysinfo::Cpu) -> &str;

/// Relies on `Cpu::brand`: the brand string.
pub assume_specification[ sysinfo::Cpu::brand ](c: &sysinfo::Cpu) -> &str;

/// Relies on `System::refresh_memory`: reloads the RAM and swap counters.
pub assume_specification[ sysinfo::System::refresh_memory ](s: &mut sysinfo::System);

/// Relies on `System::total_memory`: RAM size in bytes.
pub assume_specification[ sysinfo::System::total_memory ](s: &sysinfo::System) -> u64;

/// Relies on `System::available_memory`: available RAM in bytes.
pub assume_specification[ sysinfo::System::available_memory ](s: &sysinfo::System) -> u64;

/// Relies on `System::used_memory`: used RAM in bytes.
pub assume_specification[ sysinfo::System::used_memory ](s: &sysinfo::System) -> u64;

/// Relies on `System::total_swap`: swap size in bytes.
pub assume_specification[ sysinfo::System::total_swap ](s: &sysinfo::System) -> u64;

/// Relies on `System::used_swap`: used swap in bytes.
pub assume_specification[ sysinfo::System::used_swap ](s: &sysinfo::System) -> u64;

/// Relies on `Pid::as_u32`: the numeric process id.
pub assume_specification[ sysinfo::Pid::as_u32 ](p: sysinfo::Pid) -> u32;

/// Relies on `Process::parent`: the parent process id, when the OS reports one.
pub assume_specification[ sysinfo::Process::parent ](p: &sysinfo::Process) -> Option<sysinfo::Pid>;

/// Relies on `Process::memory`: resident memory in bytes.
pub assume_specification[ sysinfo::Process::memory ](p: &sysinfo::Process) -> u64;

/// Relies on `Process::start_time`: start time in seconds since the epoch.
pub assume_specification[ sysinfo::Process::start_time ](p: &sysinfo::Process) -> u64;

/// Relies on `Process::run_time`: seconds since the process started.
pub assume_specification[ sysinfo::Process::run_time ](p: &sysinfo::Process) -> u64;

/// Relies on `System::name`: the OS name, when available.
pub assume_specification[ sysinfo::System::name ]() -> Option<String>;

/// Relies on `System::kernel_version`: the kernel version, when available.
pub assume_specification[ sysinfo::System::kernel_version ]() -> Option<String>;

/// Relies on `System::os_version`: the short OS version, when available.
pub assume_specification[ sysinfo::System::os_version ]() -> Option<String>;

/// Relies on `System::long_os_version`: the long OS version, when available.
pub assume_specification[ sysinfo::System::long_os_version ]() -> Option<String>;

/// Relies on `System::host_name`: the host name, when available.
pub assume_specification[ sysinfo::System::host_name ]() -> Option<String>;

/// Relies on `System::boot_time`: boot time in seconds since the epoch.
pub assume_specification[ sysinfo::System::boot_time ]() -> u64;

/// Relies on `System::uptime`: seconds since boot.
pub assume_specification[ sysinfo::System::uptime ]() -> u64;

/// Relies on `Components::new_with_refreshed_list`: the sensors present now.
pub assume_specification[ sysinfo::Components::new_with_refreshed_list ]() -> sysinfo::Components;

/// Relies on `Components::refresh`: reloads the sensor list and readings in place.
pub assume_specification[ sysinfo::Components::refresh ](
    c: &mut sysinfo::Components,
    remove_not_listed_components: bool,
);

/// Relies on `Components::list`: the sensors of the last refresh.
pub assume_specification[ sysinfo::Components::list ](c: &sysinfo::Components) -> &[sysinfo::Component];

/// Relies on `Component::label`: the sensor label.
pub assume_specification[ sysinfo::Component::label ](c: &sysinfo::Component) -> &str;

/// Relies on `Disks::new_with_refreshed_list`: the disks present now.
pub assume_specification[ sysinfo::Disks::new_with_refreshed_list ]() -> sysinfo::Disks;

/// Relies on `Disks::refresh`: reloads the disk list and counters in place, so that per-refresh counters cover the time since the previous refresh.
pub assume_specification[ sysinfo::Disks::refresh ](d: &mut sysinfo::Disks, remove_not_listed_disks: bool);

/// Relies on `Disks::list`: the disks of the last refresh.
pub assume_specification[ sysinfo::Disks::list ](d: &sysinfo::Disks) -> &[sysinfo::Disk];

/// Relies on `Networks::new_with_refreshed_list`: the interfaces present now.
pub assume_specification[ sysinfo::Networks::new_with_refreshed_list ]() -> sysinfo::Networks;

/// Relies on `Networks::refresh`: reloads the interface list and counters in place, so that per-refresh counters cover the time since the previous refresh.
pub assume_specification[ sysinfo::Networks::refresh ](
    n: &mut sysinfo::Networks,
    remove_not_listed_interfaces: bool,
);

/// Relies on `NetworkData::received`: bytes received since the previous refresh.
pub assume_specification[ sysinfo::NetworkData::received ](d: &sysinfo::NetworkData) -> u64;

/// Relies on `NetworkData::transmitted`: bytes sent since the previous refresh.
pub assume_specification[ sysinfo::NetworkData::transmitted ](d: &sysinfo::NetworkData) -> u64;

/// Relies on `NetworkData::total_received`: bytes received in all.
pub assume_specification[ sysinfo::NetworkData::total_received ](d: &sysinfo::NetworkData) -> u64;

/// Relies on `NetworkData::total_transmitted`: bytes sent in all.
pub assume_specification[ sysinfo::NetworkData::total_transmitted ](
    d: &sysinfo::NetworkData,
) -> u64;

/// Relies on `System::global_cpu_usage`: usage of all CPUs, as its bit pattern.
#[verifier::external_body]
pub(crate) fn global_cpu_usage(s: &sysinfo::System) -> Float32 {
    Float32 { bits: s.global_cpu_usage().to_bits() }
}

/// Relies on `Cpu::cpu_usage`: usage of one CPU, as its bit pattern.
#[verifier::external_body]
pub(crate) fn cpu_usage(c: &sysinfo::Cpu) -> Float32 {
    Float32 { bits: c.cpu_usage().to_bits() }
}

/// Relies on `Component::temperature`: the sensor's reading, if any, as its bit pattern.
#[verifier::external_body]
pub(crate) fn temperature(c: &sysinfo::Component) -> Option<Float32> {
    c.temperature().map(|t| Float32 { bits: t.to_bits() })
}

/// Relies on `Disk::name`: the name, when it is valid Unicode.
#[verifier::external_body]
pub(crate) fn disk_name(d: &sysinfo::Disk) -> Option<String> {
    d.name().to_str().map(|s| s.to_owned())
}

/// Relies on `Disk::mount_point`: the mount point, when it is valid Unicode.
#[verifier::external_body]
pub(crate) fn disk_mount_point(d: &sysinfo::Disk) -> Option<String> {
    d.mount_point().to_str().map(|s| s.to_owned())
}

/// Relies on `Disk::usage`: the four byte counters, field for field.
#[verifier::external_body]
pub(crate) fn disk_usage(d: &sysinfo::Disk) -> DiskCounters {
    let u = d.usage();
    DiskCounters {
        total_read_bytes: u.total_read_bytes,
        total_written_bytes: u.total_written_bytes,
        read_bytes: u.read_bytes,
        written_bytes: u.written_bytes,
    }
}

/// Relies on `Networks::list`: the interfaces and their data, in the map's order.
#[verifier::external_body]
pub(crate) fn interfaces<'a>(n: &'a sysinfo::Networks) -> Vec<(&'a String, &'a sysinfo::NetworkData)> {
    n.list().iter().collect()
}

/// Relies on `NetworkData::mac_address`: the address in its textual form.
#[verifier::external_body]
pub(crate) fn mac_address(d: &sysinfo::NetworkData) -> String {
    d.mac_address().to_string()
}

/// Relies on `System::refresh_processes`: refreshes every process and drops the dead ones.
#[verifier::external_body]
pub(crate) fn refresh_processes(s: &mut sysinfo::System) {
    s.refresh_processes(sysinfo::ProcessesToUpdate::All, true);
}

/// Relies on `System::processes`: the process table, in the map's order.
#[verifier::external_body]
pub(crate) fn processes<'a>(s: &'a sysinfo::System) -> Vec<(&'a sysinfo::Pid, &'a sysinfo::Process)> {
    s.processes().iter().collect()
}

/// Relies on `Process::name`: the name, with invalid Unicode replaced.
#[verifier::external_body]
pub(crate) fn process_name(p: &sysinfo::Process) -> String {
    p.name().to_string_lossy().to_string()
}

/// Relies on `Process::status`: the status in its textual form.
#[verifier::external_body]
pub(crate) fn process_status(p: &sysinfo::Process) -> String {
    p.status().to_string()
}

/// Relies on `Process::cpu_usage`: the process's CPU usage, as its bit pattern.
#[verifier::external_body]
pub(crate) fn process_cpu_usage(p: &sysinfo::Process) -> Float32 {
    Float32 { bits: p.cpu_usage().to_bits() }
}

/// Relies on `System::load_average`: the 1, 5 and 15 minute averages, as bit patterns.
#[verifier::external_body]
pub(crate) fn load_average() -> (Float64, Float64, Float64) {
    let l = sysinfo::System::load_average();
    (Float64 { bits: l.one.to_bits() }, Float64 { bits: l.five.to_bits() }, Float64 {
        bits: l.fifteen.to_bits(),
    })
}

} // verus!
