//! The source registry: the enabled metric sources of a run and their
//! provider handles, sampled in the fixed category order.

use vstd::prelude::*;
use crate::config::{Category, Config};
use crate::provider::{
    cpu_usage, disk_mount_point, disk_name, disk_usage, global_cpu_usage, interfaces,
    load_average, mac_address, process_cpu_usage, process_name, process_status, processes,
    refresh_processes, temperature,
};
use crate::records::{
    component_stats, cpu_stats, disk_stats, memory_stats, process_stats, system_stats,
    ComponentStats, ComponentsStats, CoreStats, CpuStats, DiskStats, DisksStats, MemoryStats,
    NetworkStats, NetworksStats, ProcessStats, ProcessesStats, Sample, SystemStats,
};
use sysinfo::{Components, Disks, Networks, System};

verus! {

/// The metric sources of one run. Handles are created once, for enabled
/// categories only, and refreshed in place on every tick. CPU, memory and
/// process sampling share one system handle.
pub struct LoggerCollection {
    categories: Vec<Category>,
    system: Option<System>,
    temperature: Option<Components>,
    disks: Option<Disks>,
    networks: Option<Networks>,
    sampled: Ghost<Seq<Category>>,
}

/// Whether `c` reads from the shared system handle.
pub open spec fn uses_shared_handle(c: Category) -> bool {
    c is Cpu || c is Memory || c is Processes
}

impl LoggerCollection {
    /// The enabled categories, in sampling order.
    pub closed spec fn categories(self) -> Seq<Category> {
        self.categories@
    }

    /// Every category sampled so far, one entry per sampling, in order.
    pub closed spec fn sampled(self) -> Seq<Category> {
        self.sampled@
    }

    /// Whether a provider handle serving `c` exists.
    pub closed spec fn holds_handle(self, c: Category) -> bool {
        match c {
            Category::Components => self.temperature is Some,
            Category::Disks => self.disks is Some,
            Category::Networks => self.networks is Some,
            Category::System => false,
            _ => self.system is Some,
        }
    }

    pub closed spec fn wf(self) -> bool {
        &&& self.categories@.no_duplicates()
        &&& (self.system is Some <==> exists|c: Category|
            #![trigger self.categories@.contains(c)]
            uses_shared_handle(c) && self.categories@.contains(c))
        &&& (self.temperature is Some <==> self.categories@.contains(Category::Components))
        &&& (self.disks is Some <==> self.categories@.contains(Category::Disks))
        &&& (self.networks is Some <==> self.categories@.contains(Category::Networks))
        &&& forall|i: int|
            0 <= i < self.sampled@.len() ==> self.categories@.contains(#[trigger] self.sampled@[i])
    }

    /// Builds the sources of the enabled categories, and no others.
    pub fn new(config: &Config) -> (r: Self)
        ensures
            r.wf(),
            r.categories() == config.enabled_seq(),
            r.sampled() == Seq::<Category>::empty(),
    {
        let categories = config.enabled_categories();
        proof {
            crate::config::enabled_in_fixed_order(*config);
        }
        let shared = config.cpu || config.memory || config.processes;
        let system = if shared {
            Some(System::new_all())
        } else {
            None
        };
        let temperature = if config.temperature {
            Some(Components::new_with_refreshed_list())
        } else {
            None
        };
        let disks = if config.disks {
            Some(Disks::new_with_refreshed_list())
        } else {
            None
        };
        let networks = if config.networks {
            Some(Networks::new_with_refreshed_list())
        } else {
            None
        };
        let r = LoggerCollection {
            categories,
            system,
            temperature,
            disks,
            networks,
            sampled: Ghost(Seq::empty()),
        };
        proof {
            assert(config.enabled(Category::Cpu) == config.cpu);
            assert(config.enabled(Category::Memory) == config.memory);
            assert(config.enabled(Category::Processes) == config.processes);
            assert(config.enabled(Category::Components) == config.temperature);
            assert(config.enabled(Category::Disks) == config.disks);
            assert(config.enabled(Category::Networks) == config.networks);
            if shared {
                if config.cpu {
                    assert(r.categories@.contains(Category::Cpu));
                } else if config.memory {
                    assert(r.categories@.contains(Category::Memory));
                } else {
                    assert(r.categories@.contains(Category::Processes));
                }
            }
        }
        r
    }

    /// Samples every enabled category once, refreshing its provider first,
    /// and returns one record per enabled category in the fixed order.
    pub fn log_all(&mut self) -> (r: Vec<Sample>)
        requires
            old(self).wf(),
        ensures
            final(self).wf(),
            final(self).categories() == old(self).categories(),
            final(self).sampled() == old(self).sampled() + old(self).categories(),
            r@.len() == old(self).categories().len(),
            forall|i: int| 0 <= i < r@.len() ==> (#[trigger] r@[i]).spec_category() == old(
                self,
            ).categories()[i],
    {
        let ghost start = self.sampled@;
        let mut out: Vec<Sample> = Vec::new();
        let n = self.categories.len();
        let mut i: usize = 0;
        while i < n
            invariant
                self.wf(),
                n == self.categories@.len(),
                self.categories@ == old(self).categories@,
                i <= n,
                out@.len() == i,
                self.sampled@ == start + self.categories@.subrange(0, i as int),
                forall|j: int| 0 <= j < i ==> (#[trigger] out@[j]).spec_category() == self.categories@[j],
            decreases n - i,
        {
            let c = self.categories[i];
            assert(self.categories@.contains(c));
            match c {
                Category::Cpu => {
                    if let Some(system) = &mut self.system {
                        out.push(Sample::Cpu(sample_cpu(system)));
                    }
                },
                Category::Memory => {
                    if let Some(system) = &mut self.system {
                        out.push(Sample::Memory(sample_memory(system)));
                    }
                },
                Category::Components => {
                    if let Some(components) = &mut self.temperature {
                        out.push(Sample::Components(sample_components(components)));
                    }
                },
                Category::Disks => {
                    if let Some(disks) = &mut self.disks {
                        out.push(Sample::Disks(sample_disks(disks)));
                    }
                },
                Category::Networks => {
                    if let Some(networks) = &mut self.networks {
                        out.push(Sample::Networks(sample_networks(networks)));
                    }
                },
                Category::Processes => {
                    if let Some(system) = &mut self.system {
                        out.push(Sample::Processes(sample_processes(system)));
                    }
                },
                Category::System => {
                    out.push(Sample::System(sample_system()));
                },
            }
            proof {
                self.sampled@ = self.sampled@.push(c);
                assert(self.categories@.subrange(0, i + 1) == self.categories@.subrange(
                    0,
                    i as int,
                ).push(c));
            }
            i = i + 1;
        }
        proof {
            assert(self.categories@.subrange(0, n as int) == self.categories@);
        }
        out
    }
}

/// A disabled category is never built and never sampled: the registry holds
/// no dedicated handle for it, holds the shared handle only if another
/// category needs it, and it never appears among the sampled categories.
pub proof fn disabled_never_sampled(lc: LoggerCollection, c: Category)
    requires
        lc.wf(),
        !lc.categories().contains(c),
    ensures
        !lc.sampled().contains(c),
        !uses_shared_handle(c) ==> !lc.holds_handle(c),
        lc.holds_handle(c) ==> exists|d: Category|
            #![trigger lc.categories().contains(d)]
            uses_shared_handle(d) && lc.categories().contains(d),
{
    if lc.sampled().contains(c) {
        let i = choose|i: int| 0 <= i < lc.sampled().len() && lc.sampled()[i] == c;
        assert(lc.categories().contains(lc.sampled@[i]));
    }
}

fn sample_cpu(system: &mut System) -> CpuStats {
    system.refresh_cpu_all();
    let usage = global_cpu_usage(system);
    let physical = system.physical_core_count();
    let cpus = system.cpus();
    let mut cores: Vec<CoreStats> = Vec::new();
    let mut i: usize = 0;
    while i < cpus.len()
        decreases cpus.len() - i,
    {
        let c = &cpus[i];
        cores.push(
            CoreStats {
                usage: cpu_usage(c),
                frequency_mhz: c.frequency(),
                vendor_id: c.vendor_id().to_owned(),
                brand: c.brand().to_owned(),
            },
        );
        i = i + 1;
    }
    cpu_stats(usage, physical, cores)
}

fn sample_memory(system: &mut System) -> MemoryStats {
    system.refresh_memory();
    memory_stats(
        system.total_memory(),
        system.available_memory(),
        system.used_memory(),
        system.total_swap(),
        system.used_swap(),
    )
}

fn sample_components(components: &mut Components) -> ComponentsStats {
    components.refresh(true);
    let list = components.list();
    let mut out: Vec<ComponentStats> = Vec::new();
    let mut i: usize = 0;
    while i < list.len()
        decreases list.len() - i,
    {
        let c = &list[i];
        out.push(component_stats(c.label().to_owned(), temperature(c)));
        i = i + 1;
    }
    ComponentsStats { components: out }
}

fn sample_disks(disks: &mut Disks) -> DisksStats {
    disks.refresh(true);
    let list = disks.list();
    let mut out: Vec<DiskStats> = Vec::new();
    let mut i: usize = 0;
    while i < list.len()
        decreases list.len() - i,
    {
        let d = &list[i];
        out.push(disk_stats(disk_name(d), disk_mount_point(d), disk_usage(d)));
        i = i + 1;
    }
    DisksStats { disks: out }
}

fn sample_networks(networks: &mut Networks) -> NetworksStats {
    networks.refresh(true);
    let list = interfaces(networks);
    let mut out: Vec<NetworkStats> = Vec::new();
    let mut i: usize = 0;
    while i < list.len()
        decreases list.len() - i,
    {
        let (name, data) = list[i];
        out.push(
            NetworkStats {
                interface_name: name.clone(),
                mac_address: mac_address(data),
                received: data.received(),
                transmitted: data.transmitted(),
                total_received: data.total_received(),
                total_transmitted: data.total_transmitted(),
            },
        );
        i = i + 1;
    }
    NetworksStats { networks: out }
}

fn sample_processes(system: &mut System) -> ProcessesStats {
    refresh_processes(system);
    let list = processes(system);
    let mut out: Vec<ProcessStats> = Vec::new();
    let mut i: usize = 0;
    while i < list.len()
        decreases list.len() - i,
    {
        let (pid, process) = list[i];
        let parent = match process.parent() {
            Some(p) => Some(p.as_u32()),
            None => None,
        };
        out.push(
            process_stats(
                pid.as_u32(),
                parent,
                process_name(process),
                process_status(process),
                process_cpu_usage(process),
                process.memory(),
                process.start_time(),
                process.run_time(),
            ),
        );
        i = i + 1;
    }
    ProcessesStats { processes: out }
}

fn sample_system() -> SystemStats {
    system_stats(
        System::name(),
        System::kernel_version(),
        System::os_version(),
        System::long_os_version(),
        System::host_name(),
        System::boot_time(),
        System::uptime(),
        load_average(),
    )
}

} // verus!
