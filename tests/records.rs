use host_telemetry::records::{
    component_stats, cpu_stats, decimal_text, disk_stats, memory_stats, or_placeholder,
    or_unknown, parent_pid_text, physical_cores_from, process_stats, system_stats, to_kib,
    CoreStats, DiskCounters, Float32, Float64,
};

#[test]
fn kib_rounds_down() {
    assert_eq!(to_kib(0), 0);
    assert_eq!(to_kib(1023), 0);
    assert_eq!(to_kib(1024), 1);
    assert_eq!(to_kib(3 * 1024 + 1000), 3);
    assert_eq!(to_kib(u64::MAX), u64::MAX / 1024);
}

#[test]
fn decimal_text_of_edges() {
    assert_eq!(decimal_text(0), "0");
    assert_eq!(decimal_text(7), "7");
    assert_eq!(decimal_text(10), "10");
    assert_eq!(decimal_text(1234), "1234");
    assert_eq!(decimal_text(u32::MAX), "4294967295");
}

#[test]
fn parent_pid_falls_back_to_unknown() {
    assert_eq!(parent_pid_text(None), "Unknown");
    assert_eq!(parent_pid_text(Some(1)), "1");
    assert_eq!(parent_pid_text(Some(4071)), "4071");
}

#[test]
fn physical_cores_best_effort() {
    assert_eq!(physical_cores_from(Some(8)), 8);
    assert_eq!(physical_cores_from(Some(65535)), 65535);
    assert_eq!(physical_cores_from(Some(65536)), 0);
    assert_eq!(physical_cores_from(None), 0);
}

#[test]
fn text_fallbacks() {
    assert_eq!(or_unknown(None), "Unknown");
    assert_eq!(or_unknown(Some("sda1".to_string())), "sda1");
    assert_eq!(or_placeholder(None), "<unknown>");
    assert_eq!(or_placeholder(Some("Linux".to_string())), "Linux");
}

#[test]
fn sensor_without_temperature_reads_zero() {
    let c = component_stats("acpitz".to_string(), None);
    assert_eq!(c.label, "acpitz");
    assert_eq!(f32::from_bits(c.temperature.bits), 0.0);
    let t = Float32 { bits: 41.5f32.to_bits() };
    let c = component_stats("coretemp".to_string(), Some(t));
    assert_eq!(f32::from_bits(c.temperature.bits), 41.5);
}

#[test]
fn disk_record_maps_counters_and_names() {
    let usage = DiskCounters {
        total_read_bytes: 10 * 1024,
        total_written_bytes: 20 * 1024 + 5,
        read_bytes: 2048,
        written_bytes: 1023,
    };
    let d = disk_stats(None, Some("/".to_string()), usage);
    assert_eq!(d.name, "Unknown");
    assert_eq!(d.mount_point, "/");
    assert_eq!(d.total_read_kb, 10);
    assert_eq!(d.total_written_kb, 20);
    assert_eq!(d.read_kb, 2);
    assert_eq!(d.written_kb, 0);
    let d = disk_stats(Some("nvme0n1".to_string()), None, usage);
    assert_eq!(d.name, "nvme0n1");
    assert_eq!(d.mount_point, "Unknown");
}

#[test]
fn memory_record_in_kib() {
    let m = memory_stats(16 * 1024 * 1024 * 1024, 8 * 1024 * 1024, 4096, 0, 1500);
    assert_eq!(m.total_kb, 16 * 1024 * 1024);
    assert_eq!(m.available_kb, 8 * 1024);
    assert_eq!(m.used_kb, 4);
    assert_eq!(m.swap_total_kb, 0);
    assert_eq!(m.swap_used_kb, 1);
}

#[test]
fn process_without_parent_reads_unknown() {
    let usage = Float32 { bits: 12.5f32.to_bits() };
    let p = process_stats(42, None, "init".to_string(), "Sleeping".to_string(), usage, 5 * 1024, 100, 7);
    assert_eq!(p.pid, 42);
    assert_eq!(p.parent_pid, "Unknown");
    assert_eq!(p.name, "init");
    assert_eq!(p.status, "Sleeping");
    assert_eq!(f32::from_bits(p.cpu_usage.bits), 12.5);
    assert_eq!(p.memory_usage_kb, 5);
    assert_eq!(p.start_time_seconds, 100);
    assert_eq!(p.run_time_seconds, 7);
    let p = process_stats(43, Some(42), "sh".to_string(), "Run".to_string(), usage, 0, 0, 0);
    assert_eq!(p.parent_pid, "42");
}

#[test]
fn system_record_placeholders() {
    let load = (
        Float64 { bits: 0.5f64.to_bits() },
        Float64 { bits: 1.25f64.to_bits() },
        Float64 { bits: 2.0f64.to_bits() },
    );
    let s = system_stats(None, Some("6.1.0".to_string()), None, None, Some("box".to_string()), 1000, 60, load);
    assert_eq!(s.name, "<unknown>");
    assert_eq!(s.kernel_version, "6.1.0");
    assert_eq!(s.kernel, "6.1.0");
    assert_eq!(s.os_version, "<unknown>");
    assert_eq!(s.os_long_version, "<unknown>");
    assert_eq!(s.host_name, "box");
    assert_eq!(s.boot_time_seconds, 1000);
    assert_eq!(s.uptime_seconds, 60);
    assert_eq!(f64::from_bits(s.load_avg_one.bits), 0.5);
    assert_eq!(f64::from_bits(s.load_avg_five.bits), 1.25);
    assert_eq!(f64::from_bits(s.load_avg_fifteen.bits), 2.0);
    let s = system_stats(None, None, None, None, None, 0, 0, load);
    assert_eq!(s.kernel, "<unknown>");
    assert_eq!(s.host_name, "<unknown>");
}

#[test]
fn cpu_record_keeps_cores() {
    let core = CoreStats {
        usage: Float32 { bits: 3.0f32.to_bits() },
        frequency_mhz: 2400,
        vendor_id: "GenuineIntel".to_string(),
        brand: "Xeon".to_string(),
    };
    let c = cpu_stats(Float32 { bits: 3.0f32.to_bits() }, Some(4), vec![core.clone(), core]);
    assert_eq!(c.physical_cores, 4);
    assert_eq!(c.cores.len(), 2);
    assert_eq!(c.cores[1].frequency_mhz, 2400);
    assert_eq!(f32::from_bits(c.usage.bits), 3.0);
    let c = cpu_stats(Float32 { bits: 0 }, None, Vec::new());
    assert_eq!(c.physical_cores, 0);
}
