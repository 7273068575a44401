use std::collections::HashMap;

use host_telemetry::config::{Category, Config, OutputFormat};
use host_telemetry::records::Sample;
use host_telemetry::registry::LoggerCollection;
use host_telemetry::scheduler::{Action, Scheduler, SinkKind};

fn config(flags: [bool; 7], timeout: Option<u64>) -> Config {
    Config {
        cpu: flags[0],
        memory: flags[1],
        temperature: flags[2],
        disks: flags[3],
        networks: flags[4],
        processes: flags[5],
        system: flags[6],
        interval: 100,
        timeout,
        format: OutputFormat::Both,
        path: "output.mcap".to_string(),
        overwrite: false,
    }
}

fn categories(samples: &[Sample]) -> Vec<Category> {
    samples.iter().map(|s| s.category()).collect()
}

#[test]
fn nothing_enabled_samples_nothing() {
    let mut lc = LoggerCollection::new(&config([false; 7], None));
    assert!(lc.log_all().is_empty());
    assert!(lc.log_all().is_empty());
}

#[test]
fn samples_enabled_categories_every_tick() {
    let c = config([false, true, false, true, true, false, true], None);
    let mut lc = LoggerCollection::new(&c);
    for _ in 0..3 {
        let samples = lc.log_all();
        assert_eq!(
            categories(&samples),
            vec![Category::Memory, Category::Disks, Category::Networks, Category::System]
        );
    }
}

#[test]
fn system_record_has_no_empty_identity() {
    let mut lc = LoggerCollection::new(&config([false, false, false, false, false, false, true], None));
    match &lc.log_all()[0] {
        Sample::System(s) => {
            assert!(!s.name.is_empty());
            assert_eq!(s.kernel, s.kernel_version);
        }
        other => panic!("unexpected record {:?}", other.category()),
    }
}

#[test]
fn end_to_end_cpu_and_memory_for_five_ticks() {
    let c = config([true, true, false, false, false, false, false], Some(5));
    let mut sched = Scheduler::new(&c, false).unwrap();
    let mut lc = LoggerCollection::new(&c);
    let mut published: HashMap<(SinkKind, &'static str), usize> = HashMap::new();
    let mut exit = None;
    let mut steps = 0;
    while exit.is_none() {
        steps += 1;
        assert!(steps < 100);
        match sched.step(true, false) {
            Action::Sample => {
                let targets = sched.publish_targets();
                assert_eq!(targets, vec![SinkKind::Live, SinkKind::Durable]);
                for s in lc.log_all() {
                    for t in &targets {
                        *published.entry((*t, s.category().topic())).or_insert(0) += 1;
                    }
                }
            }
            Action::Sleep(ms) => assert_eq!(ms, 100),
            Action::Exit(f) => exit = Some(f),
            _ => {}
        }
    }
    assert_eq!(exit, Some(None));
    assert_eq!(published.len(), 4);
    for sink in [SinkKind::Live, SinkKind::Durable] {
        assert_eq!(published[&(sink, "/cpu")], 5);
        assert_eq!(published[&(sink, "/memory")], 5);
    }
}
