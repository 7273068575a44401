use host_telemetry::config::{Config, OutputFormat};
use host_telemetry::scheduler::{Action, Failure, Phase, Scheduler, SinkKind, StartupError};

fn config(format: OutputFormat, timeout: Option<u64>, overwrite: bool) -> Config {
    Config {
        cpu: true,
        memory: false,
        temperature: false,
        disks: false,
        networks: false,
        processes: false,
        system: false,
        interval: 100,
        timeout,
        format,
        path: "output.mcap".to_string(),
        overwrite,
    }
}

#[test]
fn existing_target_without_overwrite_is_refused() {
    let r = Scheduler::new(&config(OutputFormat::Mcap, None, false), true);
    assert_eq!(r.err(), Some(StartupError::TargetExists));
    let r = Scheduler::new(&config(OutputFormat::Both, None, false), true);
    assert_eq!(r.err(), Some(StartupError::TargetExists));
}

#[test]
fn existing_target_ignored_without_durable_sink() {
    let mut s = Scheduler::new(&config(OutputFormat::Websocket, None, false), true).unwrap();
    assert_eq!(s.step(true, false), Action::OpenLive);
    assert_eq!(s.step(true, false), Action::Sample);
}

#[test]
fn overwrite_removes_then_opens_durable() {
    let mut s = Scheduler::new(&config(OutputFormat::Both, None, true), true).unwrap();
    assert_eq!(s.current_phase(), Phase::Starting);
    assert_eq!(s.step(true, false), Action::OpenLive);
    assert_eq!(s.step(true, false), Action::RemoveTarget);
    assert_eq!(s.step(true, false), Action::OpenDurable);
    assert_eq!(s.step(true, false), Action::Sample);
    assert_eq!(s.current_phase(), Phase::Running);
    assert_eq!(s.publish_targets(), vec![SinkKind::Live, SinkKind::Durable]);
}

#[test]
fn fresh_target_is_not_removed() {
    let mut s = Scheduler::new(&config(OutputFormat::Mcap, None, true), false).unwrap();
    assert_eq!(s.step(true, false), Action::OpenDurable);
    assert_eq!(s.step(true, false), Action::Sample);
    assert_eq!(s.publish_targets(), vec![SinkKind::Durable]);
}

#[test]
fn cancellation_mid_sleep_closes_each_sink_once() {
    let mut s = Scheduler::new(&config(OutputFormat::Both, None, false), false).unwrap();
    assert_eq!(s.step(true, false), Action::OpenLive);
    assert_eq!(s.step(true, false), Action::OpenDurable);
    assert_eq!(s.step(true, false), Action::Sample);
    assert_eq!(s.step(true, false), Action::Sleep(100));
    assert_eq!(s.step(true, true), Action::CloseLive);
    assert_eq!(s.current_phase(), Phase::Draining);
    assert_eq!(s.step(true, true), Action::CloseDurable);
    assert_eq!(s.step(true, true), Action::Exit(None));
    assert_eq!(s.current_phase(), Phase::Stopped);
    assert_eq!(s.step(true, true), Action::Exit(None));
    assert!(s.publish_targets().is_empty());
}

#[test]
fn cancellation_is_seen_only_at_tick_start() {
    let mut s = Scheduler::new(&config(OutputFormat::Websocket, None, false), false).unwrap();
    assert_eq!(s.step(true, false), Action::OpenLive);
    assert_eq!(s.step(true, false), Action::Sample);
    // a request arriving while sampling lets the tick finish
    assert_eq!(s.step(true, true), Action::Sleep(100));
    assert_eq!(s.step(true, true), Action::CloseLive);
    assert_eq!(s.step(true, true), Action::Exit(None));
}

#[test]
fn live_open_failure_aborts_before_running() {
    let mut s = Scheduler::new(&config(OutputFormat::Both, None, false), false).unwrap();
    assert_eq!(s.step(true, false), Action::OpenLive);
    assert_eq!(s.step(false, false), Action::Exit(Some(Failure::LiveOpen)));
}

#[test]
fn durable_open_failure_closes_live_first() {
    let mut s = Scheduler::new(&config(OutputFormat::Both, None, false), false).unwrap();
    assert_eq!(s.step(true, false), Action::OpenLive);
    assert_eq!(s.step(true, false), Action::OpenDurable);
    assert_eq!(s.step(false, false), Action::CloseLive);
    assert_eq!(s.step(true, false), Action::Exit(Some(Failure::DurableOpen)));
}

#[test]
fn removal_failure_is_fatal() {
    let mut s = Scheduler::new(&config(OutputFormat::Mcap, None, true), true).unwrap();
    assert_eq!(s.step(true, false), Action::RemoveTarget);
    assert_eq!(s.step(false, false), Action::Exit(Some(Failure::TargetRemoval)));
}

#[test]
fn durable_close_failure_is_fatal_live_close_is_not() {
    let mut s = Scheduler::new(&config(OutputFormat::Both, Some(0), false), false).unwrap();
    assert_eq!(s.step(true, false), Action::OpenLive);
    assert_eq!(s.step(true, false), Action::OpenDurable);
    assert_eq!(s.step(true, false), Action::CloseLive);
    assert_eq!(s.step(false, false), Action::CloseDurable);
    assert_eq!(s.step(false, false), Action::Exit(Some(Failure::DurableClose)));
}

#[test]
fn timeout_counts_ticks() {
    let mut s = Scheduler::new(&config(OutputFormat::Websocket, Some(3), false), false).unwrap();
    let mut samples = 0;
    let mut steps = 0;
    loop {
        match s.step(true, false) {
            Action::Sample => samples += 1,
            Action::Exit(f) => {
                assert_eq!(f, None);
                break;
            }
            _ => {}
        }
        steps += 1;
        assert!(steps < 100);
    }
    assert_eq!(samples, 3);
}
