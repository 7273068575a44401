use host_telemetry::config::{Category, Config, OutputFormat};

fn config(flags: [bool; 7]) -> Config {
    Config {
        cpu: flags[0],
        memory: flags[1],
        temperature: flags[2],
        disks: flags[3],
        networks: flags[4],
        processes: flags[5],
        system: flags[6],
        interval: 1000,
        timeout: None,
        format: OutputFormat::Both,
        path: "output.mcap".to_string(),
        overwrite: false,
    }
}

#[test]
fn enabled_categories_in_fixed_order() {
    let c = config([true, false, true, false, true, false, true]);
    assert_eq!(
        c.enabled_categories(),
        vec![Category::Cpu, Category::Components, Category::Networks, Category::System]
    );
    let c = config([false, true, false, true, false, true, false]);
    assert_eq!(c.enabled_categories(), vec![Category::Memory, Category::Disks, Category::Processes]);
}

#[test]
fn all_or_nothing_enabled() {
    assert!(config([false; 7]).enabled_categories().is_empty());
    assert_eq!(
        config([true; 7]).enabled_categories(),
        vec![
            Category::Cpu,
            Category::Memory,
            Category::Components,
            Category::Disks,
            Category::Networks,
            Category::Processes,
            Category::System,
        ]
    );
}

#[test]
fn topics_per_category() {
    assert_eq!(Category::Cpu.topic(), "/cpu");
    assert_eq!(Category::Memory.topic(), "/memory");
    assert_eq!(Category::Components.topic(), "/components");
    assert_eq!(Category::Disks.topic(), "/disks");
    assert_eq!(Category::Networks.topic(), "/networks");
    assert_eq!(Category::Processes.topic(), "/processes");
    assert_eq!(Category::System.topic(), "/system");
}

#[test]
fn formats_select_sinks() {
    assert!(OutputFormat::Both.has_live() && OutputFormat::Both.has_durable());
    assert!(OutputFormat::Websocket.has_live() && !OutputFormat::Websocket.has_durable());
    assert!(!OutputFormat::Mcap.has_live() && OutputFormat::Mcap.has_durable());
}
