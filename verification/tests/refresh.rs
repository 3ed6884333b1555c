use sysinfo_applet::command::CommandOutput;
use sysinfo_applet::config::SysInfoConfig;
use sysinfo_applet::data::Data;
use sysinfo_applet::network::{InterfaceEntry, NetworkSample};
use sysinfo_applet::public_ip::IpVersion;
use sysinfo_applet::reading::{rounds_to, Speed};
use sysinfo_applet::refresh::{retry_at, Action, Event, Refresh};
use sysinfo_applet::sensors::Component;
use sysinfo_applet::system::SystemSample;
use sysinfo_applet::template::{Requires, Variable};

const SECOND: u128 = 1_000_000_000;

const ALL: [Variable; 9] = [
    Variable::CpuUsage,
    Variable::RamUsage,
    Variable::CpuTemp,
    Variable::GpuTemp,
    Variable::GpuUsage,
    Variable::DlSpeed,
    Variable::UlSpeed,
    Variable::PublicIpv4,
    Variable::PublicIpv6,
];

fn wanted(variables: &[Variable]) -> Requires {
    let mut set = Requires::nothing();
    for variable in variables {
        set.insert(*variable);
    }
    set
}

fn config() -> SysInfoConfig {
    SysInfoConfig {
        include_swap_in_ram: false,
        include_interfaces: None,
        exclude_interfaces: None,
    }
}

/// A machine that answers what it is asked, and keeps a record of it.
struct Machine {
    interfaces: Vec<(&'static str, bool)>,
    components: Vec<(&'static str, Option<f32>)>,
    contents: Vec<&'static str>,
    nvidia: Option<(Option<f32>, Option<u64>)>,
    ipv4: Option<&'static str>,
    ipv6: Option<&'static str>,
    asked: Vec<String>,
}

fn machine() -> Machine {
    Machine {
        interfaces: vec![("eth0", true), ("lo", false)],
        components: vec![("coretemp", Some(55.5)), ("amdgpu edge", Some(44.0))],
        contents: vec!["31\n"],
        nvidia: Some((Some(70.0), Some(80))),
        ipv4: Some("203.0.113.7\n"),
        ipv6: Some("2001:db8::1\n"),
        asked: Vec::new(),
    }
}

/// So many bytes, divided by a million, in tenths: the digits that are shown of the quotient.
fn tenths(bytes: u64) -> u64 {
    let megabytes = bytes as f64 / 1_000_000.0;
    format!("{megabytes:.1}").replace('.', "").parse().unwrap()
}

fn printed(text: Option<&'static str>) -> Option<CommandOutput> {
    text.map(|t| CommandOutput { success: true, stdout: t.as_bytes().to_vec() })
}

impl Machine {
    fn entries(&self) -> Vec<InterfaceEntry> {
        self.interfaces
            .iter()
            .map(|(name, has_device)| InterfaceEntry {
                name: name.to_string(),
                has_device: *has_device,
            })
            .collect()
    }

    fn refresh(&mut self, data: &mut Data<f32>, set: Requires, config: &SysInfoConfig, now: u128) {
        self.asked.clear();
        let mut run = Refresh::new(set, config);
        let mut event = Event::Started;
        loop {
            assert!(run.accepts(data, &event));
            event = match run.step(data, event, now) {
                Action::ScanInterfaces => {
                    self.asked.push("interfaces".to_string());
                    Event::Interfaces(self.entries())
                }
                Action::RefreshSystem(_) => {
                    self.asked.push("system".to_string());
                    Event::System(SystemSample {
                        global_cpu_usage: 12.5,
                        used_memory: 1,
                        total_memory: 4,
                        used_swap: 3,
                        total_swap: 4,
                    })
                }
                Action::RefreshNetworks => {
                    self.asked.push("networks".to_string());
                    Event::Networks(vec![
                        NetworkSample { name: "lo".to_string(), transmitted: 9, received: 9 },
                        NetworkSample {
                            name: "eth0".to_string(),
                            transmitted: 100,
                            received: 2_340_000,
                        },
                    ])
                }
                Action::RoundTraffic { received, transmitted } => {
                    self.asked.push("rounding".to_string());
                    Event::Rounded { received: tenths(received), transmitted: tenths(transmitted) }
                }
                Action::RefreshComponents => {
                    self.asked.push("components".to_string());
                    Event::Components(
                        self.components
                            .iter()
                            .map(|(label, temperature)| Component {
                                label: label.to_string(),
                                temperature: *temperature,
                            })
                            .collect(),
                    )
                }
                Action::ReadGpuUsage => {
                    self.asked.push("usage".to_string());
                    Event::GpuUsage(self.contents.iter().map(|c| c.to_string()).collect())
                }
                Action::QueryNvidiaSmi => {
                    self.asked.push("nvidia".to_string());
                    Event::Nvidia(self.nvidia)
                }
                Action::FetchPublicIp(IpVersion::V4) => {
                    self.asked.push("v4".to_string());
                    Event::PublicIp(printed(self.ipv4))
                }
                Action::FetchPublicIp(IpVersion::V6) => {
                    self.asked.push("v6".to_string());
                    Event::PublicIp(printed(self.ipv6))
                }
                Action::Done => return,
            };
        }
    }
}

#[test]
fn new_data_knows_nothing() {
    let data = Data::<f32>::new(&config(), &machine().entries(), 5);
    assert_eq!(data.physical_interfaces, ["eth0"]);
    assert_eq!(data.last_interface_scan, 5);
    assert_eq!(data.next_ip_fetch, 5);
    assert_eq!(data.cpu_usage, None);
    assert_eq!(data.ram_usage, None);
    assert_eq!(data.download_speed, None);
    assert_eq!(data.upload_speed, None);
    assert_eq!(data.cpu_temp, None);
    assert_eq!(data.gpu_temp, None);
    assert_eq!(data.gpu_usage, None);
    assert_eq!(data.public_ipv4, None);
    assert_eq!(data.public_ipv6, None);
    assert_eq!(data.ip_backoff.max_interval, std::time::Duration::from_secs(300));
    assert_eq!(data.ip_backoff.multiplier, 2.0);
    assert_eq!(data.ip_backoff.max_elapsed_time, None);
    assert_eq!(data.ip_backoff.randomization_factor, 0.5);
    assert_eq!(data.ip_backoff.initial_interval, std::time::Duration::from_millis(500));
    assert_eq!(data.ip_backoff.current_interval, std::time::Duration::from_millis(500));
}

#[test]
fn a_full_refresh_reads_everything() {
    let mut machine = machine();
    let mut data = Data::<f32>::new(&config(), &vec![], 0);
    machine.refresh(&mut data, wanted(&ALL), &config(), 11 * SECOND);
    assert_eq!(
        machine.asked,
        [
            "interfaces", "system", "networks", "rounding", "components", "usage", "v4", "v6"
        ]
    );
    assert_eq!(data.physical_interfaces, ["eth0"]);
    assert_eq!(data.last_interface_scan, 11 * SECOND);
    assert_eq!(data.cpu_usage, Some(12.5));
    assert_eq!(data.ram_usage, Some(25));
    assert_eq!(data.download_speed, Some(Speed { bytes: 2_340_000, tenths: 23 }));
    assert_eq!(data.upload_speed, Some(Speed { bytes: 100, tenths: 0 }));
    assert_eq!(data.cpu_temp, Some(55.5));
    assert_eq!(data.gpu_temp, Some(44.0));
    assert_eq!(data.gpu_usage, Some(31));
    assert_eq!(data.public_ipv4.as_deref(), Some("203.0.113.7"));
    assert_eq!(data.public_ipv6.as_deref(), Some("2001:db8::1"));
    assert_eq!(data.next_ip_fetch, 311 * SECOND);
}

#[test]
fn only_what_is_wanted_is_asked_and_kept() {
    let expected: [&[&str]; 9] = [
        &["system"],
        &["system"],
        &["system", "components"],
        &["system", "components"],
        &["system", "usage"],
        &["interfaces", "system", "networks", "rounding"],
        &["interfaces", "system", "networks", "rounding"],
        &["system", "v4"],
        &["system", "v6"],
    ];
    for (variable, asked) in ALL.iter().zip(expected) {
        let mut machine = machine();
        let mut data = Data::<f32>::new(&config(), &vec![], 0);
        machine.refresh(&mut data, wanted(&ALL), &config(), 11 * SECOND);
        data.public_ipv4 = if *variable == Variable::PublicIpv4 { None } else { data.public_ipv4 };
        data.public_ipv6 = if *variable == Variable::PublicIpv6 { None } else { data.public_ipv6 };
        machine.refresh(&mut data, wanted(&[*variable]), &config(), 22 * SECOND);
        assert_eq!(machine.asked, asked);
        let known = [
            data.cpu_usage.is_some(),
            data.ram_usage.is_some(),
            data.cpu_temp.is_some(),
            data.gpu_temp.is_some(),
            data.gpu_usage.is_some(),
            data.download_speed.is_some(),
            data.upload_speed.is_some(),
            data.public_ipv4.is_some(),
            data.public_ipv6.is_some(),
        ];
        for (other, is_known) in ALL.iter().zip(known) {
            assert_eq!(is_known, other == variable);
        }
    }
}

#[test]
fn readings_do_not_depend_on_those_before() {
    let mut machine = machine();
    let set = wanted(&[Variable::CpuUsage, Variable::GpuTemp, Variable::GpuUsage]);
    let mut data = Data::<f32>::new(&config(), &vec![], 0);
    let mut other = Data::<f32>::new(&config(), &vec![], 0);
    other.cpu_usage = Some(99.0);
    other.ram_usage = Some(99);
    other.cpu_temp = Some(99.0);
    other.gpu_temp = Some(99.0);
    other.gpu_usage = Some(99);
    other.download_speed = Some(Speed { bytes: 99, tenths: 0 });
    other.upload_speed = Some(Speed { bytes: 99, tenths: 0 });
    machine.refresh(&mut data, set, &config(), 1);
    machine.refresh(&mut other, set, &config(), 1);
    assert_eq!(data.cpu_usage, Some(12.5));
    assert_eq!(other.cpu_usage, data.cpu_usage);
    assert_eq!(other.ram_usage, None);
    assert_eq!(other.cpu_temp, None);
    assert_eq!(other.gpu_temp, data.gpu_temp);
    assert_eq!(other.gpu_usage, data.gpu_usage);
    assert_eq!(other.download_speed, None);
    assert_eq!(other.upload_speed, None);
}

#[test]
fn interfaces_are_listed_again_after_ten_seconds() {
    let mut machine = machine();
    let mut data = Data::<f32>::new(&config(), &vec![], SECOND);
    machine.refresh(&mut data, wanted(&[Variable::UlSpeed]), &config(), 11 * SECOND);
    assert_eq!(machine.asked, ["system", "networks", "rounding"]);
    assert_eq!(data.upload_speed, Some(Speed { bytes: 0, tenths: 0 }));
    machine.refresh(&mut data, wanted(&[Variable::UlSpeed]), &config(), 11 * SECOND + 1);
    assert_eq!(machine.asked, ["interfaces", "system", "networks", "rounding"]);
    assert_eq!(data.upload_speed, Some(Speed { bytes: 100, tenths: 0 }));
    assert_eq!(data.download_speed, None);
    machine.refresh(&mut data, wanted(&[Variable::UlSpeed]), &config(), 0);
    assert_eq!(machine.asked, ["system", "networks", "rounding"]);
}

#[test]
fn nvidia_is_asked_at_most_once_and_only_if_needed() {
    let both = wanted(&[Variable::GpuTemp, Variable::GpuUsage]);
    let mut data = Data::<f32>::new(&config(), &vec![], 0);

    let mut first = machine();
    first.refresh(&mut data, both, &config(), 1);
    assert_eq!(first.asked, ["system", "components", "usage"]);

    let mut second = machine();
    second.components.clear();
    second.contents.clear();
    second.refresh(&mut data, both, &config(), 1);
    assert_eq!(second.asked, ["system", "components", "nvidia", "usage"]);
    assert_eq!(data.gpu_temp, Some(70.0));
    assert_eq!(data.gpu_usage, Some(80));

    let mut third = machine();
    third.contents = vec!["n/a"];
    third.refresh(&mut data, both, &config(), 1);
    assert_eq!(third.asked, ["system", "components", "usage", "nvidia"]);
    assert_eq!(data.gpu_temp, Some(44.0));
    assert_eq!(data.gpu_usage, Some(80));

    let mut fourth = machine();
    fourth.components.clear();
    fourth.refresh(&mut data, both, &config(), 1);
    assert_eq!(fourth.asked, ["system", "components", "nvidia", "usage"]);
    assert_eq!(data.gpu_temp, Some(70.0));
    assert_eq!(data.gpu_usage, Some(31));

    let mut fifth = machine();
    fifth.components.clear();
    fifth.contents.clear();
    fifth.nvidia = None;
    fifth.refresh(&mut data, both, &config(), 1);
    assert_eq!(fifth.asked, ["system", "components", "nvidia", "usage"]);
    assert_eq!(data.gpu_temp, None);
    assert_eq!(data.gpu_usage, None);
}

#[test]
fn addresses_are_kept_for_five_minutes() {
    let both = wanted(&[Variable::PublicIpv4, Variable::PublicIpv6]);
    let mut machine = machine();
    let mut data = Data::<f32>::new(&config(), &vec![], 0);
    machine.refresh(&mut data, both, &config(), SECOND);
    assert_eq!(machine.asked, ["system", "v4", "v6"]);
    assert_eq!(data.next_ip_fetch, 301 * SECOND);

    machine.ipv4 = Some("203.0.113.8");
    machine.refresh(&mut data, both, &config(), 301 * SECOND - 1);
    assert_eq!(machine.asked, ["system"]);
    assert_eq!(data.public_ipv4.as_deref(), Some("203.0.113.7"));
    assert_eq!(data.next_ip_fetch, 301 * SECOND);

    machine.refresh(&mut data, both, &config(), 301 * SECOND);
    assert_eq!(machine.asked, ["system", "v4", "v6"]);
    assert_eq!(data.public_ipv4.as_deref(), Some("203.0.113.8"));
    assert_eq!(data.next_ip_fetch, 601 * SECOND);
}

#[test]
fn a_missing_address_is_fetched_at_once() {
    let both = wanted(&[Variable::PublicIpv4, Variable::PublicIpv6]);
    let mut machine = machine();
    let mut data = Data::<f32>::new(&config(), &vec![], 0);
    machine.refresh(&mut data, wanted(&[Variable::PublicIpv4]), &config(), SECOND);
    assert_eq!(machine.asked, ["system", "v4"]);
    machine.refresh(&mut data, both, &config(), 2 * SECOND);
    assert_eq!(machine.asked, ["system", "v6"]);
    assert_eq!(data.next_ip_fetch, 302 * SECOND);
}

#[test]
fn a_dropped_address_is_fetched_anew() {
    let mut machine = machine();
    let mut data = Data::<f32>::new(&config(), &vec![], 0);
    machine.refresh(&mut data, wanted(&[Variable::PublicIpv4]), &config(), SECOND);
    machine.refresh(&mut data, wanted(&[Variable::RamUsage]), &config(), 2 * SECOND);
    assert_eq!(data.public_ipv4, None);
    assert_eq!(data.next_ip_fetch, 301 * SECOND);
    machine.ipv4 = Some("203.0.113.8");
    machine.refresh(&mut data, wanted(&[Variable::PublicIpv4]), &config(), 3 * SECOND);
    assert_eq!(machine.asked, ["system", "v4"]);
    assert_eq!(data.public_ipv4.as_deref(), Some("203.0.113.8"));
}

#[test]
fn failures_back_off_and_success_starts_anew() {
    let mut machine = machine();
    machine.ipv4 = None;
    let both = wanted(&[Variable::PublicIpv4, Variable::PublicIpv6]);
    let mut data = Data::<f32>::new(&config(), &vec![], 0);
    let mut interval: u128 = 500_000_000;
    for round in 0..20u128 {
        let now = round * 1000 * SECOND;
        assert_eq!(data.ip_backoff.current_interval.as_nanos(), interval);
        machine.refresh(&mut data, both, &config(), now);
        assert_eq!(machine.asked, ["system", "v4", "v6"]);
        assert_eq!(data.public_ipv4, None);
        assert_eq!(data.public_ipv6.as_deref(), Some("2001:db8::1"));
        let delay = data.next_ip_fetch - now;
        assert!(interval / 2 <= delay && delay <= interval + interval / 2 + 1);
        interval = if interval * 2 >= 300 * SECOND { 300 * SECOND } else { interval * 2 };
    }
    assert_eq!(interval, 300 * SECOND);
    machine.ipv4 = Some("203.0.113.7");
    machine.refresh(&mut data, both, &config(), 20_000 * SECOND);
    assert_eq!(data.next_ip_fetch, 20_300 * SECOND);
    assert_eq!(data.ip_backoff.current_interval.as_nanos(), 500_000_000);
}

#[test]
fn the_second_address_can_fail_too() {
    let mut machine = machine();
    machine.ipv6 = Some(" \n");
    let both = wanted(&[Variable::PublicIpv4, Variable::PublicIpv6]);
    let mut data = Data::<f32>::new(&config(), &vec![], 0);
    machine.refresh(&mut data, both, &config(), SECOND);
    assert_eq!(data.public_ipv4.as_deref(), Some("203.0.113.7"));
    assert_eq!(data.public_ipv6, None);
    assert!(data.next_ip_fetch >= SECOND + 250_000_000);
    assert!(data.next_ip_fetch <= SECOND + 750_000_001);
}

#[test]
fn only_the_awaited_answer_is_accepted() {
    let config = config();
    let mut data = Data::<f32>::new(&config, &vec![], 0);
    let mut run = Refresh::new(wanted(&[Variable::RamUsage]), &config);
    assert!(!run.accepts(&data, &Event::Nvidia(None)));
    assert!(run.accepts(&data, &Event::Started));
    assert!(matches!(run.step(&mut data, Event::Started, 0), Action::RefreshSystem(_)));
    assert!(!run.accepts(&data, &Event::Started));
    let mut sample = SystemSample {
        global_cpu_usage: 0.0,
        used_memory: 1,
        total_memory: 0,
        used_swap: 0,
        total_swap: 0,
    };
    assert!(!run.accepts(&data, &Event::System(sample)));
    sample.total_memory = 2;
    assert!(run.accepts(&data, &Event::System(sample)));
    assert!(matches!(run.step(&mut data, Event::System(sample), 0), Action::Done));
    assert_eq!(data.ram_usage, Some(50));
    assert!(!run.accepts(&data, &Event::Started));
}

#[test]
fn traffic_that_cannot_be_added_up_is_not_accepted() {
    let config = config();
    let machine = machine();
    let mut data = Data::<f32>::new(&config, &machine.entries(), 0);
    let mut run = Refresh::new(wanted(&[Variable::DlSpeed]), &config);
    run.step(&mut data, Event::Started, 0);
    let sample = SystemSample {
        global_cpu_usage: 0.0,
        used_memory: 0,
        total_memory: 0,
        used_swap: 0,
        total_swap: 0,
    };
    // The memory is not wanted, so it does not matter that there is none.
    assert!(run.accepts(&data, &Event::System(sample)));
    assert!(matches!(run.step(&mut data, Event::System(sample), 0), Action::RefreshNetworks));
    let twice = |name: &str| {
        Event::<f32>::Networks(vec![
            NetworkSample { name: name.to_string(), transmitted: 0, received: u64::MAX },
            NetworkSample { name: name.to_string(), transmitted: 0, received: u64::MAX },
        ])
    };
    assert!(!run.accepts(&data, &twice("eth0")));
    assert!(run.accepts(&data, &twice("lo")));
}

#[test]
fn a_schedule_without_a_delay_falls_back_to_the_cadence() {
    assert_eq!(retry_at(7, Some(5)), 12);
    assert_eq!(retry_at(7, None), 300 * SECOND + 7);
}

#[test]
fn speeds_are_rounded_to_the_nearest_tenth() {
    let mut samples = vec![0u64, 1, 49_999, 50_000, 50_001, 99_900_000, 1 << 52];
    let mut bytes: u64 = 12_345;
    while bytes < 1 << 52 {
        samples.extend([bytes, bytes / 100_000 * 100_000 + 50_000]);
        bytes = bytes * 3 + 7;
    }
    for bytes in samples {
        assert!(rounds_to(bytes, tenths(bytes)), "{}", bytes);
        assert!(!rounds_to(bytes, tenths(bytes) + 2));
    }
    assert!(rounds_to(50_000, 0));
    assert!(rounds_to(50_000, 1));
    assert!(!rounds_to(49_999, 1));
    assert!(!rounds_to(50_001, 0));
    assert!(rounds_to(u64::MAX, tenths(u64::MAX)));
}

#[test]
fn traffic_that_is_rounded_wrong_is_not_accepted() {
    let config = config();
    let mut data = Data::<f32>::new(&config, &machine().entries(), 0);
    let mut run = Refresh::new(wanted(&[Variable::DlSpeed]), &config);
    run.step(&mut data, Event::Started, 0);
    let sample = SystemSample {
        global_cpu_usage: 0.0,
        used_memory: 0,
        total_memory: 0,
        used_swap: 0,
        total_swap: 0,
    };
    run.step(&mut data, Event::System(sample), 0);
    let samples = vec![NetworkSample {
        name: "eth0".to_string(),
        transmitted: 0,
        received: 2_340_000,
    }];
    match run.step(&mut data, Event::Networks(samples), 0) {
        Action::RoundTraffic { received, transmitted } => {
            assert_eq!((received, transmitted), (2_340_000, 0));
        }
        _ => panic!("the traffic was not rounded"),
    }
    assert!(!run.accepts(&data, &Event::Rounded { received: 24, transmitted: 0 }));
    assert!(!run.accepts(&data, &Event::Rounded { received: 23, transmitted: 1 }));
    let event = Event::Rounded { received: 23, transmitted: 0 };
    assert!(run.accepts(&data, &event));
    assert!(matches!(run.step(&mut data, event, 0), Action::Done));
    assert_eq!(data.download_speed, Some(Speed { bytes: 2_340_000, tenths: 23 }));
    assert_eq!(data.upload_speed, None);
}
