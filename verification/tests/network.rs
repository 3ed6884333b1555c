use sysinfo_applet::config::SysInfoConfig;
use sysinfo_applet::data::Data;
use sysinfo_applet::network::{traffic, InterfaceEntry, NetworkSample};

fn config(only: Option<&[&str]>, without: Option<&[&str]>) -> SysInfoConfig {
    let owned = |names: &[&str]| names.iter().map(|n| n.to_string()).collect::<Vec<String>>();
    SysInfoConfig {
        include_swap_in_ram: false,
        include_interfaces: only.map(owned),
        exclude_interfaces: without.map(owned),
    }
}

fn entries() -> Vec<InterfaceEntry> {
    [("lo", false), ("wlan0", true), ("eth0", true), ("docker0", false), ("eth1", true)]
        .iter()
        .map(|(name, has_device)| InterfaceEntry {
            name: name.to_string(),
            has_device: *has_device,
        })
        .collect()
}

#[test]
fn interfaces_with_a_device_count_in_order() {
    let found = Data::<f32>::detect_physical_interfaces(&config(None, None), &entries());
    assert_eq!(found, ["wlan0", "eth0", "eth1"]);
}

#[test]
fn interfaces_can_be_included_and_excluded() {
    let found = Data::<f32>::detect_physical_interfaces(
        &config(Some(&["eth1", "eth0", "lo"]), None),
        &entries(),
    );
    assert_eq!(found, ["eth0", "eth1"]);
    let found =
        Data::<f32>::detect_physical_interfaces(&config(None, Some(&["eth0"])), &entries());
    assert_eq!(found, ["wlan0", "eth1"]);
    let found = Data::<f32>::detect_physical_interfaces(
        &config(Some(&["eth0", "eth1"]), Some(&["eth0"])),
        &entries(),
    );
    assert_eq!(found, ["eth1"]);
    let found = Data::<f32>::detect_physical_interfaces(&config(Some(&[]), None), &entries());
    assert!(found.is_empty());
    let found = Data::<f32>::detect_physical_interfaces(&config(None, Some(&[])), &entries());
    assert_eq!(found.len(), 3);
}

fn sample(name: &str, transmitted: u64, received: u64) -> NetworkSample {
    NetworkSample { name: name.to_string(), transmitted, received }
}

#[test]
fn traffic_is_added_up_over_the_interfaces_that_count() {
    let names = vec!["eth0".to_string(), "wlan0".to_string()];
    let samples =
        vec![sample("lo", 1000, 1000), sample("eth0", 3, 50), sample("wlan0", 4, 600)];
    assert_eq!(traffic(&samples, &names), Some((7, 650)));
    assert_eq!(traffic(&samples, &vec![]), Some((0, 0)));
    assert_eq!(traffic(&vec![], &names), Some((0, 0)));
}

#[test]
fn traffic_does_not_depend_on_the_order() {
    let names = vec!["a".to_string(), "b".to_string()];
    let samples = vec![sample("a", 1, 2), sample("b", 3, 4), sample("c", 5, 6)];
    let backwards = vec![sample("c", 5, 6), sample("b", 3, 4), sample("a", 1, 2)];
    assert_eq!(traffic(&samples, &names), traffic(&backwards, &names));
}

#[test]
fn traffic_beyond_64_bits_is_told() {
    let names = vec!["a".to_string(), "b".to_string()];
    let samples = vec![sample("a", u64::MAX, 0), sample("b", 1, 0)];
    assert_eq!(traffic(&samples, &names), None);
    let samples = vec![sample("a", 0, u64::MAX), sample("b", 0, 1)];
    assert_eq!(traffic(&samples, &names), None);
    let samples = vec![sample("a", u64::MAX, u64::MAX), sample("c", 1, 1)];
    assert_eq!(traffic(&samples, &names), Some((u64::MAX, u64::MAX)));
}
