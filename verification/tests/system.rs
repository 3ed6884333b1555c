use sysinfo_applet::config::SysInfoConfig;
use sysinfo_applet::system::{refresh_kind, SystemSample};
use sysinfo_applet::template::{Requires, Variable};

fn sample(used_memory: u64, total_memory: u64, used_swap: u64, total_swap: u64) -> SystemSample<f32> {
    SystemSample { global_cpu_usage: 0.0, used_memory, total_memory, used_swap, total_swap }
}

fn config(include_swap_in_ram: bool) -> SysInfoConfig {
    SysInfoConfig { include_swap_in_ram, include_interfaces: None, exclude_interfaces: None }
}

#[test]
fn usage_is_a_rounded_down_percentage() {
    assert_eq!(sample(1, 3, 0, 0).ram_usage(false), Some(33));
    assert_eq!(sample(2, 3, 0, 0).ram_usage(false), Some(66));
    assert_eq!(sample(3, 3, 0, 0).ram_usage(false), Some(100));
    assert_eq!(sample(0, 3, 0, 0).ram_usage(false), Some(0));
}

#[test]
fn swap_counts_if_set() {
    assert_eq!(sample(50, 100, 10, 300).ram_usage(false), Some(50));
    assert_eq!(sample(50, 100, 10, 300).ram_usage(true), Some(15));
    assert_eq!(sample(0, 0, 1, 4).ram_usage(true), Some(25));
}

#[test]
fn usage_that_cannot_be_reckoned_is_told() {
    assert_eq!(sample(0, 0, 1, 4).ram_usage(false), None);
    assert_eq!(sample(u64::MAX / 100, 1, 0, 0).ram_usage(false), Some(u64::MAX / 100 * 100));
    assert_eq!(sample(u64::MAX / 100 + 1, 1, 0, 0).ram_usage(false), None);
    assert_eq!(sample(1, u64::MAX, 1, 1).ram_usage(true), None);
    assert_eq!(sample(u64::MAX, 1, 1, 0).ram_usage(true), None);
}

#[test]
fn nothing_is_refreshed_for_nothing() {
    let kind = refresh_kind(Requires::nothing(), &config(true));
    assert!(kind.cpu().is_none());
    assert!(kind.memory().is_none());
    assert!(kind.processes().is_none());
}

#[test]
fn the_cpu_is_refreshed_for_its_usage() {
    let mut wanted = Requires::nothing();
    wanted.insert(Variable::CpuUsage);
    let kind = refresh_kind(wanted, &config(true));
    let cpu = kind.cpu().unwrap();
    assert!(cpu.cpu_usage());
    assert!(!cpu.frequency());
    assert!(kind.memory().is_none());
    assert!(kind.processes().is_none());
}

#[test]
fn the_memory_is_refreshed_for_its_usage() {
    let mut wanted = Requires::nothing();
    wanted.insert(Variable::RamUsage);
    let kind = refresh_kind(wanted, &config(false));
    assert!(kind.cpu().is_none());
    assert!(kind.processes().is_none());
    let memory = kind.memory().unwrap();
    assert!(memory.ram());
    assert!(!memory.swap());
    let memory = refresh_kind(wanted, &config(true)).memory().unwrap();
    assert!(memory.ram());
    assert!(memory.swap());
}

#[test]
fn a_set_holds_what_was_put_into_it() {
    let all = [
        Variable::CpuUsage,
        Variable::RamUsage,
        Variable::CpuTemp,
        Variable::GpuTemp,
        Variable::GpuUsage,
        Variable::DlSpeed,
        Variable::UlSpeed,
        Variable::PublicIpv4,
        Variable::PublicIpv6,
    ];
    for one in all {
        let mut set = Requires::nothing();
        assert!(!set.contains(one));
        set.insert(one);
        for other in all {
            assert_eq!(set.contains(other), other == one);
        }
    }
}
