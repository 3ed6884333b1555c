use sysinfo_applet::data::Data;
use sysinfo_applet::sensors::{find_temp, Component};

fn component(label: &str, temperature: Option<f32>) -> Component<f32> {
    Component { label: label.to_string(), temperature }
}

#[test]
fn inexact_match() {
    let components = vec![component("k10temp Tctl", Some(1.0))];

    // do match on the component, even though `k10temp` is only a _part_ of its name
    assert_eq!(Data::<f32>::find_cpu_temp(&components), Some(1.0));
}

#[test]
fn priority() {
    let components =
        vec![component("k10temp Tctl", Some(1.0)), component("coretemp foo", Some(2.0))];

    // choose `coretemp` over `k10temp` despite `k10temp` coming earlier in `components`
    assert_eq!(Data::<f32>::find_cpu_temp(&components), Some(2.0));
}

#[test]
fn mod_inexact_match() {
    let components = vec![component("amdgpu foo", Some(1.0))];

    // do match on the component, even though `amdgpu` is only a _part_ of its name
    assert_eq!(Data::<f32>::find_gpu_temp(&components), Some(1.0));
}

#[test]
fn mod_priority() {
    let components = vec![component("mem bar", Some(1.0)), component("junction foo", Some(2.0))];

    // choose `junction` over `mem` despite `mem` coming earlier in `components`
    assert_eq!(Data::<f32>::find_gpu_temp(&components), Some(2.0));
}

#[test]
fn labels_are_matched_in_small_letters() {
    let components = vec![component("Package id 0", Some(48.5)), component("ACPITZ", Some(20.0))];
    assert_eq!(Data::<f32>::find_cpu_temp(&components), Some(48.5));
    // The Kelvin sign becomes a small k.
    let components = vec![component("\u{212a}10TEMP", Some(3.0))];
    assert_eq!(Data::<f32>::find_cpu_temp(&components), Some(3.0));
}

#[test]
fn no_sensor_no_temperature() {
    let none: Vec<Component<f32>> = Vec::new();
    assert_eq!(Data::<f32>::find_cpu_temp(&none), None);
    assert_eq!(Data::<f32>::find_gpu_temp(&none), None);
    let components = vec![component("acpitz", Some(20.0))];
    assert_eq!(Data::<f32>::find_cpu_temp(&components), None);
    assert_eq!(Data::<f32>::find_gpu_temp(&components), None);
}

#[test]
fn a_silent_sensor_gives_way_to_the_next_label() {
    // The first sensor that `coretemp` leads to is silent, so the second one is not looked at for
    // `coretemp`, but `core` leads to the first sensor as well, and `k10temp` to the third.
    let components = vec![
        component("coretemp a", None),
        component("coretemp b", Some(1.0)),
        component("k10temp", Some(2.0)),
    ];
    assert_eq!(Data::<f32>::find_cpu_temp(&components), Some(2.0));
    let components = vec![component("coretemp a", None), component("coretemp b", Some(1.0))];
    assert_eq!(Data::<f32>::find_cpu_temp(&components), None);
}

#[test]
fn every_cpu_label_counts_in_its_place() {
    let labels = [
        "coretemp", "k10temp", "zenpower", "cpu_thermal", "soc_thermal", "cpu", "package", "tctl",
        "tdie", "core",
    ];
    for (i, label) in labels.iter().enumerate() {
        let components = vec![component(label, Some(i as f32))];
        assert_eq!(Data::<f32>::find_cpu_temp(&components), Some(i as f32));
    }
    let backwards: Vec<Component<f32>> =
        labels.iter().rev().map(|label| component(label, Some(label.len() as f32))).collect();
    assert_eq!(Data::<f32>::find_cpu_temp(&backwards), Some(8.0));
}

#[test]
fn every_gpu_label_counts_in_its_place() {
    let labels =
        ["amdgpu", "radeon", "nouveau", "nvidia", "gpu", "edge", "junction", "mem"];
    for (i, label) in labels.iter().enumerate() {
        let components = vec![component(label, Some(i as f32))];
        assert_eq!(Data::<f32>::find_gpu_temp(&components), Some(i as f32));
    }
}

#[test]
fn lowered_labels_are_searched_as_they_are() {
    let components = vec![component("ignored", Some(1.0)), component("ignored", Some(2.0))];
    let labels = vec!["abc".to_string(), "xbcx".to_string()];
    assert_eq!(find_temp(&vec!["xb", "a"], &labels, &components), Some(2.0));
    assert_eq!(find_temp(&vec!["zz", "bc"], &labels, &components), Some(1.0));
    assert_eq!(find_temp(&vec!["A"], &labels, &components), None);
}
