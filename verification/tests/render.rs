use std::borrow::Cow;

use sysinfo_applet::config::SysInfoConfig;
use sysinfo_applet::data::Data;
use sysinfo_applet::reading::{Reading, Rounded, Speed};
use sysinfo_applet::render::{Quantity, Tint};
use sysinfo_applet::template::{Segment, Template, Variable};

fn reading(value: f32) -> Reading<f32> {
    let rounded = value.round_ties_even();
    let negative = rounded.is_sign_negative();
    Reading {
        value,
        rounded: if rounded.is_nan() {
            Rounded::NotANumber
        } else if rounded.is_infinite() {
            Rounded::Infinity { negative }
        } else {
            Rounded::Number { negative, magnitude: rounded.abs() as u128 }
        },
    }
}

fn speed(bytes: u64) -> Speed {
    let megabytes = bytes as f64 / 1_000_000.0;
    Speed { bytes, tenths: format!("{megabytes:.1}").replace('.', "").parse().unwrap() }
}

fn data() -> Data<Reading<f32>> {
    let config = SysInfoConfig {
        include_swap_in_ram: false,
        include_interfaces: None,
        exclude_interfaces: None,
    };
    Data::new(&config, &vec![], 0)
}

fn shown(data: &Data<Reading<f32>>, variable: Variable) -> (Cow<'_, str>, Tint<f32>) {
    Template { segments: vec![] }.resolve_variable(variable, data)
}

fn thresholds(tint: Tint<f32>) -> Option<(f64, u32, u32)> {
    match tint {
        Tint::Threshold { value, low, high } => {
            let number = match value {
                Quantity::Value(v) => v as f64,
                Quantity::Whole(n) => n as f64,
            };
            Some((number, low, high))
        }
        _ => None,
    }
}

#[test]
fn what_is_not_known_has_a_placeholder() {
    let data = data();
    let expected = [
        (Variable::CpuUsage, "--%"),
        (Variable::RamUsage, "--%"),
        (Variable::CpuTemp, "--\u{b0}C"),
        (Variable::GpuTemp, "--\u{b0}C"),
        (Variable::GpuUsage, "--%"),
        (Variable::DlSpeed, " -.-"),
        (Variable::UlSpeed, " -.-"),
        (Variable::PublicIpv4, "--"),
        (Variable::PublicIpv6, "--"),
    ];
    for (variable, text) in expected {
        let (found, tint) = shown(&data, variable);
        assert_eq!(found, text);
        assert!(matches!(found, Cow::Borrowed(_)));
        assert!(matches!(tint, Tint::Plain));
    }
}

#[test]
fn readings_with_a_fraction_are_rounded_and_aligned() {
    let mut data = data();
    for value in [
        0.0f32, 0.5, 1.5, 2.5, 4.4, 9.5, 10.5, 49.6, 99.0, 99.4, 99.5, 99.6, 100.0, 8388607.5,
        -0.0, -0.3, -0.5, -1.5, -3.2, -40.0, 1e20, f32::MAX, f32::MIN, f32::MIN_POSITIVE,
    ] {
        data.cpu_usage = Some(reading(value));
        data.cpu_temp = Some(reading(value));
        data.gpu_temp = Some(reading(value));
        let (text, tint) = shown(&data, Variable::CpuUsage);
        assert_eq!(text, format!("{value:>2.0}%"));
        assert_eq!(thresholds(tint), Some((value as f64, 50, 80)));
        let (text, tint) = shown(&data, Variable::CpuTemp);
        assert_eq!(text, format!("{value:>2.0}°C"));
        assert_eq!(thresholds(tint), Some((value as f64, 60, 80)));
        let (text, tint) = shown(&data, Variable::GpuTemp);
        assert_eq!(text, format!("{value:>2.0}°C"));
        assert_eq!(thresholds(tint), Some((value as f64, 60, 85)));
    }
    data.cpu_usage = Some(reading(4.4));
    assert_eq!(shown(&data, Variable::CpuUsage).0, " 4%");
    for value in [f32::INFINITY, f32::NEG_INFINITY, f32::NAN] {
        data.cpu_temp = Some(reading(value));
        assert_eq!(shown(&data, Variable::CpuTemp).0, format!("{value:>2.0}°C"));
    }
}

#[test]
fn percentages_are_aligned() {
    let mut data = data();
    for (value, text) in [(0, " 0%"), (7, " 7%"), (42, "42%"), (100, "100%")] {
        data.ram_usage = Some(value);
        data.gpu_usage = Some(value);
        let (found, tint) = shown(&data, Variable::RamUsage);
        assert_eq!(found, text);
        assert_eq!(thresholds(tint), Some((value as f64, 50, 80)));
        let (found, tint) = shown(&data, Variable::GpuUsage);
        assert_eq!(found, text);
        assert_eq!(thresholds(tint), Some((value as f64, 50, 80)));
    }
}

#[test]
fn speeds_are_in_megabytes() {
    let mut data = data();
    for bytes in [0u64, 49_999, 50_000, 1_250_000, 12_345_678, 123_456_789_012] {
        data.download_speed = Some(speed(bytes));
        data.upload_speed = Some(speed(bytes));
        let megabytes = bytes as f64 / 1_000_000.0;
        let (text, tint) = shown(&data, Variable::DlSpeed);
        assert_eq!(text, format!("{megabytes:4.1}"));
        assert!(matches!(tint, Tint::Plain));
        assert_eq!(shown(&data, Variable::UlSpeed).0, format!("{megabytes:4.1}"));
    }
    data.download_speed = Some(speed(2_340_000));
    assert_eq!(shown(&data, Variable::DlSpeed).0, " 2.3");
}

#[test]
fn addresses_are_shown_as_they_are() {
    let mut data = data();
    data.public_ipv4 = Some("203.0.113.7".to_string());
    data.public_ipv6 = Some("2001:db8::1".to_string());
    assert_eq!(shown(&data, Variable::PublicIpv4).0, "203.0.113.7");
    assert_eq!(shown(&data, Variable::PublicIpv6).0, "2001:db8::1");
    assert!(matches!(shown(&data, Variable::PublicIpv4).1, Tint::Plain));
    assert!(matches!(shown(&data, Variable::PublicIpv6).1, Tint::Plain));
}

#[test]
fn addresses_are_lent_and_not_copied() {
    let mut data = data();
    data.public_ipv4 = Some("203.0.113.7".to_string());
    data.public_ipv6 = Some("2001:db8::1".to_string());
    for (variable, stored) in [
        (Variable::PublicIpv4, data.public_ipv4.as_deref().unwrap()),
        (Variable::PublicIpv6, data.public_ipv6.as_deref().unwrap()),
    ] {
        match shown(&data, variable).0 {
            Cow::Borrowed(text) => assert!(std::ptr::eq(text, stored)),
            Cow::Owned(_) => panic!("the address was copied"),
        }
    }
    data.ram_usage = Some(5);
    assert!(matches!(shown(&data, Variable::RamUsage).0, Cow::Owned(_)));
}

#[test]
fn texts_are_as_wide_as_their_placeholders() {
    let variables = [
        (Variable::CpuUsage, 3),
        (Variable::RamUsage, 3),
        (Variable::GpuUsage, 3),
        (Variable::CpuTemp, 4),
        (Variable::GpuTemp, 4),
        (Variable::DlSpeed, 4),
        (Variable::UlSpeed, 4),
    ];
    let unknown = data();
    for (value, whole, bytes) in [(0.0, 0, 0), (9.4, 9, 99_900), (99.0, 99, 99_900_000)] {
        let mut known = data();
        known.cpu_usage = Some(reading(value));
        known.cpu_temp = Some(reading(value));
        known.gpu_temp = Some(reading(value));
        known.ram_usage = Some(whole);
        known.gpu_usage = Some(whole);
        known.download_speed = Some(speed(bytes));
        known.upload_speed = Some(speed(bytes));
        for (variable, width) in variables {
            assert_eq!(shown(&unknown, variable).0.chars().count(), width);
            assert_eq!(shown(&known, variable).0.chars().count(), width);
        }
    }
}

#[test]
fn other_readings_do_not_show() {
    let mut one = data();
    one.ram_usage = Some(5);
    let mut other = data();
    other.ram_usage = Some(5);
    other.gpu_usage = Some(99);
    other.cpu_temp = Some(reading(80.0));
    other.public_ipv4 = Some("203.0.113.7".to_string());
    let (text, tint) = shown(&one, Variable::RamUsage);
    let (other_text, other_tint) = shown(&other, Variable::RamUsage);
    assert_eq!(text, other_text);
    assert_eq!(thresholds(tint), thresholds(other_tint));
    let template = Template {
        segments: vec![
            Segment::Literal("RAM ".to_string()),
            Segment::Variable(Variable::RamUsage),
        ],
    };
    for (a, b) in template.render(&one).iter().zip(template.render(&other)) {
        assert_eq!(a.text, b.text);
        assert_eq!(a.mono, b.mono);
        assert_eq!(thresholds(a.tint), thresholds(b.tint));
    }
}

#[test]
fn parts_of_a_template_are_shown_in_turn() {
    let mut data = data();
    data.cpu_usage = Some(reading(50.0));
    let first = || vec![Segment::Literal("CPU ".to_string()), Segment::Variable(Variable::CpuUsage)];
    let second = || vec![Segment::Unknown("x".to_string())];
    let texts = |segments: Vec<Segment>| {
        let template = Template { segments };
        let spans = template.render(&data);
        spans.iter().map(|span| span.text.to_string()).collect::<Vec<String>>()
    };
    let mut both = first();
    both.extend(second());
    let mut expected = texts(first());
    expected.extend(texts(second()));
    assert_eq!(texts(both), expected);
    assert!(texts(vec![]).is_empty());
}

#[test]
fn a_template_is_shown_piece_by_piece() {
    let mut data = data();
    data.ram_usage = Some(5);
    let template = Template {
        segments: vec![
            Segment::Literal("RAM ".to_string()),
            Segment::Variable(Variable::RamUsage),
            Segment::Unknown("rma".to_string()),
            Segment::Literal("".to_string()),
        ],
    };
    let spans = template.render(&data);
    assert_eq!(spans.len(), 4);
    assert_eq!(spans[0].text, "RAM ");
    assert!(matches!(spans[0].text, Cow::Borrowed(_)));
    assert!(!spans[0].mono);
    assert!(matches!(spans[0].tint, Tint::Plain));
    assert_eq!(spans[1].text, " 5%");
    assert!(spans[1].mono);
    assert_eq!(thresholds(spans[1].tint), Some((5.0, 50, 80)));
    assert_eq!(spans[2].text, "{rma}");
    assert!(!spans[2].mono);
    assert!(matches!(spans[2].tint, Tint::Red));
    assert_eq!(spans[3].text, "");
}
