use sysinfo_applet::command::CommandOutput;
use sysinfo_applet::data::Data;
use sysinfo_applet::gpu::read_report;
use sysinfo_applet::public_ip::{read_address, IpVersion};

fn wrote(stdout: &[u8]) -> Option<CommandOutput> {
    Some(CommandOutput { success: true, stdout: stdout.to_vec() })
}

fn failed(stdout: &[u8]) -> Option<CommandOutput> {
    Some(CommandOutput { success: false, stdout: stdout.to_vec() })
}

fn degrees(field: &str) -> Option<f32> {
    field.parse().ok()
}

#[test]
fn curl_is_held_to_a_version() {
    assert_eq!(
        Data::<f32>::public_ip_arguments(IpVersion::V4),
        ["-4", "-sf", "--max-time", "5", "https://icanhazip.com"]
    );
    assert_eq!(
        Data::<f32>::public_ip_arguments(IpVersion::V6),
        ["-6", "-sf", "--max-time", "5", "https://icanhazip.com"]
    );
}

#[test]
fn an_address_is_read_without_white_space() {
    assert_eq!(
        Data::<f32>::fetch_public_ip(&wrote(b"203.0.113.7\n")),
        Some("203.0.113.7".to_string())
    );
    assert_eq!(read_address(" 2001:db8::1\r\n"), Some("2001:db8::1".to_string()));
}

#[test]
fn no_address_is_none() {
    assert_eq!(Data::<f32>::fetch_public_ip(&None), None);
    assert_eq!(Data::<f32>::fetch_public_ip(&wrote(b"")), None);
    assert_eq!(Data::<f32>::fetch_public_ip(&wrote(b" \n")), None);
    assert_eq!(Data::<f32>::fetch_public_ip(&failed(b"203.0.113.7\n")), None);
    assert_eq!(read_address("\t"), None);
}

#[test]
fn bytes_that_are_no_text_are_replaced() {
    assert_eq!(Data::<f32>::fetch_public_ip(&wrote(b"a\xffb\n")), Some("a\u{fffd}b".to_string()));
}

#[test]
fn nvidia_is_asked_for_temperature_and_load() {
    assert_eq!(
        Data::<f32>::nvidia_arguments(),
        ["--query-gpu=temperature.gpu,utilization.gpu", "--format=csv,noheader,nounits"]
    );
}

#[test]
fn a_report_has_two_fields() {
    assert_eq!(
        Data::<f32>::query_nvidia_smi(&wrote(b"45, 17\n"), &degrees),
        Some((Some(45.0), Some(17)))
    );
    assert_eq!(read_report(" 45.5 ,   +17 ", &degrees), (Some(45.5), Some(17)));
    assert_eq!(read_report("45, 17, 3", &degrees), (Some(45.0), None));
    assert_eq!(read_report("[N/A], 17", &degrees), (None, Some(17)));
    assert_eq!(read_report("45, [N/A]", &degrees), (Some(45.0), None));
}

#[test]
fn a_report_without_fields_says_nothing() {
    assert_eq!(Data::<f32>::query_nvidia_smi(&wrote(b"45,17\n"), &degrees), Some((None, None)));
    assert_eq!(Data::<f32>::query_nvidia_smi(&wrote(b""), &degrees), Some((None, None)));
    // The white space goes first, and the mark with it.
    assert_eq!(read_report("45, \n", &degrees), (None, None));
}

#[test]
fn no_report_is_none() {
    assert_eq!(Data::<f32>::query_nvidia_smi(&None, &degrees), None);
    assert_eq!(Data::<f32>::query_nvidia_smi(&failed(b"45, 17\n"), &degrees), None);
}

#[test]
fn the_first_file_with_a_number_tells_the_usage() {
    let contents = |texts: &[&str]| texts.iter().map(|t| t.to_string()).collect::<Vec<String>>();
    assert_eq!(
        Data::<f32>::find_gpu_usage_sysfs(&contents(&["", "busy", " 12\n", "99\n"])),
        Some(12)
    );
    assert_eq!(Data::<f32>::find_gpu_usage_sysfs(&contents(&["x", "-3"])), None);
    assert_eq!(Data::<f32>::find_gpu_usage_sysfs(&contents(&[])), None);
}
