use nm_wifi::network::{parse_adapter_name, parse_connected_ssid, parse_scan_line};
use nm_wifi::text::{parse_decimal, split_fields, usize_to_string};
use nm_wifi::ui::{
    create_signal_graph, format_signal_strength, get_connection_animation_frame,
    get_frequency_band,
};

#[test]
fn decimal_rendering_exact_values() {
    assert_eq!(usize_to_string(0), "0");
    assert_eq!(usize_to_string(7), "7");
    assert_eq!(usize_to_string(10), "10");
    assert_eq!(usize_to_string(42), "42");
    assert_eq!(usize_to_string(100), "100");
    assert_eq!(usize_to_string(65535), "65535");
}

#[test]
fn split_fields_cases() {
    let parts = split_fields("a:b:c", ':');
    assert_eq!(parts, vec!["a", "b", "c"]);
    let parts = split_fields("::", ':');
    assert_eq!(parts, vec!["", "", ""]);
    let parts = split_fields("abc", ':');
    assert_eq!(parts, vec!["abc"]);
    let parts = split_fields("", ':');
    assert_eq!(parts, vec![""]);
}

#[test]
fn parse_decimal_cases() {
    assert_eq!(parse_decimal("2412 MHz"), Some(2412));
    assert_eq!(parse_decimal("87"), Some(87));
    assert_eq!(parse_decimal("0"), Some(0));
    assert_eq!(parse_decimal(""), None);
    assert_eq!(parse_decimal("abc"), None);
    assert_eq!(parse_decimal("4294967295"), Some(u32::MAX));
    assert_eq!(parse_decimal("4294967296"), None);
}

#[test]
fn scan_lines_parse_fields() {
    let o = parse_scan_line("87:5745 MHz:WPA2:Home").expect("well-formed");
    assert_eq!(o.ssid, "Home");
    assert_eq!(o.signal_strength, 87);
    assert_eq!(o.frequency, 5745);
    assert!(o.secured);

    let o = parse_scan_line("42:2412:--:Cafe Guest").expect("well-formed");
    assert!(!o.secured);
    assert_eq!(o.ssid, "Cafe Guest");

    let o = parse_scan_line("70:5180:WPA2:my:net").expect("well-formed");
    assert_eq!(o.ssid, "my:net");

    assert!(parse_scan_line("101:2412:--:TooStrong").is_none());
    assert!(parse_scan_line("x:2412:--:NoSignal").is_none());
    assert!(parse_scan_line("50:none:--:NoFreq").is_none());
    assert!(parse_scan_line("50:2412").is_none());
    assert!(parse_scan_line("").is_none());
}

#[test]
fn connected_ssid_is_read_from_active_line() {
    let lines = vec![
        "no:Neighbor".to_string(),
        "yes:Home Net".to_string(),
        "yes:Later".to_string(),
    ];
    assert_eq!(parse_connected_ssid(&lines).as_deref(), Some("Home Net"));
    let lines = vec!["no:Neighbor".to_string(), "no:Other".to_string()];
    assert_eq!(parse_connected_ssid(&lines), None);
    assert_eq!(parse_connected_ssid(&Vec::new()), None);
}

#[test]
fn adapter_prefers_connected_wifi_device() {
    let lines = vec![
        "eth0:ethernet:connected".to_string(),
        "wlan0:wifi:disconnected".to_string(),
        "wlan1:wifi:connected".to_string(),
    ];
    assert_eq!(parse_adapter_name(&lines).as_deref(), Some("wlan1"));
    let lines = vec![
        "eth0:ethernet:connected".to_string(),
        "wlan0:wifi:disconnected".to_string(),
    ];
    assert_eq!(parse_adapter_name(&lines).as_deref(), Some("wlan0"));
    let lines = vec!["eth0:ethernet:connected".to_string()];
    assert_eq!(parse_adapter_name(&lines), None);
}

#[test]
fn signal_graph_fills_by_strength() {
    assert_eq!(create_signal_graph(100), "█".repeat(20));
    assert_eq!(create_signal_graph(0), "░".repeat(20));
    let g = create_signal_graph(50);
    assert_eq!(g.chars().count(), 20);
    assert_eq!(g, format!("{}{}", "█".repeat(10), "░".repeat(10)));
    let g = create_signal_graph(35);
    assert_eq!(g, format!("{}{}", "█".repeat(7), "░".repeat(13)));
}

#[test]
fn signal_strength_formats_as_percentage() {
    assert_eq!(format_signal_strength(87), "87%");
    assert_eq!(format_signal_strength(0), "0%");
    assert_eq!(format_signal_strength(100), "100%");
}

#[test]
fn frequency_band_labels() {
    assert_eq!(get_frequency_band(2412), "2.4G");
    assert_eq!(get_frequency_band(4999), "2.4G");
    assert_eq!(get_frequency_band(5000), "5G");
    assert_eq!(get_frequency_band(5745), "5G");
}

#[test]
fn animation_advances_every_100ms_and_cycles() {
    assert_eq!(get_connection_animation_frame(0), '⠋');
    assert_eq!(get_connection_animation_frame(99), '⠋');
    assert_eq!(get_connection_animation_frame(100), '⠙');
    assert_eq!(get_connection_animation_frame(950), '⠏');
    assert_eq!(get_connection_animation_frame(1000), '⠋');
}
