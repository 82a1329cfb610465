use nm_wifi::session::{ConnectError, PendingWork};
use nm_wifi::types::{App, AppState, Key, WifiNetwork};

fn net(ssid: &str, signal: u8, secured: bool, freq: u32, connected: bool) -> WifiNetwork {
    WifiNetwork {
        ssid: ssid.to_string(),
        signal_strength: signal,
        secured,
        frequency: freq,
        connected,
    }
}

fn listed(networks: Vec<WifiNetwork>) -> App {
    let mut app = App::new();
    app.apply_scan_results(networks, 5);
    app
}

#[test]
fn new_session_is_scanning_and_empty() {
    let app = App::new();
    assert_eq!(app.state, AppState::Scanning);
    assert!(app.networks.is_empty());
    assert_eq!(app.selected_index, 0);
    assert!(app.selected_network.is_none());
    assert!(!app.should_quit);
    assert_eq!(app.status_message, "Scanning for networks...");
}

#[test]
fn navigation_wraps_both_ways() {
    let mut app = listed(vec![
        net("a", 90, false, 2412, false),
        net("b", 50, false, 2412, false),
        net("c", 30, false, 2412, false),
    ]);
    assert_eq!(app.selected_index, 0);
    app.next();
    assert_eq!(app.selected_index, 1);
    app.next();
    assert_eq!(app.selected_index, 2);
    app.next();
    assert_eq!(app.selected_index, 0);
    app.previous();
    assert_eq!(app.selected_index, 2);
    app.previous();
    assert_eq!(app.selected_index, 1);
}

#[test]
fn navigation_is_noop_on_empty_catalog() {
    let mut app = App::new();
    app.next();
    assert_eq!(app.selected_index, 0);
    app.previous();
    assert_eq!(app.selected_index, 0);
    app.select_network(0);
    assert_eq!(app.state, AppState::Scanning);
    assert!(app.selected_network.is_none());
}

#[test]
fn select_secured_network_opens_password_input() {
    let mut app = listed(vec![net("B", 90, true, 5200, false)]);
    app.add_char_to_password('x');
    app.select_network(10);
    assert_eq!(app.state, AppState::PasswordInput);
    assert_eq!(app.password_input, "");
    assert_eq!(app.selected_network.as_ref().unwrap().ssid, "B");
    assert!(!app.is_disconnect_operation);
}

#[test]
fn select_open_network_starts_connecting() {
    let mut app = listed(vec![net("Open", 70, false, 2412, false)]);
    app.select_network(77);
    assert_eq!(app.state, AppState::Connecting);
    assert_eq!(app.connection_start_time, Some(77));
    assert_eq!(app.status_message, "Connecting to Open...");
}

#[test]
fn select_connected_network_starts_disconnecting() {
    let mut app = listed(vec![net("Mine", 70, true, 2412, true)]);
    app.select_network(8);
    assert_eq!(app.state, AppState::Disconnecting);
    assert!(app.is_disconnect_operation);
    assert_eq!(app.connection_start_time, Some(8));
    assert_eq!(app.status_message, "Disconnecting from Mine...");
}

#[test]
fn empty_confirm_is_rejected_then_typed_password_confirms() {
    let mut app = listed(vec![net("B", 90, true, 5200, false)]);
    app.select_network(10);
    assert_eq!(app.state, AppState::PasswordInput);
    app.handle_key(Key::Enter, 11);
    assert_eq!(app.state, AppState::PasswordInput);
    for c in ['p', 'w', '1', '2', '3'] {
        app.handle_key(Key::Char(c), 12);
    }
    assert_eq!(app.password_input, "pw123");
    app.handle_key(Key::Enter, 13);
    assert_eq!(app.state, AppState::Connecting);
    assert_eq!(app.connection_start_time, Some(13));
}

#[test]
fn password_phase_only_confirm_and_cancel_transition() {
    let mut app = listed(vec![net("B", 90, true, 5200, false)]);
    app.select_network(10);
    for key in [
        Key::Char('q'),
        Key::Char('r'),
        Key::Char('h'),
        Key::Up,
        Key::Down,
        Key::Tab,
        Key::Backspace,
        Key::Other,
    ] {
        app.handle_key(key, 1);
        assert_eq!(app.state, AppState::PasswordInput);
    }
    app.handle_key(Key::Esc, 2);
    assert_eq!(app.state, AppState::NetworkList);
    assert_eq!(app.password_input, "");
}

#[test]
fn password_editing_and_visibility() {
    let mut app = listed(vec![net("B", 90, true, 5200, false)]);
    app.select_network(10);
    app.handle_key(Key::Char('a'), 0);
    app.handle_key(Key::Char('b'), 0);
    app.handle_key(Key::Backspace, 0);
    assert_eq!(app.password_input, "a");
    assert!(!app.password_visible);
    app.handle_key(Key::Tab, 0);
    assert!(app.password_visible);
    app.handle_key(Key::Tab, 0);
    assert!(!app.password_visible);
    app.remove_char_from_password();
    app.remove_char_from_password();
    assert_eq!(app.password_input, "");
}

#[test]
fn missing_credential_is_rejected_before_dispatch() {
    let mut app = listed(vec![net("B", 90, true, 5200, false)]);
    app.select_network(10);
    app.handle_key(Key::Char('p'), 0);
    app.handle_key(Key::Enter, 0);
    assert_eq!(app.state, AppState::Connecting);
    app.password_input.clear();
    let r = app.prepare_connect();
    assert_eq!(r.err(), Some(ConnectError::MissingCredential));
    assert_eq!(app.state, AppState::PasswordInput);
    assert_eq!(app.status_message, "Password required for secured network");
}

#[test]
fn prepare_connect_without_selection() {
    let mut app = App::new();
    let r = app.prepare_connect();
    assert_eq!(r.err(), Some(ConnectError::NoSelection));
    assert_eq!(app.state, AppState::NetworkList);
}

#[test]
fn prepare_connect_builds_requests() {
    let mut app = listed(vec![net("Open", 70, false, 2412, false)]);
    app.select_network(0);
    let req = app.prepare_connect().expect("open network needs no credential");
    assert_eq!(req.ssid, "Open");
    assert!(!req.secured);
    assert!(req.credential.is_none());

    let mut app = listed(vec![net("B", 90, true, 5200, false)]);
    app.select_network(0);
    for c in ['p', 'w'] {
        app.add_char_to_password(c);
    }
    app.confirm_password(1);
    let req = app.prepare_connect().expect("credential is present");
    assert_eq!(req.ssid, "B");
    assert!(req.secured);
    assert_eq!(req.credential.as_deref(), Some("pw"));
}

#[test]
fn failed_connect_reaches_result_and_acknowledge_rescans() {
    let mut app = listed(vec![net("B", 90, true, 5200, false)]);
    app.select_network(10);
    for c in ['p', 'w'] {
        app.handle_key(Key::Char(c), 0);
    }
    app.handle_key(Key::Enter, 11);
    assert_eq!(app.state, AppState::Connecting);
    app.apply_connection_outcome(Err("auth-rejected".to_string()));
    assert_eq!(app.state, AppState::ConnectionResult);
    assert!(!app.connection_success);
    assert_eq!(app.connection_error.as_deref(), Some("auth-rejected"));
    assert_eq!(app.status_message, "Connection failed");
    app.handle_key(Key::Enter, 12);
    assert_eq!(app.state, AppState::Scanning);
    assert!(app.networks.is_empty());
    assert!(app.connection_error.is_none());
    assert!(!app.connection_success);
    assert_eq!(app.selected_network.as_ref().unwrap().ssid, "B");
}

#[test]
fn successful_outcomes_name_the_operation() {
    let mut app = listed(vec![net("Open", 70, false, 2412, false)]);
    app.select_network(0);
    app.apply_connection_outcome(Ok(()));
    assert!(app.connection_success);
    assert_eq!(app.status_message, "Connected successfully!");

    let mut app = listed(vec![net("Mine", 70, false, 2412, true)]);
    app.select_network(0);
    app.apply_connection_outcome(Ok(()));
    assert_eq!(app.state, AppState::ConnectionResult);
    assert!(app.connection_success);
    assert_eq!(app.status_message, "Disconnected successfully!");

    let mut app = listed(vec![net("Mine", 70, false, 2412, true)]);
    app.select_network(0);
    app.apply_connection_outcome(Err("timeout".to_string()));
    assert_eq!(app.status_message, "Disconnection failed");
}

#[test]
fn selection_survives_rescan_when_ssid_reappears() {
    let mut app = listed(vec![
        net("a", 90, false, 2412, false),
        net("X", 50, false, 2412, false),
    ]);
    app.next();
    assert_eq!(app.selected_index, 1);
    app.handle_key(Key::Char('r'), 0);
    assert_eq!(app.state, AppState::Scanning);
    assert!(app.networks.is_empty());
    assert_eq!(app.selected_network.as_ref().unwrap().ssid, "X");
    app.apply_scan_results(
        vec![
            net("X", 80, false, 5180, false),
            net("a", 60, false, 2412, false),
        ],
        1,
    );
    assert_eq!(app.state, AppState::NetworkList);
    assert_eq!(app.selected_index, 0);
    assert_eq!(app.networks[app.selected_index].ssid, "X");
    assert!(app.selected_network.is_none());
}

#[test]
fn selection_resets_when_ssid_disappears() {
    let mut app = listed(vec![
        net("a", 90, false, 2412, false),
        net("X", 50, false, 2412, false),
    ]);
    app.next();
    app.handle_key(Key::Char('r'), 0);
    app.apply_scan_results(
        vec![
            net("b", 80, false, 5180, false),
            net("a", 60, false, 2412, false),
        ],
        1,
    );
    assert_eq!(app.selected_index, 0);
    assert!(app.selected_network.is_none());
}

#[test]
fn empty_scan_keeps_scanning() {
    let mut app = App::new();
    app.apply_scan_results(Vec::new(), 3);
    assert_eq!(app.state, AppState::Scanning);
    assert_eq!(app.status_message, "Scanning for WiFi networks...");
    assert_eq!(app.network_count, 0);
    assert_eq!(app.last_scan_time, Some(3));
}

#[test]
fn nonempty_scan_shows_list_and_counts() {
    let mut app = App::new();
    app.apply_scan_results(
        vec![
            net("a", 90, false, 2412, false),
            net("b", 60, false, 2412, false),
        ],
        9,
    );
    assert_eq!(app.state, AppState::NetworkList);
    assert_eq!(app.network_count, 2);
    assert_eq!(app.last_scan_time, Some(9));
    assert_eq!(app.status_message, "Found 2 network(s). Ready to connect!");
}

#[test]
fn disconnect_key_only_acts_on_connected_network() {
    let mut app = listed(vec![
        net("other", 90, false, 2412, false),
        net("Mine", 50, true, 5180, true),
    ]);
    app.handle_key(Key::Char('d'), 4);
    assert_eq!(app.state, AppState::NetworkList);
    app.next();
    app.handle_key(Key::Char('d'), 4);
    assert_eq!(app.state, AppState::Disconnecting);
    assert!(app.is_disconnect_operation);
    assert_eq!(app.connection_start_time, Some(4));
    assert_eq!(app.disconnect_request().as_deref(), Some("Mine"));
}

#[test]
fn overlays_open_and_close() {
    let mut app = listed(vec![net("a", 90, false, 2412, false)]);
    app.handle_key(Key::Char('h'), 0);
    assert_eq!(app.state, AppState::Help);
    app.handle_key(Key::Char('x'), 0);
    assert_eq!(app.state, AppState::Help);
    app.handle_key(Key::Esc, 0);
    assert_eq!(app.state, AppState::NetworkList);
    app.handle_key(Key::Char('i'), 0);
    assert_eq!(app.state, AppState::NetworkDetails);
    app.handle_key(Key::Char('i'), 0);
    assert_eq!(app.state, AppState::NetworkList);
}

#[test]
fn quit_reachable_from_phases() {
    let mut app = App::new();
    app.handle_key(Key::Esc, 0);
    assert!(app.should_quit);

    let mut app = listed(vec![net("a", 90, false, 2412, false)]);
    app.handle_key(Key::Char('q'), 0);
    assert!(app.should_quit);

    let mut app = listed(vec![net("a", 90, false, 2412, true)]);
    app.select_network(0);
    assert_eq!(app.state, AppState::Disconnecting);
    app.handle_key(Key::Esc, 0);
    assert!(app.should_quit);
}

#[test]
fn pending_work_follows_phase() {
    let mut app = App::new();
    assert_eq!(app.pending_work(), PendingWork::Scan);
    app.apply_scan_results(vec![net("a", 90, false, 2412, false)], 0);
    assert_eq!(app.pending_work(), PendingWork::Idle);
    app.select_network(0);
    assert_eq!(app.pending_work(), PendingWork::Connect);
    app.apply_connection_outcome(Ok(()));
    assert_eq!(app.pending_work(), PendingWork::Idle);

    let mut app = listed(vec![net("a", 90, false, 2412, true)]);
    app.select_network(0);
    assert_eq!(app.pending_work(), PendingWork::Disconnect);
}

#[test]
fn adapter_info_is_recorded_once() {
    let mut app = App::new();
    app.record_adapter_info(Some("wlan0".to_string()));
    assert_eq!(app.adapter_info.as_deref(), Some("wlan0"));
    app.record_adapter_info(Some("wlan1".to_string()));
    assert_eq!(app.adapter_info.as_deref(), Some("wlan0"));
}

#[test]
fn scan_failure_surfaces_as_status_only() {
    let mut app = App::new();
    app.report_scan_failure("nmcli scan failed: no adapter".to_string());
    assert_eq!(app.state, AppState::Scanning);
    assert_eq!(app.status_message, "nmcli scan failed: no adapter");
    assert!(!app.should_quit);
}

#[test]
fn confirm_without_selection_keeps_status() {
    let mut app = App::new();
    app.add_char_to_password('x');
    app.confirm_password(5);
    assert_eq!(app.state, AppState::Connecting);
    assert_eq!(app.status_message, "Scanning for networks...");
    assert_eq!(app.connection_start_time, Some(5));
}

#[test]
fn result_phase_quits_on_q() {
    let mut app = listed(vec![net("Open", 70, false, 2412, false)]);
    app.select_network(0);
    app.apply_connection_outcome(Ok(()));
    app.handle_key(Key::Char('q'), 0);
    assert!(app.should_quit);
}

#[test]
fn keys_navigate_during_scanning_without_transition() {
    let mut app = App::new();
    app.handle_key(Key::Down, 0);
    assert_eq!(app.state, AppState::Scanning);
    assert_eq!(app.selected_index, 0);
}
