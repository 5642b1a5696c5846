use maratui::brew_timer::BrewTimer;
use maratui::screens::{Graphs, Rat};
use maratui::mqtt::{cup_count_from_text, cup_counter_topic, parse_cup_counter, parse_mqtt_host_port, publish_qos, publish_topic};
use maratui::state::global_state::{AppError, MqttOutboundMessage};
use maratui::state::{ConnectionStatus, DeviceInfo, GlobalAppState};
use maratui::supervisor::{due, stage_delay_ms, WifiActions, WifiMonitor};
use maratui::telemetry::{MachineMode, TelemetryFrame};
use maratui::text::{i64_text, to_ascii_lowercase, u64_text};
use maratui::uart_reader::{LineAssembler, LineEvent};

fn feed(a: &mut LineAssembler, text: &str) -> Vec<LineEvent> {
    text.bytes().map(|b| a.push_byte(b)).collect()
}

#[test]
fn uart_lines_become_frames() {
    let mut a = LineAssembler::new();
    let events = feed(&mut a, "\r\nC1.10,037,138,035,0000,1,0\r\n");
    let frames: Vec<&TelemetryFrame> = events
        .iter()
        .filter_map(|e| if let LineEvent::Frame(f) = e { Some(f) } else { None })
        .collect();
    assert_eq!(frames.len(), 1);
    assert_eq!(frames[0].mode, MachineMode::SteamC);
    assert_eq!(frames[0].raw_string, "C1.10,037,138,035,0000,1,0");
    assert!(matches!(events[0], LineEvent::Pending));
    let events = feed(&mut a, "garbage\n");
    match events.last().unwrap() {
        LineEvent::Rejected { line, .. } => assert_eq!(line, "garbage"),
        _ => panic!("expected a rejected line"),
    }
    assert!(matches!(a.push_byte(0xc3), LineEvent::Skipped(0xc3)));
}

#[test]
fn uart_overlong_line_is_discarded() {
    let mut a = LineAssembler::new();
    for _ in 0..256 {
        assert!(matches!(a.push_byte(b'7'), LineEvent::Pending));
    }
    assert!(matches!(a.push_byte(b'7'), LineEvent::Overflow));
    assert!(matches!(a.push_byte(b'\n'), LineEvent::Pending));
}

#[test]
fn broker_addresses() {
    assert_eq!(parse_mqtt_host_port("mqtt://192.168.1.5:1884"), Some(("192.168.1.5".to_string(), 1884)));
    assert_eq!(parse_mqtt_host_port("tcp://broker"), Some(("broker".to_string(), 1883)));
    assert_eq!(parse_mqtt_host_port("ws://h:99/path"), Some(("h".to_string(), 99)));
    assert_eq!(parse_mqtt_host_port("mqtt://[::1]:1883"), Some(("[::1]".to_string(), 1883)));
    assert_eq!(parse_mqtt_host_port("h:abc"), None);
    assert_eq!(parse_mqtt_host_port("h:70000"), None);
}

#[test]
fn publication_topics() {
    let rel = MqttOutboundMessage { topic_suffix: "telemetry".into(), payload: "{}".into(), absolute: false, retain: false };
    let abs = MqttOutboundMessage { topic_suffix: "homeassistant/x".into(), payload: "{}".into(), absolute: true, retain: true };
    assert_eq!(publish_topic("mara", &rel), "mara/telemetry");
    assert_eq!(publish_topic("mara", &abs), "homeassistant/x");
    assert_eq!(publish_qos(&rel), 0);
    assert_eq!(publish_qos(&abs), 1);
    assert_eq!(cup_counter_topic("mara"), "mara/cup_counter");
}

#[test]
fn periodic_work_and_wifi_supervision() {
    assert!(due(None, 0, 10_000));
    assert!(!due(Some(100), 10_099, 10_000));
    assert!(due(Some(100), 10_100, 10_000));
    assert_eq!(stage_delay_ms(300), 500);
    assert_eq!(stage_delay_ms(900), 0);
    let mut w = WifiMonitor::new();
    assert!(w.check_due(0));
    assert_eq!(w.after_check(0, true), WifiActions { report: None, reconnect: false });
    assert!(!w.check_due(5_000));
    assert_eq!(w.after_check(10_000, false), WifiActions { report: Some(false), reconnect: true });
    assert_eq!(w.after_check(20_000, false), WifiActions { report: None, reconnect: false });
    assert_eq!(w.after_check(30_000, false), WifiActions { report: None, reconnect: true });
    assert_eq!(w.after_check(40_000, true), WifiActions { report: Some(true), reconnect: false });
    assert_eq!(w.reconnect_at, None);
}

#[test]
fn brew_timer_runs_and_stops() {
    let mut t = BrewTimer::new();
    assert!(!t.is_running());
    assert_eq!(t.elapsed_secs(50), 0);
    t.start(1_000);
    assert!(t.is_running());
    assert_eq!(t.elapsed(4_500), 3_500);
    assert_eq!(t.elapsed_secs(4_500), 3);
    t.stop(6_000);
    assert!(!t.is_running());
    assert_eq!(t.elapsed(9_000), 0);
    assert_eq!(t.elapsed_secs(99_000), 5);
}

#[test]
fn chart_bounds_follow_samples() {
    let mut state = GlobalAppState::default();
    assert_eq!(Graphs::y_bounds(&state), (30, 150));
    state.machine_state.current_boiler_data.push_back(120);
    state.machine_state.target_boiler_data.push_back(138);
    state.machine_state.current_hx_data.push_back(90);
    assert_eq!(Graphs::y_bounds(&state), (85, 145));
    state.machine_state.target_boiler_data.push_back(0);
    assert_eq!(Graphs::y_bounds(&state), (0, 145));
    state.machine_state.current_hx_data.push_back(140);
    assert_eq!(Graphs::y_bounds(&state), (0, 145));
}

#[test]
fn debug_screen_lines() {
    let mut state = GlobalAppState::default();
    let lines = maratui::screens::Debug::lines(&state, 1_000);
    assert_eq!(lines.net, "NET: Wi-Fi=Disconnected MQTT=Disconnected");
    assert_eq!(lines.device, "DEV: ssid= rssi=?");
    assert_eq!(lines.uptime, "ip=? up=0m heap=N/A rx=?");
    assert_eq!(lines.uart, "UART No data (waiting for connection...)");
    state.wifi_status = ConnectionStatus::Connected;
    state.mqtt_status = ConnectionStatus::Error("x".into());
    state.device_info = DeviceInfo {
        wifi_ssid: "cafe".into(),
        wifi_rssi: Some(-70),
        ip: Some("10.0.0.9".into()),
        uptime_s: 3_700,
        free_heap_b: Some(2_048),
        last_telemetry_age_s: None,
    };
    state.machine_state.last_frame = Some(TelemetryFrame::debug_frame());
    state.last_uart_frame_at = Some(10_000);
    let lines = maratui::screens::Debug::lines(&state, 10_100);
    assert_eq!(lines.net, "NET: Wi-Fi=Connected MQTT=Error(\"x\")");
    assert_eq!(lines.device, "DEV: ssid=cafe rssi=-70dBm");
    assert_eq!(lines.uptime, "ip=10.0.0.9 up=1h1m heap=2kB rx=0s");
    assert_eq!(lines.uart, "UART● C1.10,120,138,090,0000,1,0");
    assert_eq!(maratui::screens::Debug::lines(&state, 12_000).uart, "UART  C1.10,120,138,090,0000,1,0");
}

#[test]
fn backlight_and_redraw() {
    let mut state = GlobalAppState::default();
    assert!(!state.backlight_active(0));
    state.current_screen = maratui::screens::Screen::Debug;
    assert!(state.backlight_active(0));
    assert!(!state.take_redraw_request());
    state.request_redraw();
    assert!(state.take_redraw_request());
    assert!(!state.take_redraw_request());
    assert!(!state.has_telemetry());
}

#[test]
fn number_text() {
    assert_eq!(u64_text(0), "0");
    assert_eq!(u64_text(18_446_744_073_709_551_615), "18446744073709551615");
    assert_eq!(i64_text(-62), "-62");
    assert_eq!(i64_text(i64::MIN), "-9223372036854775808");
    assert_eq!(to_ascii_lowercase("TrUe Ä"), "true Ä");
}

#[test]
fn rat_status_follows_water_alarm() {
    let mut state = GlobalAppState::default();
    assert_eq!(Rat::status_text(&state), "Let's make some coffee!");
    state.error = Some(AppError::WaterRefillNeeded { code: 5 });
    assert_eq!(Rat::status_text(&state), "I am thirsty!");
    state.error = None;
    assert_eq!(Rat::status_text(&state), "Let's make some coffee!");
}

#[test]
fn cup_counter_payloads() {
    assert_eq!(parse_cup_counter(b" 42\n"), Some(42));
    assert_eq!(parse_cup_counter(b"+7"), Some(7));
    assert_eq!(parse_cup_counter(b"18446744073709551615"), Some(u64::MAX));
    assert_eq!(parse_cup_counter(b"18446744073709551616"), None);
    assert_eq!(parse_cup_counter(b"abc"), None);
    assert_eq!(parse_cup_counter(b"-1"), None);
    assert_eq!(parse_cup_counter(b""), None);
    assert_eq!(parse_cup_counter(b"\xff1"), None);
    assert_eq!(parse_cup_counter("\u{a0}9\u{3000}".as_bytes()), Some(9));
    assert_eq!(cup_count_from_text("\t 12 "), Some(12));
    assert_eq!(cup_count_from_text("1 2"), None);
}

#[test]
fn uart_recovers_after_discarded_line() {
    let mut a = LineAssembler::new();
    for _ in 0..300 {
        a.push_byte(b'x');
    }
    let events = feed(&mut a, "\nC1.10,120,138,090,0000,1,0\r");
    match events.last().unwrap() {
        LineEvent::Frame(f) => assert_eq!(f.raw_string, "C1.10,120,138,090,0000,1,0"),
        _ => panic!("expected a frame"),
    }
    // 300 - 257 characters followed the discarded part and form a line of their own.
    match &events[0] {
        LineEvent::Rejected { line, .. } => assert_eq!(line, &"x".repeat(43)),
        _ => panic!("expected the rest to be rejected"),
    }
    assert!(events[1..events.len() - 1].iter().all(|e| matches!(e, LineEvent::Pending)));
}

#[test]
fn brew_timer_default_is_stopped() {
    let t = BrewTimer::default();
    assert!(!t.is_running());
    assert_eq!(t.elapsed(5_000), 0);
    assert_eq!(t.elapsed_secs(5_000), 0);
}

#[test]
fn brew_timer_runs_iff_last_call_was_start() {
    let mut t = BrewTimer::new();
    assert!(!t.is_running());
    t.stop(10);
    assert!(!t.is_running());
    t.start(20);
    t.start(30);
    assert!(t.is_running());
    t.stop(2_030);
    assert!(!t.is_running());
    assert_eq!(t.elapsed_secs(9_999), 2);
    t.start(3_000);
    assert!(t.is_running());
}
