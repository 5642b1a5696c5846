use maratui::telemetry::{
    parse_uart_line, update_state_with_events, AppEvent, MachineMode, MachineState, ParseError,
    TelemetryFrame,
};

const T0: u64 = 1_000_000;

#[test]
fn parse_normal() {
    let f = parse_uart_line("C1.10,037,138,035,0000,1,0").unwrap();
    assert_eq!(f.mode, MachineMode::SteamC);
    assert_eq!(f.sw_version, "1.10");
    assert_eq!(f.boiler_now_c, 37);
    assert_eq!(f.boiler_target_c, Some(138));
    assert_eq!(f.no_water_code, None);
    assert_eq!(f.hx_now_c, 35);
    assert_eq!(f.boost_countdown_s, 0);
    assert_eq!(f.heating_on, true);
    assert_eq!(f.pump_on, false);
}

#[test]
fn parse_no_water() {
    let f = parse_uart_line("C1.10,037,L65,035,0000,0,0").unwrap();
    assert_eq!(f.boiler_target_c, None);
    assert_eq!(f.no_water_code, Some(65));
    assert_eq!(f.heating_on, false);
    assert_eq!(f.pump_on, false);
}

#[test]
fn events_water_refill_needed_and_cleared() {
    let mut st = MachineState::default();
    let t0 = T0;

    let ok = parse_uart_line("C1.10,037,138,035,0000,1,0").unwrap();
    let (_s0, e0) = update_state_with_events(&mut st, ok, t0);
    assert!(e0.is_empty());

    let nowater = parse_uart_line("C1.10,037,L65,035,0000,0,0").unwrap();
    let (_s1, e1) = update_state_with_events(&mut st, nowater, t0 + 100);
    assert_eq!(e1, vec![AppEvent::WaterRefillNeeded { code: 65 }]);

    let ok2 = parse_uart_line("C1.10,037,138,035,0000,1,0").unwrap();
    let (_s2, e2) = update_state_with_events(&mut st, ok2, t0 + 200);
    assert_eq!(e2, vec![AppEvent::WaterRefillCleared]);
}

#[test]
fn events_mode_changed() {
    let mut st = MachineState::default();
    let t0 = T0;

    let c = parse_uart_line("C1.10,037,138,035,0000,1,0").unwrap();
    let (_s0, e0) = update_state_with_events(&mut st, c, t0);
    assert!(e0.is_empty());

    let x = parse_uart_line("X1.10,037,138,035,0000,0,0").unwrap();
    let (_s1, e1) = update_state_with_events(&mut st, x, t0 + 50);
    assert_eq!(
        e1,
        vec![AppEvent::ModeChanged {
            from: MachineMode::SteamC,
            to: MachineMode::Offline
        }]
    );
}

#[test]
fn shot_of_ten_seconds_or_more_ends_a_shot() {
    let mut st = MachineState::default();
    let off = parse_uart_line("C1.10,037,138,035,0000,1,0").unwrap();
    update_state_with_events(&mut st, off, T0);
    let on = parse_uart_line("C1.10,037,138,035,0000,1,1").unwrap();
    let (s1, e1) = update_state_with_events(&mut st, on, T0 + 200);
    assert_eq!(e1, vec![AppEvent::ShotStarted]);
    assert!(s1.is_extracting);
    assert_eq!(st.shot_started_at, Some(T0 + 200));
    let off2 = parse_uart_line("C1.10,039,138,035,0000,1,0").unwrap();
    let (s2, e2) = update_state_with_events(&mut st, off2, T0 + 200 + 27_900);
    assert_eq!(e2, vec![AppEvent::ShotEnded { duration: 27 }]);
    assert!(!s2.is_extracting);
    assert_eq!(st.shot_started_at, None);
    assert_eq!(st.last_update, Some(T0 + 200 + 27_900));
}

#[test]
fn short_pump_run_is_aborted() {
    let mut st = MachineState::default();
    let on = parse_uart_line("C1.10,037,138,035,0000,1,1").unwrap();
    let (_s, e) = update_state_with_events(&mut st, on, T0);
    assert_eq!(e, vec![AppEvent::ShotStarted]);
    let off = parse_uart_line("C1.10,037,138,035,0000,1,0").unwrap();
    let (_s, e) = update_state_with_events(&mut st, off, T0 + 2_800);
    assert_eq!(e, vec![AppEvent::ShotAborted { duration: 2 }]);
    let on = parse_uart_line("C1.10,037,138,035,0000,1,1").unwrap();
    update_state_with_events(&mut st, on, T0 + 5_000);
    let off = parse_uart_line("C1.10,037,138,035,0000,1,0").unwrap();
    let (_s, e) = update_state_with_events(&mut st, off, T0 + 14_999);
    assert_eq!(e, vec![AppEvent::ShotAborted { duration: 9 }]);
}

#[test]
fn water_code_change_and_combined_events() {
    let mut st = MachineState::default();
    let a = parse_uart_line("C1.10,037,L65,035,0000,1,0").unwrap();
    let (_s, e) = update_state_with_events(&mut st, a, T0);
    assert_eq!(e, vec![AppEvent::WaterRefillNeeded { code: 65 }]);
    let b = parse_uart_line("S1.10,037,L66,035,0000,1,1").unwrap();
    let (_s, e) = update_state_with_events(&mut st, b, T0 + 10);
    assert_eq!(
        e,
        vec![
            AppEvent::ModeChanged { from: MachineMode::SteamC, to: MachineMode::SteamS },
            AppEvent::ShotStarted,
            AppEvent::WaterRefillNeeded { code: 66 },
        ]
    );
    let c = parse_uart_line("S1.10,037,L66,035,0000,1,1").unwrap();
    let (_s, e) = update_state_with_events(&mut st, c, T0 + 20);
    assert!(e.is_empty());
}

#[test]
fn parse_errors() {
    assert_eq!(parse_uart_line("   "), Err(ParseError::Empty));
    assert_eq!(parse_uart_line(""), Err(ParseError::Empty));
    assert_eq!(parse_uart_line("C1.10"), Err(ParseError::BadPrefix));
    assert_eq!(
        parse_uart_line("C1.10,037,138,035,0000,1"),
        Err(ParseError::WrongFieldCount { got: 5, expected: 6 })
    );
    assert_eq!(
        parse_uart_line("C1.10,037,138,035,0000,1,0,9"),
        Err(ParseError::WrongFieldCount { got: 7, expected: 6 })
    );
    assert_eq!(
        parse_uart_line("C1.10,0x7,138,035,0000,1,0"),
        Err(ParseError::BadNumber { field: "boiler_now_c", value: "0x7".to_string() })
    );
    assert_eq!(
        parse_uart_line("C1.10,037,LXX,035,0000,1,0"),
        Err(ParseError::BadNumber { field: "no_water_code", value: "XX".to_string() })
    );
    assert_eq!(
        parse_uart_line("C1.10,037,99999,035,0000,1,0"),
        Err(ParseError::BadNumber { field: "boiler_target_c", value: "99999".to_string() })
    );
    assert_eq!(
        parse_uart_line("C1.10,037,138,035,0000,2,0"),
        Err(ParseError::BadBool { field: "heating_on", value: "2".to_string() })
    );
    assert_eq!(
        parse_uart_line("C1.10,037,138,035,0000,1, yes "),
        Err(ParseError::BadBool { field: "pump_on", value: "yes".to_string() })
    );
}

#[test]
fn parse_trims_and_keeps_raw_line() {
    let f = parse_uart_line("  -1.09, 065 , 65535 ,+35,0000, 1 ,0 \r\n").unwrap();
    assert_eq!(f.mode, MachineMode::Coffee);
    assert_eq!(f.sw_version, "1.09");
    assert_eq!(f.boiler_now_c, 65);
    assert_eq!(f.boiler_target_c, Some(65535));
    assert_eq!(f.hx_now_c, 35);
    assert_eq!(f.raw_string, "  -1.09, 065 , 65535 ,+35,0000, 1 ,0 \r\n");
    let q = parse_uart_line("Q2.0,1,2,3,4,0,1").unwrap();
    assert_eq!(q.mode, MachineMode::Unknown('Q'));
    assert!(q.pump_on);
}

#[test]
fn debug_frames_match_their_lines() {
    for f in [
        TelemetryFrame::debug_frame(),
        TelemetryFrame::debug_pump_on_frame(),
        TelemetryFrame::debug_no_water_frame(),
    ] {
        let mut parsed = parse_uart_line(&f.raw_string).unwrap();
        // the no-water frame labels its `C` line as coffee mode; compare the other fields
        parsed.mode = f.mode;
        assert_eq!(parsed, f);
    }
}

#[test]
fn machine_mode_names() {
    assert_eq!(MachineMode::from_char('-'), MachineMode::Coffee);
    assert_eq!(MachineMode::from_char('+'), MachineMode::Coffee);
    assert_eq!(MachineMode::from_char('S'), MachineMode::SteamS);
    assert_eq!(MachineMode::from_char('V'), MachineMode::SteamV);
    assert_eq!(MachineMode::from_char('X'), MachineMode::Offline);
    assert_eq!(MachineMode::from_char('z'), MachineMode::Unknown('z'));
    assert_eq!(MachineMode::SteamV.to_string(), "Steam");
    assert_eq!(MachineMode::Unknown('z').to_string(), "Unknown");
    assert_eq!(MachineMode::Unknown('z').debug_text(), "Unknown('z')");
    assert_eq!(MachineMode::SteamC.debug_text(), "SteamC");
    assert_eq!(MachineMode::default(), MachineMode::Offline);
}

#[test]
fn reset_session_forgets_everything() {
    let mut st = MachineState::default();
    let on = TelemetryFrame::debug_pump_on_frame();
    update_state_with_events(&mut st, on, T0);
    st.current_boiler_data.push_back(120);
    st.reset_session();
    assert!(st.last_frame.is_none());
    assert!(st.shot_started_at.is_none());
    assert!(st.current_boiler_data.is_empty());
}

#[test]
fn events_shot_start_and_end() {
    let mut st = MachineState::default();
    let t0 = T0;

    let off = parse_uart_line("C1.10,037,138,035,0000,1,0").unwrap();
    let (_s0, e0) = update_state_with_events(&mut st, off, t0);
    assert!(e0.is_empty());

    let on = parse_uart_line("C1.10,037,138,035,0000,1,1").unwrap();
    let (_s1, e1) = update_state_with_events(&mut st, on, t0 + 200);
    assert_eq!(e1, vec![AppEvent::ShotStarted]);

    let on2 = parse_uart_line("C1.10,038,138,035,0000,1,1").unwrap();
    let (_s2, e2) = update_state_with_events(&mut st, on2, t0 + 2_000);
    assert!(e2.is_empty());

    // The pump ran 2.8 s: whole seconds, and under 10 s it is an aborted run.
    let off2 = parse_uart_line("C1.10,039,138,035,0000,1,0").unwrap();
    let (_s3, e3) = update_state_with_events(&mut st, off2, t0 + 3_000);
    assert_eq!(e3, vec![AppEvent::ShotAborted { duration: 2 }]);
}
