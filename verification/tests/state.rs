use maratui::button::{Button, ButtonPressType};
use maratui::screens::Screen;
use maratui::state::global_state::{BACKLIGHT_TIMEOUT_MS, MACHINE_OFFLINE_TIMEOUT_MS};
use maratui::state::{
    AppError, AppEvent, AppStateMachine, ConnectionStatus, DeviceInfo, ExtractionState,
    GlobalAppState,
};
use maratui::telemetry::{AppEvent as TelemetryEvent, MachineMode, TelemetryFrame};

const NOW: u64 = 3_600_000;

#[test]
fn test_app_event_from_telemetry() {
    let tel_event = TelemetryEvent::ShotStarted;
    let app_event = AppEvent::from_telemetry(tel_event);
    assert_eq!(app_event, AppEvent::ShotStarted);
}

#[test]
fn test_from_telemetry_all_variants() {
    assert_eq!(
        AppEvent::from_telemetry(TelemetryEvent::ShotEnded { duration: 30 }),
        AppEvent::ShotEnded { duration: 30 }
    );
    assert_eq!(
        AppEvent::from_telemetry(TelemetryEvent::ShotAborted { duration: 5 }),
        AppEvent::ShotAborted { duration: 5 }
    );
    assert_eq!(
        AppEvent::from_telemetry(TelemetryEvent::ModeChanged {
            from: MachineMode::Coffee,
            to: MachineMode::SteamS
        }),
        AppEvent::ModeChanged {
            from: MachineMode::Coffee,
            to: MachineMode::SteamS
        }
    );
    assert_eq!(
        AppEvent::from_telemetry(TelemetryEvent::WaterRefillNeeded { code: 65 }),
        AppEvent::WaterRefillNeeded { code: 65 }
    );
    assert_eq!(
        AppEvent::from_telemetry(TelemetryEvent::WaterRefillCleared),
        AppEvent::WaterRefillCleared
    );
}

#[test]
fn test_app_event_is_telemetry_event() {
    assert!(AppEvent::ShotStarted.is_telemetry_event());
    assert!(AppEvent::ShotEnded { duration: 30 }.is_telemetry_event());
    assert!(AppEvent::ShotAborted { duration: 5 }.is_telemetry_event());
    assert!(AppEvent::WaterRefillNeeded { code: 65 }.is_telemetry_event());
    assert!(AppEvent::WaterRefillCleared.is_telemetry_event());
    assert!(AppEvent::ModeChanged {
        from: MachineMode::Coffee,
        to: MachineMode::SteamS
    }
    .is_telemetry_event());
    assert!(AppEvent::CupCounterUpdated { cups: 1 }.is_telemetry_event());

    // Infrastructure events must NOT appear in the telemetry log
    assert!(!AppEvent::WifiStatusChanged(ConnectionStatus::Connected).is_telemetry_event());
    assert!(!AppEvent::MqttStatusChanged(ConnectionStatus::Connected).is_telemetry_event());
    assert!(!AppEvent::PublishMqttEvent {
        topic_suffix: "t".into(),
        payload: "p".into()
    }
    .is_telemetry_event());
    assert!(!AppEvent::NextScreen.is_telemetry_event());
    assert!(!AppEvent::PreviousScreen.is_telemetry_event());
    assert!(!AppEvent::DebugScreen.is_telemetry_event());
    assert!(!AppEvent::ErrorOccurred { error: "e".into() }.is_telemetry_event());
    assert!(!AppEvent::ErrorCleared.is_telemetry_event());
    assert!(!AppEvent::LoadingComplete.is_telemetry_event());
}

#[test]
fn test_app_event_is_ui_event() {
    assert!(AppEvent::NextScreen.is_ui_event());
    assert!(AppEvent::PreviousScreen.is_ui_event());
    assert!(AppEvent::DebugScreen.is_ui_event());
    assert!(AppEvent::ErrorOccurred { error: "oops".into() }.is_ui_event());
    assert!(AppEvent::ErrorCleared.is_ui_event());

    // Non-UI events
    assert!(!AppEvent::ShotStarted.is_ui_event());
    assert!(!AppEvent::ShotEnded { duration: 30 }.is_ui_event());
    assert!(!AppEvent::WaterRefillCleared.is_ui_event());
    assert!(!AppEvent::CupCounterUpdated { cups: 1 }.is_ui_event());
    assert!(!AppEvent::WifiStatusChanged(ConnectionStatus::Connected).is_ui_event());
    assert!(!AppEvent::LoadingComplete.is_ui_event());
}

#[test]
fn test_app_event_display() {
    assert_eq!(AppEvent::ShotStarted.to_string(), "Shot Started");
    assert_eq!(
        AppEvent::ShotEnded { duration: 42 }.to_string(),
        "Shot Ended (42 s)"
    );
    assert_eq!(
        AppEvent::ShotAborted { duration: 3 }.to_string(),
        "Shot Aborted (3 s)"
    );
    assert_eq!(
        AppEvent::ModeChanged {
            from: MachineMode::Coffee,
            to: MachineMode::SteamS
        }
        .to_string(),
        "Mode Changed: Coffee → Steam"
    );
    assert_eq!(
        AppEvent::WaterRefillNeeded { code: 7 }.to_string(),
        "Water Refill Needed (code: 7)"
    );
    assert_eq!(
        AppEvent::WaterRefillCleared.to_string(),
        "Water Refill Cleared"
    );
    assert_eq!(AppEvent::NextScreen.to_string(), "Next Screen");
    assert_eq!(AppEvent::PreviousScreen.to_string(), "Previous Screen");
    assert_eq!(AppEvent::DebugScreen.to_string(), "Debug Screen");
    assert_eq!(
        AppEvent::ErrorOccurred {
            error: "boom".into()
        }
        .to_string(),
        "Error: boom"
    );
    assert_eq!(AppEvent::ErrorCleared.to_string(), "Error Cleared");
    assert_eq!(
        AppEvent::WifiStatusChanged(ConnectionStatus::Connected).to_string(),
        "Wi-Fi status: Connected"
    );
    assert_eq!(
        AppEvent::MqttStatusChanged(ConnectionStatus::Disconnected).to_string(),
        "MQTT status: Disconnected"
    );
    assert_eq!(
        AppEvent::CupCounterUpdated { cups: 5 }.to_string(),
        "Cup counter updated: 5"
    );
    assert_eq!(
        AppEvent::PublishMqttEvent {
            topic_suffix: "evt".into(),
            payload: "{}".into()
        }
        .to_string(),
        "Publish MQTT event: suffix='evt' payload='{}'"
    );
    assert_eq!(
        AppEvent::DeviceInfoUpdated(DeviceInfo {
            uptime_s: 120,
            ..Default::default()
        })
        .to_string(),
        "Device info updated (uptime=120s)"
    );
    assert_eq!(
        AppEvent::LoadingStage {
            message: "Connecting",
            progress: 50
        }
        .to_string(),
        "Loading [50%]: Connecting"
    );
    assert_eq!(AppEvent::LoadingComplete.to_string(), "Loading complete");
}

#[test]
fn test_extraction_state_idle() {
    let state = ExtractionState::Idle {
        last_extraction_duration: None,
    };
    assert!(!state.is_extracting());
    assert_eq!(state.elapsed(NOW), None);
    assert_eq!(state.last_extraction_duration(), None);
}

#[test]
fn test_extraction_state_idle_with_duration() {
    let duration = 30;
    let state = ExtractionState::Idle {
        last_extraction_duration: Some(duration),
    };
    assert!(!state.is_extracting());
    assert_eq!(state.last_extraction_duration(), Some(duration));
}

#[test]
fn test_extraction_state_extracting() {
    let now = NOW;
    let state = ExtractionState::Extracting { started_at: now };
    assert!(state.is_extracting());
    assert!(state.elapsed(now).is_some());
    assert_eq!(state.last_extraction_duration(), None);
}

#[test]
fn test_global_app_state_default() {
    let state = GlobalAppState::default();
    assert_eq!(state.current_screen, Screen::default());
    assert_eq!(
        state.extraction_state,
        ExtractionState::Idle {
            last_extraction_duration: None
        }
    );
    assert_eq!(state.machine_state.last_frame, None);
    assert_eq!(state.cup_counter, None);
    assert_eq!(state.error, None);
}

#[test]
fn test_global_app_state_extraction_duration() {
    let mut state = GlobalAppState::default();
    assert_eq!(state.extraction_duration_secs(NOW), 0);

    state.extraction_state = ExtractionState::Extracting { started_at: NOW };
    assert!(state.extraction_duration_secs(NOW) > 0 || state.extraction_duration_secs(NOW) == 0);
    assert_eq!(state.extraction_duration_secs(NOW + 12_999), 12);
}

#[test]
fn test_global_app_state_error() {
    let mut state = GlobalAppState::default();
    assert!(!state.has_error());

    state.error = Some(AppError::WaterRefillNeeded { code: 65 });
    assert!(state.has_error());

    state.clear_error();
    assert!(!state.has_error());
}

#[test]
fn test_backlight_off_by_default() {
    let state = GlobalAppState::default();
    assert!(!state.backlight_should_be_on(NOW));
}

#[test]
fn test_backlight_on_after_activity() {
    let mut state = GlobalAppState::default();
    state.last_activity_at = Some(NOW);
    assert!(state.backlight_should_be_on(NOW));
}

#[test]
fn test_backlight_off_after_timeout() {
    let mut state = GlobalAppState::default();
    let past = NOW - BACKLIGHT_TIMEOUT_MS - 1;
    state.last_activity_at = Some(past);
    assert!(!state.backlight_should_be_on(NOW));
}

#[test]
fn test_handle_shot_started() {
    let mut state = GlobalAppState::default();
    assert_eq!(
        state.extraction_state,
        ExtractionState::Idle {
            last_extraction_duration: None
        }
    );

    AppStateMachine::handle_event(&mut state, AppEvent::ShotStarted, NOW);

    assert!(state.extraction_state.is_extracting());
}

#[test]
fn test_handle_shot_ended() {
    let mut state = GlobalAppState::default();
    state.extraction_state = ExtractionState::Extracting { started_at: NOW };

    let duration = 30;
    AppStateMachine::handle_event(&mut state, AppEvent::ShotEnded { duration }, NOW + 30_000);

    assert_eq!(
        state.extraction_state,
        ExtractionState::Idle {
            last_extraction_duration: Some(duration)
        }
    );
}

#[test]
fn test_handle_water_refill_needed() {
    let mut state = GlobalAppState::default();
    assert!(!state.has_error());

    AppStateMachine::handle_event(&mut state, AppEvent::WaterRefillNeeded { code: 65 }, NOW);

    assert!(state.has_error());
    assert_eq!(state.error, Some(AppError::WaterRefillNeeded { code: 65 }));
}

#[test]
fn test_handle_water_refill_cleared() {
    let mut state = GlobalAppState::default();
    state.error = Some(AppError::WaterRefillNeeded { code: 65 });

    AppStateMachine::handle_event(&mut state, AppEvent::WaterRefillCleared, NOW);

    assert!(!state.has_error());
}

#[test]
fn test_handle_next_screen() {
    let mut state = GlobalAppState::default();
    let initial_screen = state.current_screen;

    AppStateMachine::handle_event(&mut state, AppEvent::NextScreen, NOW);

    assert_eq!(state.current_screen, initial_screen.next());
}

#[test]
fn test_handle_previous_screen() {
    let mut state = GlobalAppState::default();
    state.current_screen = Screen::Dashboard;

    AppStateMachine::handle_event(&mut state, AppEvent::PreviousScreen, NOW);

    assert_eq!(state.current_screen, Screen::Dashboard.previous());
}

#[test]
fn test_handle_button_press_short() {
    let mut state = GlobalAppState::default();
    // Navigation is blocked until first telemetry arrives
    state.machine_state.last_frame = Some(TelemetryFrame::debug_frame());
    // Backlight must be on for a press to switch screens
    state.last_activity_at = Some(NOW);
    let initial_screen = state.current_screen;

    AppStateMachine::handle_button_press(&mut state, Button::Button1(ButtonPressType::Short), NOW);

    assert_eq!(state.current_screen, initial_screen.next());
}

#[test]
fn test_press_while_dark_only_wakes_backlight() {
    let mut state = GlobalAppState::default();
    state.machine_state.last_frame = Some(TelemetryFrame::debug_frame());
    // Backlight timed out (last activity well in the past)
    state.last_activity_at = Some(NOW - BACKLIGHT_TIMEOUT_MS - 1_000);
    let initial_screen = state.current_screen;

    AppStateMachine::handle_button_press(&mut state, Button::Button1(ButtonPressType::Short), NOW);

    // First press only wakes the backlight: screen must not change, activity refreshed
    assert_eq!(state.current_screen, initial_screen);
    assert!(state.backlight_should_be_on(NOW));

    // Second press (backlight now on) switches screens
    AppStateMachine::handle_button_press(&mut state, Button::Button1(ButtonPressType::Short), NOW);
    assert_eq!(state.current_screen, initial_screen.next());
}

#[test]
fn test_telemetry_resume_starts_new_session() {
    let mut state = GlobalAppState::default();
    let t0 = NOW;

    // First frame: a shot runs and is sampled into the graph buffers.
    let on = TelemetryFrame::debug_pump_on_frame();
    AppStateMachine::handle_telemetry_frame(&mut state, on, t0);
    assert!(state.take_redraw_request(), "first frame starts a session");
    assert!(!state.machine_state.current_boiler_data.is_empty());

    // Telemetry resumes after the machine was offline: buffers reset, redraw requested,
    // and no spurious shot-end event is logged from the stale pump-on frame.
    let events_before = state.events_log.len();
    let resume = TelemetryFrame::debug_frame();
    AppStateMachine::handle_telemetry_frame(
        &mut state,
        resume,
        t0 + MACHINE_OFFLINE_TIMEOUT_MS + 1_000,
    );
    assert!(state.take_redraw_request(), "resume starts a new session");
    // Exactly one fresh sample after the reset (no stale history)
    assert_eq!(state.machine_state.current_boiler_data.len(), 1);
    assert_eq!(
        state.events_log.len(),
        events_before,
        "no phantom transition events on resume"
    );
}

#[test]
fn test_handle_button_press_blocked_before_telemetry() {
    let mut state = GlobalAppState::default();
    assert!(state.machine_state.last_frame.is_none());
    let initial_screen = state.current_screen;

    AppStateMachine::handle_button_press(&mut state, Button::Button1(ButtonPressType::Short), NOW);

    // Screen must not change while no telemetry
    assert_eq!(state.current_screen, initial_screen);
}

#[test]
fn test_loading_short_press_toggles_backlight() {
    let mut state = GlobalAppState::default();
    assert!(state.machine_state.last_frame.is_none());
    assert!(state.backlight_on);

    AppStateMachine::handle_button_press(&mut state, Button::Button1(ButtonPressType::Short), NOW);
    assert!(!state.backlight_on);

    AppStateMachine::handle_button_press(&mut state, Button::Button1(ButtonPressType::Short), NOW);
    assert!(state.backlight_on);
}

#[test]
fn test_handle_multiple_events() {
    let mut state = GlobalAppState::default();

    let events = vec![
        AppEvent::ShotStarted,
        AppEvent::NextScreen,
        AppEvent::WaterRefillNeeded { code: 65 },
    ];

    AppStateMachine::handle_events(&mut state, events, NOW);

    assert!(state.extraction_state.is_extracting());
    assert!(state.has_error());
}

#[test]
fn test_shot_started_clears_error() {
    let mut state = GlobalAppState::default();
    state.error = Some(AppError::WaterRefillNeeded { code: 65 });

    AppStateMachine::handle_event(&mut state, AppEvent::ShotStarted, NOW);

    assert!(!state.has_error());
}

#[test]
fn test_extraction_duration_persistence() {
    let mut state = GlobalAppState::default();

    // Start extraction
    AppStateMachine::handle_event(&mut state, AppEvent::ShotStarted, NOW);
    assert!(state.extraction_state.is_extracting());
    assert_eq!(state.extraction_state.last_extraction_duration(), None);

    // End extraction with 30 second duration
    let duration = 30;
    AppStateMachine::handle_event(&mut state, AppEvent::ShotEnded { duration }, NOW + 30_000);

    // Verify duration is stored
    assert!(!state.extraction_state.is_extracting());
    assert_eq!(
        state.extraction_state.last_extraction_duration(),
        Some(duration)
    );

    // Start new extraction
    AppStateMachine::handle_event(&mut state, AppEvent::ShotStarted, NOW + 60_000);
    assert!(state.extraction_state.is_extracting());
    // Previous duration should be cleared when new extraction starts
    assert_eq!(state.extraction_state.last_extraction_duration(), None);
}

#[test]
fn test_handle_cup_counter_updated() {
    let mut state = GlobalAppState::default();
    assert_eq!(state.cup_counter, None);

    AppStateMachine::handle_event(&mut state, AppEvent::CupCounterUpdated { cups: 42 }, NOW);

    assert_eq!(state.cup_counter, Some(42));
}

#[test]
fn test_shot_aborted_resets_timer() {
    let mut state = GlobalAppState::default();

    // Simulate a previous real shot
    AppStateMachine::handle_event(&mut state, AppEvent::ShotStarted, NOW);
    AppStateMachine::handle_event(&mut state, AppEvent::ShotEnded { duration: 30 }, NOW);
    assert!(state.extraction_state.last_extraction_duration().is_some());

    // Short pump run — must not overwrite last_extraction_duration
    AppStateMachine::handle_event(&mut state, AppEvent::ShotStarted, NOW);
    AppStateMachine::handle_event(&mut state, AppEvent::ShotAborted { duration: 8 }, NOW);

    assert!(!state.extraction_state.is_extracting());
    assert_eq!(state.extraction_state.last_extraction_duration(), None);
}

#[test]
fn test_debug_screen_toggle() {
    let mut state = GlobalAppState::default();
    state.current_screen = Screen::Dashboard;

    // Enter Debug
    AppStateMachine::handle_event(&mut state, AppEvent::DebugScreen, NOW);
    assert_eq!(state.current_screen, Screen::Debug);

    // Toggle back — should return to Dashboard
    AppStateMachine::handle_event(&mut state, AppEvent::DebugScreen, NOW);
    assert_eq!(state.current_screen, Screen::Dashboard);
    assert!(state.screen_before_debug.is_none());
}

#[test]
fn test_debug_screen_toggle_fallback_to_dashboard() {
    let mut state = GlobalAppState::default();
    // Enter Debug without prior screen set (default Dashboard)
    AppStateMachine::handle_event(&mut state, AppEvent::DebugScreen, NOW);
    AppStateMachine::handle_event(&mut state, AppEvent::DebugScreen, NOW);
    assert_eq!(state.current_screen, Screen::Dashboard);
}

#[test]
fn graphs_sample_once_per_second_and_keep_five_minutes() {
    let mut state = GlobalAppState::default();
    let frame = TelemetryFrame::debug_frame();
    for i in 0..400u64 {
        AppStateMachine::handle_telemetry_frame(&mut state, frame.clone(), 1_000 * i);
        AppStateMachine::handle_telemetry_frame(&mut state, frame.clone(), 1_000 * i + 500);
    }
    let ms = &state.machine_state;
    assert_eq!(ms.current_boiler_data.len(), 300);
    assert_eq!(ms.target_boiler_data.len(), 300);
    assert_eq!(ms.current_hx_data.len(), 300);
    assert!(ms.current_boiler_data.iter().all(|&v| v == 120));
    assert!(ms.target_boiler_data.iter().all(|&v| v == 138));
    assert!(ms.current_hx_data.iter().all(|&v| v == 90));
    assert_eq!(ms.last_graph_sample_at, Some(399_000));
}

#[test]
fn long_press_toggles_debug_even_while_loading() {
    let mut state = GlobalAppState::default();
    let long = Button::Button1(ButtonPressType::Long);
    AppStateMachine::handle_button_press(&mut state, long, NOW);
    assert_eq!(state.current_screen, Screen::Debug);
    assert_eq!(state.screen_before_debug, Some(Screen::Dashboard));
    AppStateMachine::handle_button_press(&mut state, long, NOW);
    assert_eq!(state.current_screen, Screen::Dashboard);
    assert_eq!(state.screen_before_debug, None);
    AppStateMachine::handle_telemetry_frame(&mut state, TelemetryFrame::debug_frame(), NOW);
    AppStateMachine::handle_button_press(&mut state, Button::Button1(ButtonPressType::Short), NOW);
    assert_eq!(state.current_screen, Screen::Graphs);
    AppStateMachine::handle_button_press(&mut state, long, NOW);
    assert_eq!(state.current_screen, Screen::Debug);
    AppStateMachine::handle_button_press(&mut state, Button::Button1(ButtonPressType::Short), NOW);
    assert_eq!(state.current_screen, Screen::Debug);
    AppStateMachine::handle_button_press(&mut state, long, NOW);
    assert_eq!(state.current_screen, Screen::Graphs);
}
