use maratui::screens::{
    active_board, ActiveBoard,
    current_extraction_secs, format_uptime, hx_fill_style, mode_banner, shot_quality_label,
    shot_style, timer_style, Screen, Tone,
};
use maratui::state::{ExtractionState, GlobalAppState};
use maratui::telemetry::{MachineMode, TelemetryFrame};

#[test]
fn test_screen_next_cycles_dashboard_graphs() {
    assert_eq!(Screen::Dashboard.next(), Screen::Graphs);
    assert_eq!(Screen::Graphs.next(), Screen::Dashboard);
}

#[test]
fn test_screen_next_debug_stays() {
    assert_eq!(Screen::Debug.next(), Screen::Debug);
}

#[test]
fn test_screen_previous_mirrors_next() {
    assert_eq!(Screen::Dashboard.previous(), Screen::Dashboard.next());
    assert_eq!(Screen::Graphs.previous(), Screen::Graphs.next());
    assert_eq!(Screen::Debug.previous(), Screen::Debug.next());
}

#[test]
fn test_screen_default_is_dashboard() {
    assert_eq!(Screen::default(), Screen::Dashboard);
}

#[test]
fn screen_titles() {
    assert_eq!(Screen::Dashboard.to_string(), "Dashboard");
    assert_eq!(Screen::Graphs.to_string(), "Graphs");
    assert_eq!(Screen::Debug.to_string(), "Debug");
}

#[test]
fn quality_labels_by_duration() {
    assert_eq!(shot_quality_label(14), "RIP SHOT");
    assert_eq!(shot_quality_label(15), "UNDEREXTRACTED");
    assert_eq!(shot_quality_label(19), "UNDEREXTRACTED");
    assert_eq!(shot_quality_label(20), "GOOD");
    assert_eq!(shot_quality_label(24), "PERFECT");
    assert_eq!(shot_quality_label(27), "PERFECT");
    assert_eq!(shot_quality_label(28), "LONG SHOT");
    assert_eq!(shot_quality_label(32), "BLONDING");
    assert_eq!(shot_quality_label(40), "RIP SHOT");
}

#[test]
fn shot_colours() {
    assert_eq!(shot_style(19, true), Tone::White);
    assert_eq!(shot_style(20, true), Tone::Green);
    assert_eq!(shot_style(28, true), Tone::Yellow);
    assert_eq!(shot_style(14, false), Tone::Red);
    assert_eq!(shot_style(15, false), Tone::Yellow);
    assert_eq!(shot_style(30, false), Tone::Green);
    assert_eq!(shot_style(31, false), Tone::Yellow);
    assert_eq!(hx_fill_style(87), Tone::White);
    assert_eq!(hx_fill_style(90), Tone::Green);
    assert_eq!(hx_fill_style(100), Tone::Yellow);
    assert_eq!(hx_fill_style(101), Tone::Red);
}

#[test]
fn mode_banners() {
    assert_eq!(mode_banner(MachineMode::Coffee), ("═══ COFFEE MODE ═══", Tone::Green));
    assert_eq!(mode_banner(MachineMode::SteamV), ("═══ STEAM MODE ═══", Tone::Cyan));
    assert_eq!(mode_banner(MachineMode::Offline), ("═══  OFFLINE  ═══", Tone::Red));
    assert_eq!(mode_banner(MachineMode::Unknown('?')), ("═══  UNKNOWN  ═══", Tone::Gray));
}

#[test]
fn uptime_formats() {
    assert_eq!(format_uptime(59), "0m");
    assert_eq!(format_uptime(3_599), "59m");
    assert_eq!(format_uptime(3_600), "1h0m");
    assert_eq!(format_uptime(90_061), "1d1h1m");
}

#[test]
fn extraction_timer_seconds_and_colour() {
    let mut state = GlobalAppState::default();
    assert_eq!(current_extraction_secs(&state, 10_000), 0);
    assert_eq!(timer_style(&state, 10_000), Tone::DarkGray);
    state.extraction_state = ExtractionState::Extracting { started_at: 10_000 };
    assert_eq!(current_extraction_secs(&state, 31_500), 21);
    assert_eq!(timer_style(&state, 31_500), Tone::Green);
    state.extraction_state = ExtractionState::Idle { last_extraction_duration: Some(12) };
    assert_eq!(current_extraction_secs(&state, 99_000), 12);
    assert_eq!(timer_style(&state, 99_000), Tone::Red);
}

#[test]
fn connecting_board_until_first_frame() {
    let mut state = GlobalAppState::default();
    assert_eq!(active_board(&state), ActiveBoard::Connecting);
    state.current_screen = Screen::Graphs;
    assert_eq!(active_board(&state), ActiveBoard::Connecting);
    state.current_screen = Screen::Debug;
    assert_eq!(active_board(&state), ActiveBoard::Debug);
    state.machine_state.last_frame = Some(TelemetryFrame::debug_frame());
    assert_eq!(active_board(&state), ActiveBoard::Debug);
    state.current_screen = Screen::Graphs;
    assert_eq!(active_board(&state), ActiveBoard::Graphs);
    state.current_screen = Screen::Dashboard;
    assert_eq!(active_board(&state), ActiveBoard::Dashboard);
}
