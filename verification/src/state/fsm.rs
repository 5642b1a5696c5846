//! The application state machine: how events, button presses and telemetry frames change
//! the global state, and the MQTT payloads they produce.
use std::collections::VecDeque;
use vstd::prelude::*;
use crate::button::{Button, ButtonPressType};
use crate::home_assistant::{
    enqueue_event_states, enqueue_status_states, enqueue_telemetry_states, event_state_messages,
    status_state_messages, telemetry_state_messages,
};
use crate::screens::{Screen, next_screen};
use crate::state::app_events::{
    AppEvent, AppEventView, is_telemetry_kind, telemetry_app_event, telemetry_event_debug,
};
use crate::state::global_state::{
    AppError, AppModel, ConnectionStatusView, DeviceInfo, DeviceInfoView, ExtractionState,
    GlobalAppState, MACHINE_OFFLINE_TIMEOUT_MS, OUTBOUND_MQTT_CAP, backlight_lit, bounded_push,
    enqueue_all, log_push, relative_message, status_debug,
};
use crate::telemetry::{
    AppEvent as TelemetryEvent, MachineStateView, TelemetryFrame, TelemetryFrameView,
    fresh_machine_state, mode_display, shot_start_after, transition_events,
    update_state_with_events,
};
use crate::text::{
    bool_text, bool_word, decimal, json_opt_i64, json_opt_number, json_opt_str, json_opt_string,
    json_opt_u64, u64_text,
};

verus! {

/// One sample per second; 300 samples = the 5-minute window of the Graphs screen.
pub const GRAPH_BUF_CAP: usize = 300;

/// Minimum spacing of graph samples, in milliseconds.
pub const GRAPH_SAMPLE_INTERVAL_MS: u64 = 1000;

/// Application state machine: handles events and updates the global application state.
pub struct AppStateMachine;

/// JSON of a telemetry frame, published on `<prefix>/telemetry`.
pub open spec fn telemetry_json(f: TelemetryFrameView) -> Seq<char> {
    "{\"mode\":\""@ + mode_display(f.mode) + "\",\"sw\":\""@ + f.sw_version + "\",\"boiler_now_c\":"@
        + decimal(f.boiler_now_c as nat) + ",\"boiler_target_c\":"@ + json_opt_number(
        match f.boiler_target_c {
            Some(x) => Some(x as int),
            None => None,
        },
    ) + ",\"hx_now_c\":"@ + decimal(f.hx_now_c as nat) + ",\"boost_countdown_s\":"@ + decimal(
        f.boost_countdown_s as nat,
    ) + ",\"heating_on\":"@ + bool_word(f.heating_on) + ",\"pump_on\":"@ + bool_word(f.pump_on)
        + ",\"no_water_code\":"@ + json_opt_number(
        match f.no_water_code {
            Some(x) => Some(x as int),
            None => None,
        },
    ) + "}"@
}

/// JSON of a device status report, published on `<prefix>/status`.
pub open spec fn device_status_json(i: DeviceInfoView) -> Seq<char> {
    "{\"uptime_s\":"@ + decimal(i.uptime_s as nat) + ",\"wifi_ssid\":\""@ + i.wifi_ssid
        + "\",\"wifi_rssi\":"@ + json_opt_number(
        match i.wifi_rssi {
            Some(x) => Some(x as int),
            None => None,
        },
    ) + ",\"ip\":"@ + json_opt_string(i.ip) + ",\"free_heap_b\":"@ + json_opt_number(
        match i.free_heap_b {
            Some(x) => Some(x as int),
            None => None,
        },
    ) + ",\"last_telemetry_age_s\":"@ + json_opt_number(
        match i.last_telemetry_age_s {
            Some(x) => Some(x as int),
            None => None,
        },
    ) + "}"@
}

/// JSON of a telemetry event, published on `<prefix>/events`.
pub open spec fn telemetry_event_json(e: TelemetryEvent) -> Seq<char> {
    match e {
        TelemetryEvent::ShotStarted => "{\"type\":\"shot_started\"}"@,
        TelemetryEvent::ShotEnded { duration } => "{\"type\":\"shot_ended\",\"duration\":"@
            + decimal(duration as nat) + "}"@,
        TelemetryEvent::ShotAborted { duration } => "{\"type\":\"shot_aborted\",\"duration\":"@
            + decimal(duration as nat) + "}"@,
        TelemetryEvent::WaterRefillNeeded { code } => "{\"type\":\"water_refill_needed\",\"code\":"@
            + decimal(code as nat) + "}"@,
        TelemetryEvent::WaterRefillCleared => "{\"type\":\"water_refill_cleared\"}"@,
        TelemetryEvent::ModeChanged { from, to } => "{\"type\":\"mode_changed\",\"from\":\""@
            + mode_display(from) + "\",\"to\":\""@ + mode_display(to) + "\"}"@,
    }
}

/// Whether a status change to `s` is logged, given the previous MQTT status.
pub open spec fn mqtt_change_logged(prev: ConnectionStatusView, s: ConnectionStatusView) -> bool {
    match s {
        ConnectionStatusView::Connected => !(prev is Connected),
        ConnectionStatusView::Disconnected => true,
        ConnectionStatusView::Error(_) => true,
        _ => false,
    }
}

/// The state after handling event `e` at `now`.
pub open spec fn apply_event(m0: AppModel, e: AppEventView, now: u64) -> AppModel {
    let m = if is_telemetry_kind(e) {
        AppModel { events_log: log_push(m0.events_log, "Event: "@ + telemetry_event_debug(e)), ..m0 }
    } else {
        m0
    };
    match e {
        AppEventView::ShotStarted => AppModel {
            extraction_state: ExtractionState::Extracting { started_at: now },
            error: None,
            ..m
        },
        AppEventView::ShotEnded { duration } => AppModel {
            extraction_state: ExtractionState::Idle { last_extraction_duration: Some(duration) },
            last_shot_ended_at: Some(now),
            ..m
        },
        AppEventView::ShotAborted { .. } => AppModel {
            extraction_state: ExtractionState::Idle { last_extraction_duration: None },
            last_shot_ended_at: Some(now),
            ..m
        },
        AppEventView::ModeChanged { .. } => m,
        AppEventView::WaterRefillNeeded { code } => AppModel {
            error: Some(AppError::WaterRefillNeeded { code }),
            ..m
        },
        AppEventView::WaterRefillCleared => AppModel { error: None, ..m },
        AppEventView::NextScreen => AppModel { current_screen: next_screen(m.current_screen), ..m },
        AppEventView::PreviousScreen => AppModel {
            current_screen: next_screen(m.current_screen),
            ..m
        },
        AppEventView::DebugScreen => if m.current_screen == Screen::Debug {
            AppModel {
                current_screen: match m.screen_before_debug {
                    Some(s) => s,
                    None => Screen::Dashboard,
                },
                screen_before_debug: None,
                redraw_requested: true,
                ..m
            }
        } else {
            AppModel {
                screen_before_debug: Some(m.current_screen),
                current_screen: Screen::Debug,
                redraw_requested: true,
                ..m
            }
        },
        AppEventView::ErrorOccurred { .. } => AppModel { error: Some(AppError::MachineOffline), ..m },
        AppEventView::ErrorCleared => AppModel { error: None, ..m },
        AppEventView::WifiStatusChanged(s) => AppModel {
            events_log: if s is Connected || s is Disconnected {
                log_push(m.events_log, "Wi-Fi: "@ + status_debug(s))
            } else {
                m.events_log
            },
            wifi_status: s,
            ..m
        },
        AppEventView::MqttStatusChanged(s) => AppModel {
            events_log: if mqtt_change_logged(m.mqtt_status, s) {
                log_push(m.events_log, "MQTT: "@ + status_debug(s))
            } else {
                m.events_log
            },
            mqtt_status: s,
            ..m
        },
        AppEventView::CupCounterUpdated { cups } => AppModel { cup_counter: Some(cups), ..m },
        AppEventView::PublishMqttEvent { topic_suffix, payload } => AppModel {
            outbound_mqtt: bounded_push(
                m.outbound_mqtt,
                relative_message(topic_suffix, payload),
                OUTBOUND_MQTT_CAP as nat,
            ),
            ..m
        },
        AppEventView::DeviceInfoUpdated(i) => {
            let q = if m.home_assistant {
                enqueue_all(m.outbound_mqtt, status_state_messages(m.mqtt_topic_prefix, i))
            } else {
                m.outbound_mqtt
            };
            AppModel {
                device_info: i,
                outbound_mqtt: bounded_push(
                    q,
                    relative_message("status"@, device_status_json(i)),
                    OUTBOUND_MQTT_CAP as nat,
                ),
                ..m
            }
        },
        AppEventView::LoadingStage { message, progress } => AppModel {
            loading_status: Some((message, progress)),
            ..m
        },
        AppEventView::LoadingComplete => AppModel {
            loading_status: Some(("waiting for machine..."@, 100u8)),
            ..m
        },
    }
}

/// The state after handling `es` in order at `now`.
pub open spec fn apply_events(m: AppModel, es: Seq<AppEventView>, now: u64) -> AppModel
    decreases es.len(),
{
    if es.len() == 0 {
        m
    } else {
        apply_event(apply_events(m, es.drop_last(), now), es.last(), now)
    }
}

/// The state after a button press at `now`.
pub open spec fn apply_button(m: AppModel, b: Button, now: u64) -> AppModel {
    if b == Button::Button1(ButtonPressType::Long) {
        apply_event(m, AppEventView::DebugScreen, now)
    } else if m.machine_state.last_frame is None {
        AppModel { backlight_on: !m.backlight_on, ..m }
    } else {
        let m1 = AppModel { last_activity_at: Some(now), ..m };
        if !backlight_lit(m.last_activity_at, now) {
            m1
        } else if m1.current_screen != Screen::Debug {
            apply_event(m1, AppEventView::NextScreen, now)
        } else {
            m1
        }
    }
}

/// One telemetry event as handled after a frame: Home Assistant state updates (when
/// enabled), the application event, then the JSON on `<prefix>/events`.
pub open spec fn telemetry_event_step(m: AppModel, ev: TelemetryEvent, now: u64) -> AppModel {
    let m1 = if m.home_assistant {
        AppModel {
            outbound_mqtt: enqueue_all(
                m.outbound_mqtt,
                event_state_messages(m.mqtt_topic_prefix, ev),
            ),
            ..m
        }
    } else {
        m
    };
    let m2 = apply_event(m1, telemetry_app_event(ev), now);
    AppModel {
        outbound_mqtt: bounded_push(
            m2.outbound_mqtt,
            relative_message("events"@, telemetry_event_json(ev)),
            OUTBOUND_MQTT_CAP as nat,
        ),
        ..m2
    }
}

/// The state after the steps of `evs` in order.
pub open spec fn apply_telemetry_events(m: AppModel, evs: Seq<TelemetryEvent>, now: u64) -> AppModel
    decreases evs.len(),
{
    if evs.len() == 0 {
        m
    } else {
        telemetry_event_step(apply_telemetry_events(m, evs.drop_last(), now), evs.last(), now)
    }
}

/// A graph buffer with `x` appended; the oldest sample drops off beyond the cap.
pub open spec fn sample_push(q: Seq<u16>, x: u16) -> Seq<u16> {
    let p = q.push(x);
    if p.len() > GRAPH_BUF_CAP {
        p.drop_first()
    } else {
        p
    }
}

/// Whether a frame at `now` begins a new telemetry session: the first frame, or the first
/// after a gap of at least [`MACHINE_OFFLINE_TIMEOUT_MS`].
pub open spec fn starts_session(last_frame_at: Option<u64>, now: u64) -> bool {
    match last_frame_at {
        Some(t) => (if now >= t { now - t } else { 0 }) >= MACHINE_OFFLINE_TIMEOUT_MS,
        None => true,
    }
}

/// The machine state after a frame: recorded, and sampled into the graphs at most once per
/// [`GRAPH_SAMPLE_INTERVAL_MS`].
pub open spec fn machine_after_frame(ms: MachineStateView, f: TelemetryFrameView, now: u64) -> MachineStateView {
    let ms3 = MachineStateView {
        last_frame: Some(f),
        last_update: Some(now),
        shot_started_at: shot_start_after(ms.last_frame, f, ms.shot_started_at, now),
        ..ms
    };
    let sample = match ms3.last_graph_sample_at {
        Some(t) => (if now >= t { now - t } else { 0 }) >= GRAPH_SAMPLE_INTERVAL_MS,
        None => true,
    };
    if sample {
        MachineStateView {
            last_graph_sample_at: Some(now),
            target_boiler_data: sample_push(
                ms3.target_boiler_data,
                match f.boiler_target_c {
                    Some(t) => t,
                    None => 0,
                },
            ),
            current_boiler_data: sample_push(ms3.current_boiler_data, f.boiler_now_c),
            current_hx_data: sample_push(ms3.current_hx_data, f.hx_now_c),
            ..ms3
        }
    } else {
        ms3
    }
}

/// The state before the events of a frame are handled.
pub open spec fn frame_recorded(m: AppModel, f: TelemetryFrameView, now: u64) -> AppModel {
    let m1 = AppModel {
        outbound_mqtt: bounded_push(
            m.outbound_mqtt,
            relative_message("telemetry"@, telemetry_json(f)),
            OUTBOUND_MQTT_CAP as nat,
        ),
        ..m
    };
    let m2 = if starts_session(m.last_uart_frame_at, now) {
        AppModel { machine_state: fresh_machine_state(), redraw_requested: true, ..m1 }
    } else {
        m1
    };
    AppModel {
        machine_state: machine_after_frame(m2.machine_state, f, now),
        last_activity_at: Some(now),
        last_uart_frame_at: Some(now),
        ..m2
    }
}

/// The transition events a frame produces, relative to the session's previous frame.
pub open spec fn frame_events(m: AppModel, f: TelemetryFrameView, now: u64) -> Seq<TelemetryEvent> {
    let ms = if starts_session(m.last_uart_frame_at, now) {
        fresh_machine_state()
    } else {
        m.machine_state
    };
    transition_events(ms.last_frame, f, ms.shot_started_at, now)
}

/// The state after a telemetry frame at `now`.
pub open spec fn apply_frame(m: AppModel, f: TelemetryFrameView, now: u64) -> AppModel {
    let m6 = apply_telemetry_events(frame_recorded(m, f, now), frame_events(m, f, now), now);
    if m6.home_assistant {
        AppModel {
            outbound_mqtt: enqueue_all(m6.outbound_mqtt, telemetry_state_messages(m6, now)),
            ..m6
        }
    } else {
        m6
    }
}

fn telemetry_payload(frame: &TelemetryFrame) -> (s: String)
    ensures
        s@ == telemetry_json(frame@),
{
    let mut s = String::from_str("{\"mode\":\"");
    s.append(frame.mode.to_string().as_str());
    s.append("\",\"sw\":\"");
    s.append(frame.sw_version.as_str());
    s.append("\",\"boiler_now_c\":");
    s.append(u64_text(frame.boiler_now_c as u64).as_str());
    s.append(",\"boiler_target_c\":");
    let target: Option<u64> = match frame.boiler_target_c {
        Some(x) => Some(x as u64),
        None => None,
    };
    s.append(json_opt_u64(target).as_str());
    s.append(",\"hx_now_c\":");
    s.append(u64_text(frame.hx_now_c as u64).as_str());
    s.append(",\"boost_countdown_s\":");
    s.append(u64_text(frame.boost_countdown_s as u64).as_str());
    s.append(",\"heating_on\":");
    s.append(bool_text(frame.heating_on));
    s.append(",\"pump_on\":");
    s.append(bool_text(frame.pump_on));
    s.append(",\"no_water_code\":");
    let code: Option<u64> = match frame.no_water_code {
        Some(x) => Some(x as u64),
        None => None,
    };
    s.append(json_opt_u64(code).as_str());
    s.append("}");
    s
}

fn device_status_payload(info: &DeviceInfo) -> (s: String)
    ensures
        s@ == device_status_json(info@),
{
    let mut s = String::from_str("{\"uptime_s\":");
    s.append(u64_text(info.uptime_s).as_str());
    s.append(",\"wifi_ssid\":\"");
    s.append(info.wifi_ssid.as_str());
    s.append("\",\"wifi_rssi\":");
    let rssi: Option<i64> = match info.wifi_rssi {
        Some(x) => Some(x as i64),
        None => None,
    };
    s.append(json_opt_i64(rssi).as_str());
    s.append(",\"ip\":");
    let ip: Option<&str> = match &info.ip {
        Some(x) => Some(x.as_str()),
        None => None,
    };
    s.append(json_opt_str(ip).as_str());
    s.append(",\"free_heap_b\":");
    let heap: Option<u64> = match info.free_heap_b {
        Some(x) => Some(x as u64),
        None => None,
    };
    s.append(json_opt_u64(heap).as_str());
    s.append(",\"last_telemetry_age_s\":");
    s.append(json_opt_u64(info.last_telemetry_age_s).as_str());
    s.append("}");
    s
}

fn telemetry_event_payload(event: &TelemetryEvent) -> (s: String)
    ensures
        s@ == telemetry_event_json(*event),
{
    match event {
        TelemetryEvent::ShotStarted => String::from_str("{\"type\":\"shot_started\"}"),
        TelemetryEvent::ShotEnded { duration } => {
            let mut s = String::from_str("{\"type\":\"shot_ended\",\"duration\":");
            s.append(u64_text(*duration).as_str());
            s.append("}");
            s
        },
        TelemetryEvent::ShotAborted { duration } => {
            let mut s = String::from_str("{\"type\":\"shot_aborted\",\"duration\":");
            s.append(u64_text(*duration).as_str());
            s.append("}");
            s
        },
        TelemetryEvent::WaterRefillNeeded { code } => {
            let mut s = String::from_str("{\"type\":\"water_refill_needed\",\"code\":");
            s.append(u64_text(*code as u64).as_str());
            s.append("}");
            s
        },
        TelemetryEvent::WaterRefillCleared => String::from_str("{\"type\":\"water_refill_cleared\"}"),
        TelemetryEvent::ModeChanged { from, to } => {
            let mut s = String::from_str("{\"type\":\"mode_changed\",\"from\":\"");
            s.append(from.to_string().as_str());
            s.append("\",\"to\":\"");
            s.append(to.to_string().as_str());
            s.append("\"}");
            s
        },
    }
}

fn push_sample(buf: &mut VecDeque<u16>, value: u16)
    ensures
        final(buf)@ == sample_push(old(buf)@, value),
{
    buf.push_back(value);
    if buf.len() > GRAPH_BUF_CAP {
        buf.pop_front();
    }
}

} // verus!

verus! {

fn status_log_line(prefix: &str, status: &crate::state::global_state::ConnectionStatus) -> (s: String)
    ensures
        s@ == prefix@ + status_debug(status@),
{
    let mut s = String::from_str(prefix);
    s.append(status.debug_text().as_str());
    s
}

impl AppStateMachine {
    /// Handles an application event at `now`.
    pub fn handle_event(state: &mut GlobalAppState, event: AppEvent, now: u64)
        ensures
            final(state)@ == apply_event(old(state)@, event@, now),
    {
        let ghost e = event@;
        if event.is_telemetry_event() {
            let line = event.log_text();
            state.log_line(line);
        }
        let ghost m = state@;
        match event {
            AppEvent::ShotStarted => {
                state.extraction_state = ExtractionState::Extracting { started_at: now };
                state.error = None;
            },
            AppEvent::ShotEnded { duration } => {
                state.extraction_state = ExtractionState::Idle {
                    last_extraction_duration: Some(duration),
                };
                state.last_shot_ended_at = Some(now);
            },
            AppEvent::ShotAborted { .. } => {
                state.extraction_state = ExtractionState::Idle { last_extraction_duration: None };
                state.last_shot_ended_at = Some(now);
            },
            AppEvent::ModeChanged { .. } => {},
            AppEvent::WaterRefillNeeded { code } => {
                state.error = Some(AppError::WaterRefillNeeded { code });
            },
            AppEvent::WaterRefillCleared => {
                state.error = None;
            },
            AppEvent::NextScreen => {
                state.current_screen = state.current_screen.next();
            },
            AppEvent::PreviousScreen => {
                state.current_screen = state.current_screen.previous();
            },
            AppEvent::DebugScreen => {
                if state.current_screen == Screen::Debug {
                    let back = match state.screen_before_debug {
                        Some(s) => s,
                        None => Screen::Dashboard,
                    };
                    state.screen_before_debug = None;
                    state.current_screen = back;
                } else {
                    state.screen_before_debug = Some(state.current_screen);
                    state.current_screen = Screen::Debug;
                }
                state.request_redraw();
            },
            AppEvent::ErrorOccurred { .. } => {
                state.error = Some(AppError::MachineOffline);
            },
            AppEvent::ErrorCleared => {
                state.error = None;
            },
            AppEvent::WifiStatusChanged(status) => {
                match status {
                    crate::state::global_state::ConnectionStatus::Connected
                    | crate::state::global_state::ConnectionStatus::Disconnected => {
                        let line = status_log_line("Wi-Fi: ", &status);
                        state.log_line(line);
                    },
                    _ => {},
                }
                state.wifi_status = status;
            },
            AppEvent::MqttStatusChanged(status) => {
                let should_log = match status {
                    crate::state::global_state::ConnectionStatus::Connected => !state.mqtt_status.is_connected(),
                    crate::state::global_state::ConnectionStatus::Disconnected => true,
                    crate::state::global_state::ConnectionStatus::Error(_) => true,
                    _ => false,
                };
                if should_log {
                    let line = status_log_line("MQTT: ", &status);
                    state.log_line(line);
                }
                state.mqtt_status = status;
            },
            AppEvent::CupCounterUpdated { cups } => {
                state.cup_counter = Some(cups);
            },
            AppEvent::PublishMqttEvent { topic_suffix, payload } => {
                state.enqueue_mqtt_message(topic_suffix, payload);
            },
            AppEvent::DeviceInfoUpdated(info) => {
                let payload = device_status_payload(&info);
                if state.home_assistant {
                    enqueue_status_states(state, &info);
                }
                state.device_info = info;
                state.enqueue_mqtt_message(String::from_str("status"), payload);
            },
            AppEvent::LoadingStage { message, progress } => {
                state.loading_status = Some((message, progress));
            },
            AppEvent::LoadingComplete => {
                state.loading_status = Some(("waiting for machine...", 100));
            },
        }
    }

    /// Handles `events` in order at `now`.
    pub fn handle_events(state: &mut GlobalAppState, events: Vec<AppEvent>, now: u64)
        ensures
            final(state)@ == apply_events(
                old(state)@,
                events@.map_values(|e: AppEvent| e@),
                now,
            ),
    {
        let ghost all = events@.map_values(|e: AppEvent| e@);
        let mut events = events;
        let ghost m0 = state@;
        let ghost mut k: int = 0;
        assert(all.take(0) =~= Seq::<AppEventView>::empty());
        while events.len() > 0
            invariant
                0 <= k <= all.len(),
                events@.len() == all.len() - k,
                forall|j: int| 0 <= j < events@.len() ==> #[trigger] events@[j]@ == all[k + j],
                state@ == apply_events(m0, all.take(k), now),
            decreases events@.len(),
        {
            let event = events.remove(0);
            assert(event@ == all[k]);
            assert(all.take(k + 1).drop_last() =~= all.take(k));
            Self::handle_event(state, event, now);
            proof {
                k = k + 1;
            }
        }
        assert(all.take(k) =~= all);
    }

    /// Handles a button press at `now`: a long press toggles the debug overlay; before the
    /// first frame a short press toggles the backlight; afterwards a press wakes a dark
    /// backlight, or else a short press switches screens (not on the debug overlay).
    pub fn handle_button_press(state: &mut GlobalAppState, button: Button, now: u64)
        ensures
            final(state)@ == apply_button(old(state)@, button, now),
    {
        if let Button::Button1(ButtonPressType::Long) = button {
            Self::handle_event(state, AppEvent::DebugScreen, now);
            return;
        }
        if state.machine_state.last_frame.is_none() {
            if let Button::Button1(ButtonPressType::Short) = button {
                state.backlight_on = !state.backlight_on;
            }
            return;
        }
        let backlight_was_on = state.backlight_should_be_on(now);
        state.last_activity_at = Some(now);
        if !backlight_was_on {
            return;
        }
        if let Button::Button1(ButtonPressType::Short) = button {
            if state.current_screen != Screen::Debug {
                Self::handle_event(state, AppEvent::NextScreen, now);
            }
        }
    }

    /// Handles a telemetry frame received at `now`: publishes it, starts a new session after
    /// an offline gap (or on the first frame), records it, samples the graphs, and handles the
    /// transition events it produces.
    pub fn handle_telemetry_frame(state: &mut GlobalAppState, frame: TelemetryFrame, now: u64)
        ensures
            final(state)@ == apply_frame(old(state)@, frame@, now),
    {
        let ghost m = state@;
        let ghost f = frame@;
        let payload = telemetry_payload(&frame);
        state.enqueue_mqtt_message(String::from_str("telemetry"), payload);
        let new_session = match state.last_uart_frame_at {
            Some(t) => (if now >= t { now - t } else { 0 }) >= MACHINE_OFFLINE_TIMEOUT_MS,
            None => true,
        };
        if new_session {
            state.machine_state.reset_session();
            state.request_redraw();
        }
        let ghost ms = state.machine_state@;
        let boiler_target: u16 = match frame.boiler_target_c {
            Some(t) => t,
            None => 0,
        };
        let boiler_now = frame.boiler_now_c;
        let hx_now = frame.hx_now_c;
        let (_snapshot, events) = update_state_with_events(&mut state.machine_state, frame, now);
        let should_sample = match state.machine_state.last_graph_sample_at {
            Some(t) => (if now >= t { now - t } else { 0 }) >= GRAPH_SAMPLE_INTERVAL_MS,
            None => true,
        };
        if should_sample {
            state.machine_state.last_graph_sample_at = Some(now);
            push_sample(&mut state.machine_state.target_boiler_data, boiler_target);
            push_sample(&mut state.machine_state.current_boiler_data, boiler_now);
            push_sample(&mut state.machine_state.current_hx_data, hx_now);
        }
        state.last_activity_at = Some(now);
        state.last_uart_frame_at = Some(now);
        assert(state.machine_state@ == machine_after_frame(ms, f, now));
        assert(state@ == frame_recorded(m, f, now));
        let ghost m5 = state@;
        let ghost evs = events@;
        assert(evs == frame_events(m, f, now));
        let n = events.len();
        assert(evs.take(0) =~= Seq::<TelemetryEvent>::empty());
        for i in 0..n
            invariant
                n == evs.len(),
                events@ == evs,
                state@ == apply_telemetry_events(m5, evs.take(i as int), now),
        {
            let event = events[i];
            assert(evs.take(i + 1).drop_last() =~= evs.take(i as int));
            let event_payload = telemetry_event_payload(&event);
            if state.home_assistant {
                enqueue_event_states(state, &event);
            }
            Self::handle_event(state, AppEvent::from_telemetry(event), now);
            state.enqueue_mqtt_message(String::from_str("events"), event_payload);
        }
        assert(evs.take(n as int) =~= evs);
        if state.home_assistant {
            enqueue_telemetry_states(state, now);
        }
    }
}

} // verus!
