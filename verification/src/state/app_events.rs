//! Application events: telemetry transitions and UI / infrastructure events.
use vstd::prelude::*;
use crate::state::global_state::{
    ConnectionStatus, ConnectionStatusView, DeviceInfo, DeviceInfoView, status_debug,
};
use crate::telemetry::{AppEvent as TelemetryEvent, MachineMode, mode_debug, mode_display};
use crate::text::{decimal, u64_text};

verus! {

/// Application events: telemetry events and UI events.
#[derive(Clone, Debug, PartialEq, Eq)]
pub enum AppEvent {
    /// Pump turned on, extraction started.
    ShotStarted,
    /// Pump turned off, extraction ended (seconds).
    ShotEnded { duration: u64 },
    /// Pump ran for less than the minimum shot duration (rinsing / post-heat pump kick).
    ShotAborted { duration: u64 },
    /// Machine mode changed.
    ModeChanged { from: MachineMode, to: MachineMode },
    /// Water refill is needed.
    WaterRefillNeeded { code: u16 },
    /// Water refilled, error cleared.
    WaterRefillCleared,
    /// Switch to the next screen.
    NextScreen,
    /// Switch to the previous screen.
    PreviousScreen,
    /// Toggle the debug overlay.
    DebugScreen,
    /// An error occurred.
    ErrorOccurred { error: String },
    /// Error cleared.
    ErrorCleared,
    /// Wi-Fi status changed.
    WifiStatusChanged(ConnectionStatus),
    /// MQTT status changed.
    MqttStatusChanged(ConnectionStatus),
    /// Cup counter value received over MQTT.
    CupCounterUpdated { cups: u64 },
    /// Request to publish a custom event over MQTT.
    PublishMqttEvent { topic_suffix: String, payload: String },
    /// Board metadata update (Wi-Fi RSSI, IP, uptime, free heap).
    DeviceInfoUpdated(DeviceInfo),
    /// Boot initialization stage, shown on the connecting screen with a progress bar.
    LoadingStage { message: &'static str, progress: u8 },
    /// Boot initialization complete: the connecting screen waits for the machine.
    LoadingComplete,
}

/// Mathematical view of an [`AppEvent`].
pub enum AppEventView {
    ShotStarted,
    ShotEnded { duration: u64 },
    ShotAborted { duration: u64 },
    ModeChanged { from: MachineMode, to: MachineMode },
    WaterRefillNeeded { code: u16 },
    WaterRefillCleared,
    NextScreen,
    PreviousScreen,
    DebugScreen,
    ErrorOccurred { error: Seq<char> },
    ErrorCleared,
    WifiStatusChanged(ConnectionStatusView),
    MqttStatusChanged(ConnectionStatusView),
    CupCounterUpdated { cups: u64 },
    PublishMqttEvent { topic_suffix: Seq<char>, payload: Seq<char> },
    DeviceInfoUpdated(DeviceInfoView),
    LoadingStage { message: Seq<char>, progress: u8 },
    LoadingComplete,
}

impl View for AppEvent {
    type V = AppEventView;

    open spec fn view(&self) -> AppEventView {
        match self {
            AppEvent::ShotStarted => AppEventView::ShotStarted,
            AppEvent::ShotEnded { duration } => AppEventView::ShotEnded { duration: *duration },
            AppEvent::ShotAborted { duration } => AppEventView::ShotAborted { duration: *duration },
            AppEvent::ModeChanged { from, to } => AppEventView::ModeChanged { from: *from, to: *to },
            AppEvent::WaterRefillNeeded { code } => AppEventView::WaterRefillNeeded { code: *code },
            AppEvent::WaterRefillCleared => AppEventView::WaterRefillCleared,
            AppEvent::NextScreen => AppEventView::NextScreen,
            AppEvent::PreviousScreen => AppEventView::PreviousScreen,
            AppEvent::DebugScreen => AppEventView::DebugScreen,
            AppEvent::ErrorOccurred { error } => AppEventView::ErrorOccurred { error: error@ },
            AppEvent::ErrorCleared => AppEventView::ErrorCleared,
            AppEvent::WifiStatusChanged(s) => AppEventView::WifiStatusChanged(s@),
            AppEvent::MqttStatusChanged(s) => AppEventView::MqttStatusChanged(s@),
            AppEvent::CupCounterUpdated { cups } => AppEventView::CupCounterUpdated { cups: *cups },
            AppEvent::PublishMqttEvent { topic_suffix, payload } => AppEventView::PublishMqttEvent {
                topic_suffix: topic_suffix@,
                payload: payload@,
            },
            AppEvent::DeviceInfoUpdated(i) => AppEventView::DeviceInfoUpdated(i@),
            AppEvent::LoadingStage { message, progress } => AppEventView::LoadingStage {
                message: message@,
                progress: *progress,
            },
            AppEvent::LoadingComplete => AppEventView::LoadingComplete,
        }
    }
}

/// The application event carrying a telemetry event.
pub open spec fn telemetry_app_event(e: TelemetryEvent) -> AppEventView {
    match e {
        TelemetryEvent::ShotStarted => AppEventView::ShotStarted,
        TelemetryEvent::ShotEnded { duration } => AppEventView::ShotEnded { duration },
        TelemetryEvent::ShotAborted { duration } => AppEventView::ShotAborted { duration },
        TelemetryEvent::ModeChanged { from, to } => AppEventView::ModeChanged { from, to },
        TelemetryEvent::WaterRefillNeeded { code } => AppEventView::WaterRefillNeeded { code },
        TelemetryEvent::WaterRefillCleared => AppEventView::WaterRefillCleared,
    }
}

/// Machine-side events (shot, mode, water) and the cup counter: the ones written to the
/// on-screen events log.
pub open spec fn is_telemetry_kind(e: AppEventView) -> bool {
    match e {
        AppEventView::ShotStarted | AppEventView::ShotEnded { .. } | AppEventView::ShotAborted {
            ..
        } | AppEventView::ModeChanged { .. } | AppEventView::WaterRefillNeeded { .. }
        | AppEventView::WaterRefillCleared | AppEventView::CupCounterUpdated { .. } => true,
        _ => false,
    }
}

/// Navigation and error events.
pub open spec fn is_ui_kind(e: AppEventView) -> bool {
    match e {
        AppEventView::NextScreen | AppEventView::PreviousScreen | AppEventView::DebugScreen
        | AppEventView::ErrorOccurred { .. } | AppEventView::ErrorCleared => true,
        _ => false,
    }
}

/// The debug rendering of a machine-side event, as written to the events log.
pub open spec fn telemetry_event_debug(e: AppEventView) -> Seq<char> {
    match e {
        AppEventView::ShotStarted => "ShotStarted"@,
        AppEventView::ShotEnded { duration } => "ShotEnded { duration: "@ + decimal(
            duration as nat,
        ) + " }"@,
        AppEventView::ShotAborted { duration } => "ShotAborted { duration: "@ + decimal(
            duration as nat,
        ) + " }"@,
        AppEventView::ModeChanged { from, to } => "ModeChanged { from: "@ + mode_debug(from)
            + ", to: "@ + mode_debug(to) + " }"@,
        AppEventView::WaterRefillNeeded { code } => "WaterRefillNeeded { code: "@ + decimal(
            code as nat,
        ) + " }"@,
        AppEventView::WaterRefillCleared => "WaterRefillCleared"@,
        AppEventView::CupCounterUpdated { cups } => "CupCounterUpdated { cups: "@ + decimal(
            cups as nat,
        ) + " }"@,
        _ => Seq::empty(),
    }
}

/// The display text of an event.
pub open spec fn event_display(e: AppEventView) -> Seq<char> {
    match e {
        AppEventView::ShotStarted => "Shot Started"@,
        AppEventView::ShotEnded { duration } => "Shot Ended ("@ + decimal(duration as nat)
            + " s)"@,
        AppEventView::ShotAborted { duration } => "Shot Aborted ("@ + decimal(duration as nat)
            + " s)"@,
        AppEventView::ModeChanged { from, to } => "Mode Changed: "@ + mode_display(from)
            + " \u{2192} "@ + mode_display(to),
        AppEventView::WaterRefillNeeded { code } => "Water Refill Needed (code: "@ + decimal(
            code as nat,
        ) + ")"@,
        AppEventView::WaterRefillCleared => "Water Refill Cleared"@,
        AppEventView::NextScreen => "Next Screen"@,
        AppEventView::PreviousScreen => "Previous Screen"@,
        AppEventView::DebugScreen => "Debug Screen"@,
        AppEventView::ErrorOccurred { error } => "Error: "@ + error,
        AppEventView::ErrorCleared => "Error Cleared"@,
        AppEventView::WifiStatusChanged(s) => "Wi-Fi status: "@ + status_debug(s),
        AppEventView::MqttStatusChanged(s) => "MQTT status: "@ + status_debug(s),
        AppEventView::CupCounterUpdated { cups } => "Cup counter updated: "@ + decimal(
            cups as nat,
        ),
        AppEventView::PublishMqttEvent { topic_suffix, payload } => "Publish MQTT event: suffix='"@
            + topic_suffix + "' payload='"@ + payload + "'"@,
        AppEventView::DeviceInfoUpdated(i) => "Device info updated (uptime="@ + decimal(
            i.uptime_s as nat,
        ) + "s)"@,
        AppEventView::LoadingStage { message, progress } => "Loading ["@ + decimal(
            progress as nat,
        ) + "%]: "@ + message,
        AppEventView::LoadingComplete => "Loading complete"@,
    }
}

fn enclosed(prefix: &str, middle: &str, suffix: &str) -> (s: String)
    ensures
        s@ == prefix@ + middle@ + suffix@,
{
    let mut s = String::from_str(prefix);
    s.append(middle);
    s.append(suffix);
    s
}

fn joined(prefix: &str, rest: &str) -> (s: String)
    ensures
        s@ == prefix@ + rest@,
{
    let mut s = String::from_str(prefix);
    s.append(rest);
    s
}

impl AppEvent {
    /// Converts a telemetry event to an application event.
    pub fn from_telemetry(event: TelemetryEvent) -> (r: Self)
        ensures
            r@ == telemetry_app_event(event),
    {
        match event {
            TelemetryEvent::ShotStarted => AppEvent::ShotStarted,
            TelemetryEvent::ShotEnded { duration } => AppEvent::ShotEnded { duration },
            TelemetryEvent::ShotAborted { duration } => AppEvent::ShotAborted { duration },
            TelemetryEvent::ModeChanged { from, to } => AppEvent::ModeChanged { from, to },
            TelemetryEvent::WaterRefillNeeded { code } => AppEvent::WaterRefillNeeded { code },
            TelemetryEvent::WaterRefillCleared => AppEvent::WaterRefillCleared,
        }
    }

    /// Whether the event comes from the machine (shot, mode, water) or is the cup counter;
    /// only these are written to the on-screen events log.
    pub fn is_telemetry_event(&self) -> (b: bool)
        ensures
            b == is_telemetry_kind(self@),
    {
        match self {
            AppEvent::ShotStarted | AppEvent::ShotEnded { .. } | AppEvent::ShotAborted { .. }
            | AppEvent::ModeChanged { .. } | AppEvent::WaterRefillNeeded { .. }
            | AppEvent::WaterRefillCleared | AppEvent::CupCounterUpdated { .. } => true,
            _ => false,
        }
    }

    /// Whether the event is a UI event (navigation or error).
    pub fn is_ui_event(&self) -> (b: bool)
        ensures
            b == is_ui_kind(self@),
    {
        match self {
            AppEvent::NextScreen | AppEvent::PreviousScreen | AppEvent::DebugScreen
            | AppEvent::ErrorOccurred { .. } | AppEvent::ErrorCleared => true,
            _ => false,
        }
    }

    /// The events-log line `Event: <debug rendering>` of a machine-side event.
    pub fn log_text(&self) -> (s: String)
        requires
            is_telemetry_kind(self@),
        ensures
            s@ == "Event: "@ + telemetry_event_debug(self@),
    {
        let body = match self {
            AppEvent::ShotStarted => String::from_str("ShotStarted"),
            AppEvent::ShotEnded { duration } => enclosed(
                "ShotEnded { duration: ",
                u64_text(*duration).as_str(),
                " }",
            ),
            AppEvent::ShotAborted { duration } => enclosed(
                "ShotAborted { duration: ",
                u64_text(*duration).as_str(),
                " }",
            ),
            AppEvent::ModeChanged { from, to } => {
                let mut s = String::from_str("ModeChanged { from: ");
                s.append(from.debug_text().as_str());
                s.append(", to: ");
                s.append(to.debug_text().as_str());
                s.append(" }");
                s
            },
            AppEvent::WaterRefillNeeded { code } => enclosed(
                "WaterRefillNeeded { code: ",
                u64_text(*code as u64).as_str(),
                " }",
            ),
            AppEvent::WaterRefillCleared => String::from_str("WaterRefillCleared"),
            AppEvent::CupCounterUpdated { cups } => enclosed(
                "CupCounterUpdated { cups: ",
                u64_text(*cups).as_str(),
                " }",
            ),
            _ => String::new(),
        };
        let mut s = String::from_str("Event: ");
        s.append(body.as_str());
        s
    }

    /// The display text, e.g. `Shot Ended (42 s)` or `Mode Changed: Coffee → Steam`.
    pub fn to_string(&self) -> (s: String)
        ensures
            s@ == event_display(self@),
    {
        match self {
            AppEvent::ShotStarted => String::from_str("Shot Started"),
            AppEvent::ShotEnded { duration } => enclosed(
                "Shot Ended (",
                u64_text(*duration).as_str(),
                " s)",
            ),
            AppEvent::ShotAborted { duration } => enclosed(
                "Shot Aborted (",
                u64_text(*duration).as_str(),
                " s)",
            ),
            AppEvent::ModeChanged { from, to } => {
                let mut s = String::from_str("Mode Changed: ");
                s.append(from.to_string().as_str());
                s.append(" \u{2192} ");
                s.append(to.to_string().as_str());
                s
            },
            AppEvent::WaterRefillNeeded { code } => enclosed(
                "Water Refill Needed (code: ",
                u64_text(*code as u64).as_str(),
                ")",
            ),
            AppEvent::WaterRefillCleared => String::from_str("Water Refill Cleared"),
            AppEvent::NextScreen => String::from_str("Next Screen"),
            AppEvent::PreviousScreen => String::from_str("Previous Screen"),
            AppEvent::DebugScreen => String::from_str("Debug Screen"),
            AppEvent::ErrorOccurred { error } => joined("Error: ", error.as_str()),
            AppEvent::ErrorCleared => String::from_str("Error Cleared"),
            AppEvent::WifiStatusChanged(st) => joined("Wi-Fi status: ", st.debug_text().as_str()),
            AppEvent::MqttStatusChanged(st) => joined("MQTT status: ", st.debug_text().as_str()),
            AppEvent::CupCounterUpdated { cups } => joined("Cup counter updated: ", u64_text(*cups).as_str()),
            AppEvent::PublishMqttEvent { topic_suffix, payload } => {
                let mut s = String::from_str("Publish MQTT event: suffix='");
                s.append(topic_suffix.as_str());
                s.append("' payload='");
                s.append(payload.as_str());
                s.append("'");
                s
            },
            AppEvent::DeviceInfoUpdated(info) => enclosed(
                "Device info updated (uptime=",
                u64_text(info.uptime_s).as_str(),
                "s)",
            ),
            AppEvent::LoadingStage { message, progress } => {
                let mut s = String::from_str("Loading [");
                s.append(u64_text(*progress as u64).as_str());
                s.append("%]: ");
                s.append(message);
                s
            },
            AppEvent::LoadingComplete => String::from_str("Loading complete"),
        }
    }
}

} // verus!
