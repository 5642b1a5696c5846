//! The single global application state and its direct operations.
//! Times are milliseconds of a monotonic clock supplied by the caller.
use std::collections::VecDeque;
use vstd::prelude::*;
use crate::screens::Screen;
use crate::telemetry::{MachineState, MachineStateView, fresh_machine_state};
use crate::text::{decimal, str_debug, str_debug_text, u64_text};

verus! {

/// The backlight turns off this many milliseconds after the last activity.
pub const BACKLIGHT_TIMEOUT_MS: u64 = 10_000;

/// A telemetry gap of at least this many milliseconds means the machine was offline.
pub const MACHINE_OFFLINE_TIMEOUT_MS: u64 = 30_000;

/// The outbound MQTT queue keeps at most this many (the most recent) messages.
pub const OUTBOUND_MQTT_CAP: usize = 64;

/// The on-screen events log keeps at most this many (the most recent) entries.
pub const EVENTS_LOG_CAP: usize = 10;

/// Status of a network link.
#[derive(Clone, Debug, PartialEq, Eq)]
pub enum ConnectionStatus {
    Disabled,
    Disconnected,
    Connecting,
    Connected,
    Error(String),
}

/// Mathematical view of a [`ConnectionStatus`].
pub enum ConnectionStatusView {
    Disabled,
    Disconnected,
    Connecting,
    Connected,
    Error(Seq<char>),
}

impl View for ConnectionStatus {
    type V = ConnectionStatusView;

    open spec fn view(&self) -> ConnectionStatusView {
        match self {
            ConnectionStatus::Disabled => ConnectionStatusView::Disabled,
            ConnectionStatus::Disconnected => ConnectionStatusView::Disconnected,
            ConnectionStatus::Connecting => ConnectionStatusView::Connecting,
            ConnectionStatus::Connected => ConnectionStatusView::Connected,
            ConnectionStatus::Error(s) => ConnectionStatusView::Error(s@),
        }
    }
}

/// The debug rendering of a status (`Connected`, `Error("...")`, ...).
pub open spec fn status_debug(s: ConnectionStatusView) -> Seq<char> {
    match s {
        ConnectionStatusView::Disabled => "Disabled"@,
        ConnectionStatusView::Disconnected => "Disconnected"@,
        ConnectionStatusView::Connecting => "Connecting"@,
        ConnectionStatusView::Connected => "Connected"@,
        ConnectionStatusView::Error(e) => "Error("@ + str_debug(e) + ")"@,
    }
}

impl Default for ConnectionStatus {
    fn default() -> (s: Self)
        ensures
            s@ == ConnectionStatusView::Disconnected,
    {
        ConnectionStatus::Disconnected
    }
}

impl ConnectionStatus {
    /// Whether the link is up.
    pub fn is_connected(&self) -> (b: bool)
        ensures
            b == (self@ is Connected),
    {
        match self {
            ConnectionStatus::Connected => true,
            _ => false,
        }
    }

    /// The debug rendering (`Connected`, `Error("...")`, ...).
    pub fn debug_text(&self) -> (s: String)
        ensures
            s@ == status_debug(self@),
    {
        match self {
            ConnectionStatus::Disabled => String::from_str("Disabled"),
            ConnectionStatus::Disconnected => String::from_str("Disconnected"),
            ConnectionStatus::Connecting => String::from_str("Connecting"),
            ConnectionStatus::Connected => String::from_str("Connected"),
            ConnectionStatus::Error(e) => {
                let mut s = String::from_str("Error(");
                let d = str_debug_text(e.as_str());
                s.append(d.as_str());
                s.append(")");
                s
            },
        }
    }
}

/// A message waiting to be published.
#[derive(Clone, Debug)]
pub struct MqttOutboundMessage {
    /// Topic below the configured prefix, or the full topic when `absolute`.
    pub topic_suffix: String,
    pub payload: String,
    pub absolute: bool,
    pub retain: bool,
}

/// Mathematical view of an [`MqttOutboundMessage`].
pub struct MqttMessageView {
    pub topic_suffix: Seq<char>,
    pub payload: Seq<char>,
    pub absolute: bool,
    pub retain: bool,
}

impl MqttOutboundMessage {
    /// A field-by-field copy.
    pub fn copy_message(&self) -> (r: Self)
        ensures
            r@ == self@,
    {
        MqttOutboundMessage {
            topic_suffix: self.topic_suffix.clone(),
            payload: self.payload.clone(),
            absolute: self.absolute,
            retain: self.retain,
        }
    }
}

impl View for MqttOutboundMessage {
    type V = MqttMessageView;

    open spec fn view(&self) -> MqttMessageView {
        MqttMessageView {
            topic_suffix: self.topic_suffix@,
            payload: self.payload@,
            absolute: self.absolute,
            retain: self.retain,
        }
    }
}

/// State of the coffee extraction process.
#[derive(Clone, Copy, Debug, PartialEq, Eq, Structural)]
pub enum ExtractionState {
    /// Pump is not running; the duration in seconds of the last completed shot, if any.
    Idle { last_extraction_duration: Option<u64> },
    /// Pump is running since the given instant (milliseconds).
    Extracting { started_at: u64 },
}

impl Default for ExtractionState {
    fn default() -> (s: Self)
        ensures
            s == (ExtractionState::Idle { last_extraction_duration: None }),
    {
        ExtractionState::Idle { last_extraction_duration: None }
    }
}

impl ExtractionState {
    /// Milliseconds since the extraction in progress started (zero if the clock reads earlier);
    /// `None` when idle.
    pub fn elapsed(&self, now: u64) -> (r: Option<u64>)
        ensures
            r == (match *self {
                ExtractionState::Extracting { started_at } => Some(
                    (if now >= started_at { now - started_at } else { 0 }) as u64,
                ),
                ExtractionState::Idle { .. } => None,
            }),
    {
        match self {
            ExtractionState::Extracting { started_at } => Some(
                if now >= *started_at { now - *started_at } else { 0 },
            ),
            ExtractionState::Idle { .. } => None,
        }
    }

    /// Whether an extraction is in progress.
    pub fn is_extracting(&self) -> (b: bool)
        ensures
            b == (*self is Extracting),
    {
        match self {
            ExtractionState::Extracting { .. } => true,
            ExtractionState::Idle { .. } => false,
        }
    }

    /// Seconds of the last completed extraction; `None` while extracting.
    pub fn last_extraction_duration(&self) -> (r: Option<u64>)
        ensures
            r == (match *self {
                ExtractionState::Idle { last_extraction_duration } => last_extraction_duration,
                ExtractionState::Extracting { .. } => None,
            }),
    {
        match self {
            ExtractionState::Idle { last_extraction_duration } => *last_extraction_duration,
            ExtractionState::Extracting { .. } => None,
        }
    }
}

/// Application errors.
#[derive(Clone, Copy, Debug, PartialEq, Eq, Structural)]
pub enum AppError {
    /// Water refill is needed.
    WaterRefillNeeded { code: u16 },
    /// Machine is offline.
    MachineOffline,
}

/// The display text of an error.
pub open spec fn error_display(e: AppError) -> Seq<char> {
    match e {
        AppError::WaterRefillNeeded { code } => "Water refill needed (code: "@ + decimal(code as nat)
            + ")"@,
        AppError::MachineOffline => "Machine is offline"@,
    }
}

impl AppError {
    /// The display text, e.g. `Water refill needed (code: 65)`.
    pub fn to_string(&self) -> (s: String)
        ensures
            s@ == error_display(*self),
    {
        match self {
            AppError::WaterRefillNeeded { code } => {
                let mut s = String::from_str("Water refill needed (code: ");
                let n = u64_text(*code as u64);
                s.append(n.as_str());
                s.append(")");
                s
            },
            AppError::MachineOffline => String::from_str("Machine is offline"),
        }
    }
}

/// Board metadata reported periodically (Wi-Fi, IP, uptime, free heap).
#[derive(Clone, Debug, PartialEq, Eq)]
pub struct DeviceInfo {
    pub wifi_ssid: String,
    pub wifi_rssi: Option<i32>,
    pub ip: Option<String>,
    pub uptime_s: u64,
    pub free_heap_b: Option<u32>,
    pub last_telemetry_age_s: Option<u64>,
}

/// Mathematical view of a [`DeviceInfo`].
pub struct DeviceInfoView {
    pub wifi_ssid: Seq<char>,
    pub wifi_rssi: Option<i32>,
    pub ip: Option<Seq<char>>,
    pub uptime_s: u64,
    pub free_heap_b: Option<u32>,
    pub last_telemetry_age_s: Option<u64>,
}

impl View for DeviceInfo {
    type V = DeviceInfoView;

    open spec fn view(&self) -> DeviceInfoView {
        DeviceInfoView {
            wifi_ssid: self.wifi_ssid@,
            wifi_rssi: self.wifi_rssi,
            ip: match self.ip {
                Some(s) => Some(s@),
                None => None,
            },
            uptime_s: self.uptime_s,
            free_heap_b: self.free_heap_b,
            last_telemetry_age_s: self.last_telemetry_age_s,
        }
    }
}

/// Nothing known about the board yet.
pub open spec fn unknown_device() -> DeviceInfoView {
    DeviceInfoView {
        wifi_ssid: Seq::empty(),
        wifi_rssi: None,
        ip: None,
        uptime_s: 0,
        free_heap_b: None,
        last_telemetry_age_s: None,
    }
}

impl Default for DeviceInfo {
    fn default() -> (d: Self)
        ensures
            d@ == unknown_device(),
    {
        DeviceInfo {
            wifi_ssid: String::new(),
            wifi_rssi: None,
            ip: None,
            uptime_s: 0,
            free_heap_b: None,
            last_telemetry_age_s: None,
        }
    }
}

/// Global application state: the single point of state management.
#[derive(Clone, Debug)]
pub struct GlobalAppState {
    /// Currently displayed screen.
    pub current_screen: Screen,
    /// Screen to return to when the debug overlay closes.
    pub screen_before_debug: Option<Screen>,
    /// State of the extraction process.
    pub extraction_state: ExtractionState,
    /// Machine state (last frame, shot timing, temperature history).
    pub machine_state: MachineState,
    /// Most recent log lines, newest first.
    pub events_log: VecDeque<String>,
    pub wifi_status: ConnectionStatus,
    pub mqtt_status: ConnectionStatus,
    pub cup_counter: Option<u64>,
    /// Messages waiting to be published, oldest first.
    pub outbound_mqtt: VecDeque<MqttOutboundMessage>,
    /// Current error, if any.
    pub error: Option<AppError>,
    /// Last UART frame or button press (for the backlight timeout).
    pub last_activity_at: Option<u64>,
    pub last_uart_frame_at: Option<u64>,
    pub last_shot_ended_at: Option<u64>,
    pub device_info: DeviceInfo,
    /// Boot stage message and progress (percent) for the connecting screen.
    pub loading_status: Option<(&'static str, u8)>,
    /// Backlight state chosen by hand while loading.
    pub backlight_on: bool,
    /// Whether the render loop should clear the terminal before the next draw.
    pub redraw_requested: bool,
    /// MQTT topic prefix, used for Home Assistant state topics.
    pub mqtt_topic_prefix: String,
    /// Whether Home Assistant discovery states are published alongside the own topics.
    pub home_assistant: bool,
}

/// Mathematical view of the [`GlobalAppState`].
pub struct AppModel {
    pub current_screen: Screen,
    pub screen_before_debug: Option<Screen>,
    pub extraction_state: ExtractionState,
    pub machine_state: MachineStateView,
    pub events_log: Seq<Seq<char>>,
    pub wifi_status: ConnectionStatusView,
    pub mqtt_status: ConnectionStatusView,
    pub cup_counter: Option<u64>,
    pub outbound_mqtt: Seq<MqttMessageView>,
    pub error: Option<AppError>,
    pub last_activity_at: Option<u64>,
    pub last_uart_frame_at: Option<u64>,
    pub last_shot_ended_at: Option<u64>,
    pub device_info: DeviceInfoView,
    pub loading_status: Option<(Seq<char>, u8)>,
    pub backlight_on: bool,
    pub redraw_requested: bool,
    pub mqtt_topic_prefix: Seq<char>,
    pub home_assistant: bool,
}

impl View for GlobalAppState {
    type V = AppModel;

    open spec fn view(&self) -> AppModel {
        AppModel {
            current_screen: self.current_screen,
            screen_before_debug: self.screen_before_debug,
            extraction_state: self.extraction_state,
            machine_state: self.machine_state@,
            events_log: string_views(self.events_log@),
            wifi_status: self.wifi_status@,
            mqtt_status: self.mqtt_status@,
            cup_counter: self.cup_counter,
            outbound_mqtt: message_views(self.outbound_mqtt@),
            error: self.error,
            last_activity_at: self.last_activity_at,
            last_uart_frame_at: self.last_uart_frame_at,
            last_shot_ended_at: self.last_shot_ended_at,
            device_info: self.device_info@,
            loading_status: match self.loading_status {
                Some((m, p)) => Some((m@, p)),
                None => None,
            },
            backlight_on: self.backlight_on,
            redraw_requested: self.redraw_requested,
            mqtt_topic_prefix: self.mqtt_topic_prefix@,
            home_assistant: self.home_assistant,
        }
    }
}

/// Views of a sequence of strings.
pub open spec fn string_views(q: Seq<String>) -> Seq<Seq<char>> {
    q.map_values(|s: String| s@)
}

/// Views of a sequence of outbound messages.
pub open spec fn message_views(q: Seq<MqttOutboundMessage>) -> Seq<MqttMessageView> {
    q.map_values(|m: MqttOutboundMessage| m@)
}

/// The state at boot.
pub open spec fn initial_model() -> AppModel {
    AppModel {
        current_screen: Screen::Dashboard,
        screen_before_debug: None,
        extraction_state: ExtractionState::Idle { last_extraction_duration: None },
        machine_state: fresh_machine_state(),
        events_log: Seq::empty(),
        wifi_status: ConnectionStatusView::Disconnected,
        mqtt_status: ConnectionStatusView::Disconnected,
        cup_counter: None,
        outbound_mqtt: Seq::empty(),
        error: None,
        last_activity_at: None,
        last_uart_frame_at: None,
        last_shot_ended_at: None,
        device_info: unknown_device(),
        loading_status: None,
        backlight_on: true,
        redraw_requested: false,
        mqtt_topic_prefix: "mara"@,
        home_assistant: false,
    }
}

/// `q` with `x` appended, keeping only the newest `cap` elements.
pub open spec fn bounded_push<T>(q: Seq<T>, x: T, cap: nat) -> Seq<T> {
    let p = q.push(x);
    if p.len() > cap {
        p.subrange(p.len() - cap, p.len() as int)
    } else {
        p
    }
}

/// `q` after appending each of `msgs` in order with [`bounded_push`].
pub open spec fn enqueue_all(q: Seq<MqttMessageView>, msgs: Seq<MqttMessageView>) -> Seq<
    MqttMessageView,
>
    decreases msgs.len(),
{
    if msgs.len() == 0 {
        q
    } else {
        bounded_push(enqueue_all(q, msgs.drop_last()), msgs.last(), OUTBOUND_MQTT_CAP as nat)
    }
}

/// `log` with `entry` put in front; one entry drops off the back beyond the cap.
pub open spec fn log_push(log: Seq<Seq<char>>, entry: Seq<char>) -> Seq<Seq<char>> {
    let p = seq![entry] + log;
    if p.len() > EVENTS_LOG_CAP {
        p.drop_last()
    } else {
        p
    }
}

/// A message for a topic below the prefix, not retained.
pub open spec fn relative_message(topic: Seq<char>, payload: Seq<char>) -> MqttMessageView {
    MqttMessageView { topic_suffix: topic, payload, absolute: false, retain: false }
}

/// Whether the backlight is on at `now` after activity at `last`.
pub open spec fn backlight_lit(last: Option<u64>, now: u64) -> bool {
    match last {
        Some(t) => (if now >= t { now - t } else { 0 }) < BACKLIGHT_TIMEOUT_MS,
        None => false,
    }
}

impl Default for GlobalAppState {
    fn default() -> (s: Self)
        ensures
            s@ == initial_model(),
    {
        let s = GlobalAppState {
            current_screen: Screen::Dashboard,
            screen_before_debug: None,
            extraction_state: ExtractionState::Idle { last_extraction_duration: None },
            machine_state: MachineState::default(),
            events_log: VecDeque::new(),
            wifi_status: ConnectionStatus::Disconnected,
            mqtt_status: ConnectionStatus::Disconnected,
            cup_counter: None,
            outbound_mqtt: VecDeque::new(),
            error: None,
            last_activity_at: None,
            last_uart_frame_at: None,
            last_shot_ended_at: None,
            device_info: DeviceInfo::default(),
            loading_status: None,
            backlight_on: true,
            redraw_requested: false,
            mqtt_topic_prefix: String::from_str("mara"),
            home_assistant: false,
        };
        assert(s@.events_log =~= Seq::empty());
        assert(s@.outbound_mqtt =~= Seq::empty());
        s
    }
}

impl GlobalAppState {
    /// The state at boot.
    pub fn new() -> (s: Self)
        ensures
            s@ == initial_model(),
    {
        Self::default()
    }

    /// Whole seconds of the extraction in progress, 0 when idle.
    pub fn extraction_duration_secs(&self, now: u64) -> (r: u64)
        ensures
            r == (match self.extraction_state {
                ExtractionState::Extracting { started_at } => (if now >= started_at {
                    now - started_at
                } else {
                    0
                }) / 1000,
                ExtractionState::Idle { .. } => 0,
            }),
    {
        match self.extraction_state.elapsed(now) {
            Some(ms) => ms / 1000,
            None => 0,
        }
    }

    /// Whether an extraction is in progress.
    pub fn is_extracting(&self) -> (b: bool)
        ensures
            b == (self.extraction_state is Extracting),
    {
        self.extraction_state.is_extracting()
    }

    /// Whether there is an error.
    pub fn has_error(&self) -> (b: bool)
        ensures
            b == self.error.is_some(),
    {
        self.error.is_some()
    }

    /// Clears the error.
    pub fn clear_error(&mut self)
        ensures
            final(self)@ == (AppModel { error: None, ..old(self)@ }),
    {
        self.error = None;
    }

    /// Appends a message to the outbound queue, dropping the oldest beyond the cap.
    pub fn enqueue_message(&mut self, msg: MqttOutboundMessage)
        ensures
            final(self)@ == (AppModel {
                outbound_mqtt: bounded_push(old(self)@.outbound_mqtt, msg@, OUTBOUND_MQTT_CAP as nat),
                ..old(self)@
            }),
    {
        let ghost m = msg@;
        self.outbound_mqtt.push_back(msg);
        let ghost p = old(self)@.outbound_mqtt.push(m);
        assert(message_views(self.outbound_mqtt@) =~= p);
        while self.outbound_mqtt.len() > OUTBOUND_MQTT_CAP
            invariant
                self.outbound_mqtt@.len() <= p.len(),
                p.len() > OUTBOUND_MQTT_CAP ==> self.outbound_mqtt@.len() >= OUTBOUND_MQTT_CAP,
                p.len() <= OUTBOUND_MQTT_CAP ==> self.outbound_mqtt@.len() == p.len(),
                message_views(self.outbound_mqtt@) =~= p.subrange(
                    p.len() - self.outbound_mqtt@.len(),
                    p.len() as int,
                ),
                self.current_screen == old(self).current_screen,
                self.screen_before_debug == old(self).screen_before_debug,
                self.extraction_state == old(self).extraction_state,
                self.machine_state@ == old(self).machine_state@,
                self.events_log@ == old(self).events_log@,
                self.wifi_status@ == old(self).wifi_status@,
                self.mqtt_status@ == old(self).mqtt_status@,
                self.cup_counter == old(self).cup_counter,
                self.error == old(self).error,
                self.last_activity_at == old(self).last_activity_at,
                self.last_uart_frame_at == old(self).last_uart_frame_at,
                self.last_shot_ended_at == old(self).last_shot_ended_at,
                self.device_info@ == old(self).device_info@,
                self.loading_status == old(self).loading_status,
                self.backlight_on == old(self).backlight_on,
                self.redraw_requested == old(self).redraw_requested,
                self.mqtt_topic_prefix@ == old(self).mqtt_topic_prefix@,
                self.home_assistant == old(self).home_assistant,
            decreases self.outbound_mqtt@.len(),
        {
            let ghost before = self.outbound_mqtt@;
            self.outbound_mqtt.pop_front();
            assert(message_views(self.outbound_mqtt@) =~= p.subrange(
                p.len() - self.outbound_mqtt@.len(),
                p.len() as int,
            )) by {
                let nb = self.outbound_mqtt@;
                assert(nb =~= before.subrange(1, before.len() as int));
                assert forall|i: int| 0 <= i < nb.len() implies message_views(nb)[i] == p.subrange(
                    p.len() - nb.len(),
                    p.len() as int,
                )[i] by {
                    assert(nb[i] == before[i + 1]);
                    assert(message_views(before)[i + 1] == p.subrange(
                        p.len() - before.len(),
                        p.len() as int,
                    )[i + 1]);
                }
            }
        }
        assert(self@.outbound_mqtt =~= bounded_push(
            old(self)@.outbound_mqtt,
            m,
            OUTBOUND_MQTT_CAP as nat,
        ));
    }

    /// Appends each of `msgs`, in order, to the outbound queue.
    pub fn enqueue_messages(&mut self, msgs: Vec<MqttOutboundMessage>)
        ensures
            final(self)@ == (AppModel {
                outbound_mqtt: enqueue_all(old(self)@.outbound_mqtt, message_views(msgs@)),
                ..old(self)@
            }),
    {
        let ghost all = message_views(msgs@);
        let n = msgs.len();
        assert(all.take(0) =~= Seq::<MqttMessageView>::empty());
        for i in 0..n
            invariant
                n == msgs@.len(),
                all == message_views(msgs@),
                self@ == (AppModel {
                    outbound_mqtt: enqueue_all(old(self)@.outbound_mqtt, all.take(i as int)),
                    ..old(self)@
                }),
        {
            assert(all.take(i + 1).drop_last() =~= all.take(i as int));
            self.enqueue_message(msgs[i].copy_message());
        }
        assert(all.take(n as int) =~= all);
    }

    /// Queues `payload` for `<prefix>/<topic_suffix>`, not retained.
    pub fn enqueue_mqtt_message(&mut self, topic_suffix: String, payload: String)
        ensures
            final(self)@ == (AppModel {
                outbound_mqtt: bounded_push(
                    old(self)@.outbound_mqtt,
                    relative_message(topic_suffix@, payload@),
                    OUTBOUND_MQTT_CAP as nat,
                ),
                ..old(self)@
            }),
    {
        self.enqueue_message(MqttOutboundMessage { topic_suffix, payload, absolute: false, retain: false });
    }

    /// Queues `payload` for the full topic `topic`.
    pub fn enqueue_absolute_mqtt_message(&mut self, topic: String, payload: String, retain: bool)
        ensures
            final(self)@ == (AppModel {
                outbound_mqtt: bounded_push(
                    old(self)@.outbound_mqtt,
                    MqttMessageView { topic_suffix: topic@, payload: payload@, absolute: true, retain },
                    OUTBOUND_MQTT_CAP as nat,
                ),
                ..old(self)@
            }),
    {
        self.enqueue_message(MqttOutboundMessage { topic_suffix: topic, payload, absolute: true, retain });
    }

    /// Removes and returns all queued messages, oldest first.
    pub fn take_outbound_mqtt_messages(&mut self) -> (r: Vec<MqttOutboundMessage>)
        ensures
            message_views(r@) == old(self)@.outbound_mqtt,
            final(self)@ == (AppModel { outbound_mqtt: Seq::empty(), ..old(self)@ }),
    {
        let mut out: Vec<MqttOutboundMessage> = Vec::new();
        let ghost all = old(self)@.outbound_mqtt;
        while self.outbound_mqtt.len() > 0
            invariant
                message_views(out@) + message_views(self.outbound_mqtt@) =~= all,
                self.current_screen == old(self).current_screen,
                self.screen_before_debug == old(self).screen_before_debug,
                self.extraction_state == old(self).extraction_state,
                self.machine_state@ == old(self).machine_state@,
                self.events_log@ == old(self).events_log@,
                self.wifi_status@ == old(self).wifi_status@,
                self.mqtt_status@ == old(self).mqtt_status@,
                self.cup_counter == old(self).cup_counter,
                self.error == old(self).error,
                self.last_activity_at == old(self).last_activity_at,
                self.last_uart_frame_at == old(self).last_uart_frame_at,
                self.last_shot_ended_at == old(self).last_shot_ended_at,
                self.device_info@ == old(self).device_info@,
                self.loading_status == old(self).loading_status,
                self.backlight_on == old(self).backlight_on,
                self.redraw_requested == old(self).redraw_requested,
                self.mqtt_topic_prefix@ == old(self).mqtt_topic_prefix@,
                self.home_assistant == old(self).home_assistant,
            decreases self.outbound_mqtt@.len(),
        {
            let ghost before = self.outbound_mqtt@;
            let ghost before_out = out@;
            match self.outbound_mqtt.pop_front() {
                Some(m) => {
                    out.push(m);
                    assert(message_views(out@) + message_views(self.outbound_mqtt@) =~= message_views(before_out) + message_views(before));
                },
                None => {},
            }
        }
        assert(self@.outbound_mqtt =~= Seq::empty());
        out
    }

    /// Puts `entry` at the front of the events log, dropping the oldest beyond the cap.
    pub fn log_line(&mut self, entry: String)
        ensures
            final(self)@ == (AppModel {
                events_log: log_push(old(self)@.events_log, entry@),
                ..old(self)@
            }),
    {
        let ghost e = entry@;
        self.events_log.push_front(entry);
        assert(string_views(self.events_log@) =~= seq![e] + old(self)@.events_log);
        if self.events_log.len() > EVENTS_LOG_CAP {
            let ghost before = self.events_log@;
            self.events_log.pop_back();
            assert(string_views(self.events_log@) =~= (seq![e] + old(
                self,
            )@.events_log).drop_last());
        }
    }

    /// Whether the backlight should be on: activity within the last
    /// [`BACKLIGHT_TIMEOUT_MS`] milliseconds.
    pub fn backlight_should_be_on(&self, now: u64) -> (b: bool)
        ensures
            b == backlight_lit(self.last_activity_at, now),
    {
        match self.last_activity_at {
            Some(last) => (if now >= last { now - last } else { 0 }) < BACKLIGHT_TIMEOUT_MS,
            None => false,
        }
    }

    /// Whether the backlight should be driven on: always on the debug overlay, otherwise
    /// after recent activity.
    pub fn backlight_active(&self, now: u64) -> (b: bool)
        ensures
            b == (self.current_screen == Screen::Debug || backlight_lit(self.last_activity_at, now)),
    {
        self.current_screen == Screen::Debug || self.backlight_should_be_on(now)
    }

    /// Asks the render loop to clear the terminal before the next draw.
    pub fn request_redraw(&mut self)
        ensures
            final(self)@ == (AppModel { redraw_requested: true, ..old(self)@ }),
    {
        self.redraw_requested = true;
    }

    /// Returns and clears the pending redraw request.
    pub fn take_redraw_request(&mut self) -> (b: bool)
        ensures
            b == old(self)@.redraw_requested,
            final(self)@ == (AppModel { redraw_requested: false, ..old(self)@ }),
    {
        let b = self.redraw_requested;
        self.redraw_requested = false;
        b
    }

    /// Sets the MQTT topic prefix used for Home Assistant state topics.
    pub fn set_mqtt_prefix(&mut self, prefix: &str)
        ensures
            final(self)@ == (AppModel { mqtt_topic_prefix: prefix@, ..old(self)@ }),
    {
        self.mqtt_topic_prefix = String::from_str(prefix);
    }

    /// Whether at least one telemetry frame has arrived in the current session.
    pub fn has_telemetry(&self) -> (b: bool)
        ensures
            b == self.machine_state.last_frame.is_some(),
    {
        self.machine_state.last_frame.is_some()
    }
}

} // verus!
