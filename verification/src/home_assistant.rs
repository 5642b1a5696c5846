//! Home Assistant MQTT Discovery: retained discovery configs and the state topics
//! `<prefix>/ha/<id>` that the discovered entities read.
use vstd::prelude::*;
use crate::state::global_state::{
    AppModel, DeviceInfo, DeviceInfoView, ExtractionState, GlobalAppState, MqttMessageView,
    MqttOutboundMessage, enqueue_all, message_views,
};
use crate::telemetry::{AppEvent as TelemetryEvent, elapsed_secs, mode_display};
use crate::text::{decimal, i64_text, signed_decimal, u64_text};

verus! {

/// The device block shared by all discovery configs.
pub open spec fn ha_device() -> Seq<char> {
    "{\"identifiers\":[\"maratui_esp32\"],\"name\":\"Lelit Mara X\",\"model\":\"MaraTUI\",\"manufacturer\":\"Lelit\"}"@
}

/// `,<extra>` when `extra` is not empty.
pub open spec fn extra_part(extra: Seq<char>) -> Seq<char> {
    if extra.len() == 0 { Seq::empty() } else { ","@ + extra }
}

/// State topic `<prefix>/ha/<id>`.
pub open spec fn state_topic(prefix: Seq<char>, id: Seq<char>) -> Seq<char> {
    prefix + "/ha/"@ + id
}

/// Discovery topic of a sensor.
pub open spec fn sensor_topic(id: Seq<char>) -> Seq<char> {
    "homeassistant/sensor/maratui_"@ + id + "/config"@
}

/// Discovery payload of a sensor.
pub open spec fn sensor_payload(id: Seq<char>, name: Seq<char>, extra: Seq<char>, prefix: Seq<char>) -> Seq<char> {
    "{\"name\":\""@ + name + "\",\"unique_id\":\"maratui_"@ + id + "\",\"state_topic\":\""@ + prefix
        + "/ha/"@ + id + "\",\"device\":"@ + ha_device() + extra_part(extra) + "}"@
}

/// Discovery topic of a binary sensor.
pub open spec fn binary_topic(id: Seq<char>) -> Seq<char> {
    "homeassistant/binary_sensor/maratui_"@ + id + "/config"@
}

/// Discovery payload of a binary sensor.
pub open spec fn binary_payload(id: Seq<char>, name: Seq<char>, extra: Seq<char>, prefix: Seq<char>) -> Seq<char> {
    "{\"name\":\""@ + name + "\",\"unique_id\":\"maratui_"@ + id + "\",\"state_topic\":\""@ + prefix
        + "/ha/"@ + id + "\",\"payload_on\":\"ON\",\"payload_off\":\"OFF\",\"device\":"@ + ha_device()
        + extra_part(extra) + "}"@
}

/// A retained discovery message.
pub open spec fn discovery_message(topic: Seq<char>, payload: Seq<char>) -> MqttMessageView {
    MqttMessageView { topic_suffix: topic, payload, absolute: true, retain: true }
}

/// A state message for entity `id`.
pub open spec fn state_message(prefix: Seq<char>, id: Seq<char>, payload: Seq<char>, retain: bool) -> MqttMessageView {
    MqttMessageView { topic_suffix: state_topic(prefix, id), payload, absolute: true, retain }
}

/// `ON` or `OFF`.
pub open spec fn on_off(b: bool) -> Seq<char> {
    if b { "ON"@ } else { "OFF"@ }
}

/// Discovery payload of the cup counter, whose state topic is `<prefix>/cup_counter`.
pub open spec fn cup_counter_payload(prefix: Seq<char>) -> Seq<char> {
    "{\"name\":\"Cup Counter\",\"unique_id\":\"maratui_cup_counter\",\"state_topic\":\""@ + prefix
        + "/cup_counter\",\"icon\":\"mdi:coffee\",\"state_class\":\"total_increasing\",\"device\":"@
        + ha_device() + "}"@
}

/// Discovery message of a sensor.
pub open spec fn sensor_message(id: Seq<char>, name: Seq<char>, extra: Seq<char>, prefix: Seq<char>) -> MqttMessageView {
    discovery_message(sensor_topic(id), sensor_payload(id, name, extra, prefix))
}

/// Discovery message of a binary sensor.
pub open spec fn binary_message(id: Seq<char>, name: Seq<char>, extra: Seq<char>, prefix: Seq<char>) -> MqttMessageView {
    discovery_message(binary_topic(id), binary_payload(id, name, extra, prefix))
}

/// All discovery messages, in publication order: the sensors, the cup counter, the binary
/// sensors.
pub open spec fn discovery_messages(p: Seq<char>) -> Seq<MqttMessageView> {
    seq![
        sensor_message("mode"@, "Mode"@, "\"icon\":\"mdi:coffee-maker\""@, p),
        sensor_message("firmware"@, "Firmware Version"@, "\"icon\":\"mdi:chip\",\"entity_category\":\"diagnostic\""@, p),
        sensor_message("boiler_now"@, "Boiler Temperature"@, "\"unit_of_measurement\":\"\u{b0}C\",\"device_class\":\"temperature\",\"state_class\":\"measurement\""@, p),
        sensor_message("boiler_target"@, "Boiler Target"@, "\"unit_of_measurement\":\"\u{b0}C\",\"device_class\":\"temperature\",\"state_class\":\"measurement\""@, p),
        sensor_message("hx_now"@, "HX Temperature"@, "\"unit_of_measurement\":\"\u{b0}C\",\"device_class\":\"temperature\",\"state_class\":\"measurement\""@, p),
        sensor_message("last_extraction_duration"@, "Last Extraction Duration"@, "\"unit_of_measurement\":\"s\",\"icon\":\"mdi:coffee\",\"state_class\":\"measurement\""@, p),
        sensor_message("extraction_timer"@, "Extraction Timer"@, "\"unit_of_measurement\":\"s\",\"icon\":\"mdi:timer-play\",\"state_class\":\"measurement\",\"force_update\":true"@, p),
        sensor_message("time_since_last_shot"@, "Time Since Last Shot"@, "\"unit_of_measurement\":\"min\",\"icon\":\"mdi:clock-outline\",\"state_class\":\"measurement\""@, p),
        sensor_message("uptime"@, "Uptime"@, "\"unit_of_measurement\":\"min\",\"icon\":\"mdi:timer-outline\",\"state_class\":\"total_increasing\",\"entity_category\":\"diagnostic\""@, p),
        sensor_message("wifi_rssi"@, "Wi-Fi RSSI"@, "\"unit_of_measurement\":\"dBm\",\"device_class\":\"signal_strength\",\"state_class\":\"measurement\",\"entity_category\":\"diagnostic\""@, p),
        sensor_message("wifi_ssid"@, "Wi-Fi SSID"@, "\"icon\":\"mdi:wifi\",\"entity_category\":\"diagnostic\""@, p),
        sensor_message("ip"@, "IP Address"@, "\"icon\":\"mdi:ip-network\",\"entity_category\":\"diagnostic\""@, p),
        sensor_message("free_heap"@, "Free Heap"@, "\"unit_of_measurement\":\"kB\",\"icon\":\"mdi:memory\",\"state_class\":\"measurement\",\"entity_category\":\"diagnostic\""@, p),
        sensor_message("telemetry_age"@, "Telemetry Age"@, "\"unit_of_measurement\":\"s\",\"icon\":\"mdi:timer-sand\",\"state_class\":\"measurement\",\"entity_category\":\"diagnostic\""@, p),
        discovery_message(sensor_topic("cup_counter"@), cup_counter_payload(p)),
        binary_message("heating"@, "Heating"@, "\"device_class\":\"heat\""@, p),
        binary_message("pump"@, "Pump Active"@, "\"icon\":\"mdi:pump\""@, p),
        binary_message("water_low"@, "Water Level Low"@, "\"device_class\":\"problem\""@, p)
    ]
}

/// State updates derived from the latest frame at `now`; nothing before the first frame.
pub open spec fn telemetry_state_messages(m: AppModel, now: u64) -> Seq<MqttMessageView> {
    match m.machine_state.last_frame {
        None => Seq::empty(),
        Some(f) => {
            let p = m.mqtt_topic_prefix;
            let timer = match m.extraction_state {
                ExtractionState::Extracting { started_at } => elapsed_secs(started_at, now),
                ExtractionState::Idle { .. } => 0,
            };
            let extracting = m.extraction_state is Extracting;
            seq![
                state_message(p, "mode"@, mode_display(f.mode), false),
                state_message(p, "firmware"@, f.sw_version, false),
                state_message(p, "boiler_now"@, decimal(f.boiler_now_c as nat), false)
            ] + (match f.boiler_target_c {
                Some(t) => seq![state_message(p, "boiler_target"@, decimal(t as nat), false)],
                None => Seq::empty(),
            }) + seq![
                state_message(p, "hx_now"@, decimal(f.hx_now_c as nat), false),
                state_message(p, "extraction_timer"@, decimal(timer as nat), false)
            ] + (match m.last_shot_ended_at {
                Some(e) => if !extracting {
                    seq![
                        state_message(
                            p,
                            "time_since_last_shot"@,
                            decimal((elapsed_secs(e, now) / 60) as nat),
                            false,
                        )
                    ]
                } else {
                    Seq::empty()
                },
                None => Seq::empty(),
            }) + seq![
                state_message(p, "heating"@, on_off(f.heating_on), false),
                state_message(p, "pump"@, on_off(f.pump_on), false),
                state_message(p, "water_low"@, on_off(f.no_water_code is Some), false)
            ]
        },
    }
}

/// State updates triggered by a telemetry event.
pub open spec fn event_state_messages(p: Seq<char>, e: TelemetryEvent) -> Seq<MqttMessageView> {
    match e {
        TelemetryEvent::ShotEnded { duration } => seq![
            state_message(p, "last_extraction_duration"@, decimal(duration as nat), true),
            state_message(p, "extraction_timer"@, decimal(duration as nat), true),
            state_message(p, "time_since_last_shot"@, "0"@, false)
        ],
        TelemetryEvent::ShotStarted => seq![state_message(p, "extraction_timer"@, "0"@, false)],
        TelemetryEvent::WaterRefillNeeded { .. } => seq![state_message(p, "water_low"@, "ON"@, false)],
        TelemetryEvent::WaterRefillCleared => seq![state_message(p, "water_low"@, "OFF"@, false)],
        TelemetryEvent::ShotAborted { .. } => Seq::empty(),
        TelemetryEvent::ModeChanged { .. } => Seq::empty(),
    }
}

/// State updates derived from a device status report.
pub open spec fn status_state_messages(p: Seq<char>, i: DeviceInfoView) -> Seq<MqttMessageView> {
    seq![state_message(p, "uptime"@, decimal((i.uptime_s / 60) as nat), false)] + (match i.wifi_rssi {
        Some(r) => seq![state_message(p, "wifi_rssi"@, signed_decimal(r as int), false)],
        None => Seq::empty(),
    }) + seq![state_message(p, "wifi_ssid"@, i.wifi_ssid, false)] + (match i.ip {
        Some(ip) => seq![state_message(p, "ip"@, ip, false)],
        None => Seq::empty(),
    }) + (match i.free_heap_b {
        Some(h) => seq![state_message(p, "free_heap"@, decimal((h / 1024) as nat), false)],
        None => Seq::empty(),
    }) + (match i.last_telemetry_age_s {
        Some(a) => seq![state_message(p, "telemetry_age"@, decimal(a as nat), false)],
        None => Seq::empty(),
    })
}

fn cat3(a: &str, b: &str, c: &str) -> (s: String)
    ensures
        s@ == a@ + b@ + c@,
{
    let mut s = String::from_str(a);
    s.append(b);
    s.append(c);
    s
}

/// State topic `<prefix>/ha/<id>` of a sensor.
fn s_topic(prefix: &str, id: &str) -> (s: String)
    ensures
        s@ == state_topic(prefix@, id@),
{
    cat3(prefix, "/ha/", id)
}

/// State topic `<prefix>/ha/<id>` of a binary sensor.
fn b_topic(prefix: &str, id: &str) -> (s: String)
    ensures
        s@ == state_topic(prefix@, id@),
{
    cat3(prefix, "/ha/", id)
}

fn extra_text(extra: &str) -> (s: String)
    ensures
        s@ == extra_part(extra@),
{
    if extra.is_empty() {
        String::new()
    } else {
        let mut s = String::from_str(",");
        s.append(extra);
        s
    }
}

/// Discovery topic and payload of a sensor.
fn sensor_config(id: &str, name: &str, extra: &str, state_prefix: &str) -> (r: (String, String))
    ensures
        r.0@ == sensor_topic(id@),
        r.1@ == sensor_payload(id@, name@, extra@, state_prefix@),
{
    let topic = cat3("homeassistant/sensor/maratui_", id, "/config");
    let mut p = String::from_str("{\"name\":\"");
    p.append(name);
    p.append("\",\"unique_id\":\"maratui_");
    p.append(id);
    p.append("\",\"state_topic\":\"");
    p.append(state_prefix);
    p.append("/ha/");
    p.append(id);
    p.append("\",\"device\":");
    p.append("{\"identifiers\":[\"maratui_esp32\"],\"name\":\"Lelit Mara X\",\"model\":\"MaraTUI\",\"manufacturer\":\"Lelit\"}");
    p.append(extra_text(extra).as_str());
    p.append("}");
    (topic, p)
}

/// Discovery topic and payload of a binary sensor.
fn binary_config(id: &str, name: &str, extra: &str, state_prefix: &str) -> (r: (String, String))
    ensures
        r.0@ == binary_topic(id@),
        r.1@ == binary_payload(id@, name@, extra@, state_prefix@),
{
    let topic = cat3("homeassistant/binary_sensor/maratui_", id, "/config");
    let mut p = String::from_str("{\"name\":\"");
    p.append(name);
    p.append("\",\"unique_id\":\"maratui_");
    p.append(id);
    p.append("\",\"state_topic\":\"");
    p.append(state_prefix);
    p.append("/ha/");
    p.append(id);
    p.append("\",\"payload_on\":\"ON\",\"payload_off\":\"OFF\",\"device\":");
    p.append("{\"identifiers\":[\"maratui_esp32\"],\"name\":\"Lelit Mara X\",\"model\":\"MaraTUI\",\"manufacturer\":\"Lelit\"}");
    p.append(extra_text(extra).as_str());
    p.append("}");
    (topic, p)
}

fn sensor_msg(id: &str, name: &str, extra: &str, prefix: &str) -> (m: MqttOutboundMessage)
    ensures
        m@ == sensor_message(id@, name@, extra@, prefix@),
{
    let (topic, payload) = sensor_config(id, name, extra, prefix);
    MqttOutboundMessage { topic_suffix: topic, payload, absolute: true, retain: true }
}

fn binary_msg(id: &str, name: &str, extra: &str, prefix: &str) -> (m: MqttOutboundMessage)
    ensures
        m@ == binary_message(id@, name@, extra@, prefix@),
{
    let (topic, payload) = binary_config(id, name, extra, prefix);
    MqttOutboundMessage { topic_suffix: topic, payload, absolute: true, retain: true }
}

fn state_msg(prefix: &str, id: &str, payload: String, retain: bool) -> (m: MqttOutboundMessage)
    ensures
        m@ == state_message(prefix@, id@, payload@, retain),
{
    MqttOutboundMessage { topic_suffix: s_topic(prefix, id), payload, absolute: true, retain }
}

fn binary_state_msg(prefix: &str, id: &str, payload: String) -> (m: MqttOutboundMessage)
    ensures
        m@ == state_message(prefix@, id@, payload@, false),
{
    MqttOutboundMessage { topic_suffix: b_topic(prefix, id), payload, absolute: true, retain: false }
}

fn on_off_text(b: bool) -> (s: String)
    ensures
        s@ == on_off(b),
{
    if b { String::from_str("ON") } else { String::from_str("OFF") }
}

/// Queues the retained discovery configs of all entities (called on every MQTT connect).
pub fn enqueue_discovery_configs(state: &mut GlobalAppState, topic_prefix: &str)
    ensures
        final(state)@ == (AppModel {
            outbound_mqtt: enqueue_all(old(state)@.outbound_mqtt, discovery_messages(topic_prefix@)),
            ..old(state)@
        }),
{
    let p = topic_prefix;
    let mut msgs: Vec<MqttOutboundMessage> = Vec::new();
    msgs.push(sensor_msg("mode", "Mode", "\"icon\":\"mdi:coffee-maker\"", p));
    msgs.push(sensor_msg("firmware", "Firmware Version", "\"icon\":\"mdi:chip\",\"entity_category\":\"diagnostic\"", p));
    msgs.push(sensor_msg("boiler_now", "Boiler Temperature", "\"unit_of_measurement\":\"\u{b0}C\",\"device_class\":\"temperature\",\"state_class\":\"measurement\"", p));
    msgs.push(sensor_msg("boiler_target", "Boiler Target", "\"unit_of_measurement\":\"\u{b0}C\",\"device_class\":\"temperature\",\"state_class\":\"measurement\"", p));
    msgs.push(sensor_msg("hx_now", "HX Temperature", "\"unit_of_measurement\":\"\u{b0}C\",\"device_class\":\"temperature\",\"state_class\":\"measurement\"", p));
    msgs.push(sensor_msg("last_extraction_duration", "Last Extraction Duration", "\"unit_of_measurement\":\"s\",\"icon\":\"mdi:coffee\",\"state_class\":\"measurement\"", p));
    msgs.push(sensor_msg("extraction_timer", "Extraction Timer", "\"unit_of_measurement\":\"s\",\"icon\":\"mdi:timer-play\",\"state_class\":\"measurement\",\"force_update\":true", p));
    msgs.push(sensor_msg("time_since_last_shot", "Time Since Last Shot", "\"unit_of_measurement\":\"min\",\"icon\":\"mdi:clock-outline\",\"state_class\":\"measurement\"", p));
    msgs.push(sensor_msg("uptime", "Uptime", "\"unit_of_measurement\":\"min\",\"icon\":\"mdi:timer-outline\",\"state_class\":\"total_increasing\",\"entity_category\":\"diagnostic\"", p));
    msgs.push(sensor_msg("wifi_rssi", "Wi-Fi RSSI", "\"unit_of_measurement\":\"dBm\",\"device_class\":\"signal_strength\",\"state_class\":\"measurement\",\"entity_category\":\"diagnostic\"", p));
    msgs.push(sensor_msg("wifi_ssid", "Wi-Fi SSID", "\"icon\":\"mdi:wifi\",\"entity_category\":\"diagnostic\"", p));
    msgs.push(sensor_msg("ip", "IP Address", "\"icon\":\"mdi:ip-network\",\"entity_category\":\"diagnostic\"", p));
    msgs.push(sensor_msg("free_heap", "Free Heap", "\"unit_of_measurement\":\"kB\",\"icon\":\"mdi:memory\",\"state_class\":\"measurement\",\"entity_category\":\"diagnostic\"", p));
    msgs.push(sensor_msg("telemetry_age", "Telemetry Age", "\"unit_of_measurement\":\"s\",\"icon\":\"mdi:timer-sand\",\"state_class\":\"measurement\",\"entity_category\":\"diagnostic\"", p));
    let (config_topic, _) = sensor_config("cup_counter", "Cup Counter", "", p);
    let mut payload = String::from_str("{\"name\":\"Cup Counter\",\"unique_id\":\"maratui_cup_counter\",\"state_topic\":\"");
    payload.append(p);
    payload.append("/cup_counter\",\"icon\":\"mdi:coffee\",\"state_class\":\"total_increasing\",\"device\":");
    payload.append("{\"identifiers\":[\"maratui_esp32\"],\"name\":\"Lelit Mara X\",\"model\":\"MaraTUI\",\"manufacturer\":\"Lelit\"}");
    payload.append("}");
    msgs.push(MqttOutboundMessage { topic_suffix: config_topic, payload, absolute: true, retain: true });
    msgs.push(binary_msg("heating", "Heating", "\"device_class\":\"heat\"", p));
    msgs.push(binary_msg("pump", "Pump Active", "\"icon\":\"mdi:pump\"", p));
    msgs.push(binary_msg("water_low", "Water Level Low", "\"device_class\":\"problem\"", p));
    assert(message_views(msgs@) =~= discovery_messages(p@));
    state.enqueue_messages(msgs);
}

/// Queues the current telemetry values as Home Assistant sensor states (about 1 Hz); does
/// nothing before the first frame.
pub fn enqueue_telemetry_states(state: &mut GlobalAppState, now: u64)
    ensures
        final(state)@ == (AppModel {
            outbound_mqtt: enqueue_all(
                old(state)@.outbound_mqtt,
                telemetry_state_messages(old(state)@, now),
            ),
            ..old(state)@
        }),
{
    let ghost m = state@;
    let mut msgs: Vec<MqttOutboundMessage> = Vec::new();
    match &state.machine_state.last_frame {
        None => {
            assert(message_views(msgs@) =~= telemetry_state_messages(m, now));
        },
        Some(frame) => {
            let p = state.mqtt_topic_prefix.as_str();
            let timer_secs: u64 = match state.extraction_state.elapsed(now) {
                Some(ms) => ms / 1000,
                None => 0,
            };
            let is_extracting = state.extraction_state.is_extracting();
            msgs.push(state_msg(p, "mode", frame.mode.to_string(), false));
            msgs.push(state_msg(p, "firmware", frame.sw_version.clone(), false));
            msgs.push(state_msg(p, "boiler_now", u64_text(frame.boiler_now_c as u64), false));
            let ghost a = message_views(msgs@);
            if let Some(t) = frame.boiler_target_c {
                msgs.push(state_msg(p, "boiler_target", u64_text(t as u64), false));
            }
            let ghost b = message_views(msgs@);
            msgs.push(state_msg(p, "hx_now", u64_text(frame.hx_now_c as u64), false));
            msgs.push(state_msg(p, "extraction_timer", u64_text(timer_secs), false));
            let ghost c = message_views(msgs@);
            if let Some(ended_at) = state.last_shot_ended_at {
                if !is_extracting {
                    let secs: u64 = if now >= ended_at { (now - ended_at) / 1000 } else { 0 };
                    msgs.push(state_msg(p, "time_since_last_shot", u64_text(secs / 60), false));
                }
            }
            let ghost d = message_views(msgs@);
            msgs.push(binary_state_msg(p, "heating", on_off_text(frame.heating_on)));
            msgs.push(binary_state_msg(p, "pump", on_off_text(frame.pump_on)));
            msgs.push(binary_state_msg(p, "water_low", on_off_text(frame.no_water_code.is_some())));
            proof {
                let f = m.machine_state.last_frame.unwrap();
                let pre = m.mqtt_topic_prefix;
                assert(a =~= seq![
                    state_message(pre, "mode"@, mode_display(f.mode), false),
                    state_message(pre, "firmware"@, f.sw_version, false),
                    state_message(pre, "boiler_now"@, decimal(f.boiler_now_c as nat), false)
                ]);
                assert(message_views(msgs@) =~= telemetry_state_messages(m, now));
            }
        },
    }
    state.enqueue_messages(msgs);
}

/// Queues the state updates that a telemetry event implies.
pub fn enqueue_event_states(state: &mut GlobalAppState, event: &TelemetryEvent)
    ensures
        final(state)@ == (AppModel {
            outbound_mqtt: enqueue_all(
                old(state)@.outbound_mqtt,
                event_state_messages(old(state)@.mqtt_topic_prefix, *event),
            ),
            ..old(state)@
        }),
{
    let mut msgs: Vec<MqttOutboundMessage> = Vec::new();
    {
        let p = state.mqtt_topic_prefix.as_str();
        match event {
            TelemetryEvent::ShotEnded { duration } => {
                msgs.push(state_msg(p, "last_extraction_duration", u64_text(*duration), true));
                msgs.push(state_msg(p, "extraction_timer", u64_text(*duration), true));
                msgs.push(state_msg(p, "time_since_last_shot", String::from_str("0"), false));
            },
            TelemetryEvent::ShotStarted => {
                msgs.push(state_msg(p, "extraction_timer", String::from_str("0"), false));
            },
            TelemetryEvent::WaterRefillNeeded { .. } => {
                msgs.push(binary_state_msg(p, "water_low", String::from_str("ON")));
            },
            TelemetryEvent::WaterRefillCleared => {
                msgs.push(binary_state_msg(p, "water_low", String::from_str("OFF")));
            },
            TelemetryEvent::ShotAborted { .. } | TelemetryEvent::ModeChanged { .. } => {},
        }
    }
    assert(message_views(msgs@) =~= event_state_messages(state@.mqtt_topic_prefix, *event));
    state.enqueue_messages(msgs);
}

/// Queues the state updates derived from a device status report.
pub fn enqueue_status_states(state: &mut GlobalAppState, info: &DeviceInfo)
    ensures
        final(state)@ == (AppModel {
            outbound_mqtt: enqueue_all(
                old(state)@.outbound_mqtt,
                status_state_messages(old(state)@.mqtt_topic_prefix, info@),
            ),
            ..old(state)@
        }),
{
    let mut msgs: Vec<MqttOutboundMessage> = Vec::new();
    {
        let p = state.mqtt_topic_prefix.as_str();
        msgs.push(state_msg(p, "uptime", u64_text(info.uptime_s / 60), false));
        let ghost a = message_views(msgs@);
        if let Some(rssi) = info.wifi_rssi {
            msgs.push(state_msg(p, "wifi_rssi", i64_text(rssi as i64), false));
        }
        let ghost b = message_views(msgs@);
        msgs.push(state_msg(p, "wifi_ssid", info.wifi_ssid.clone(), false));
        let ghost c = message_views(msgs@);
        if let Some(ip) = &info.ip {
            msgs.push(state_msg(p, "ip", ip.clone(), false));
        }
        let ghost d = message_views(msgs@);
        if let Some(heap_b) = info.free_heap_b {
            msgs.push(state_msg(p, "free_heap", u64_text((heap_b / 1024) as u64), false));
        }
        let ghost e = message_views(msgs@);
        if let Some(age) = info.last_telemetry_age_s {
            msgs.push(state_msg(p, "telemetry_age", u64_text(age), false));
        }
    }
    assert(message_views(msgs@) =~= status_state_messages(state@.mqtt_topic_prefix, info@));
    state.enqueue_messages(msgs);
}

} // verus!
