//! Properties of the library that span several operations, stated over the models the
//! operations' contracts use.
use vstd::prelude::*;
use crate::button::{
    Button, ButtonPressType, LONG_PRESS_MS, MAX_LONG_PRESS_MS, press_on_sample, press_start_after,
};
use crate::brew_timer::{BrewCall, brew_run, brew_step};
use crate::home_assistant::{event_state_messages, telemetry_state_messages};
use crate::screens::{Screen, next_screen};
use crate::state::app_events::AppEventView;
use crate::state::fsm::{
    GRAPH_BUF_CAP, apply_button, apply_event, apply_frame, apply_telemetry_events, frame_events,
    frame_recorded, sample_push, starts_session, telemetry_event_step, machine_after_frame,
    telemetry_event_json, telemetry_json,
};
use crate::state::global_state::{
    AppError, AppModel, EVENTS_LOG_CAP, ExtractionState, MqttMessageView, OUTBOUND_MQTT_CAP,
    backlight_lit, bounded_push, enqueue_all, log_push, relative_message,
};
use crate::config::enabled_value;
use crate::home_assistant::state_message;
use crate::screens::{Tone, banner_of};
use crate::text::{ascii_lower, bool_word, decimal, has_infix, lower_char, occurs_at};
use crate::uart_reader::{
    LINE_BUF_MAX, LineOutcome, is_line_byte, is_line_end, line_step, outcomes, pending_after,
};
use crate::telemetry::{
    AppEvent as TelemetryEvent, MachineMode, mode_display, mode_of_char, parse_line, MIN_SHOT_DURATION_SECS, TelemetryFrameView, fresh_machine_state,
    shot_finished, transition_events,
};

verus! {

/// The bounds the state keeps: at most 64 queued messages and 10 log lines.
pub open spec fn within_caps(m: AppModel) -> bool {
    m.outbound_mqtt.len() <= OUTBOUND_MQTT_CAP && m.events_log.len() <= EVENTS_LOG_CAP
}

/// Appending with a cap never exceeds the cap.
pub proof fn lemma_bounded_push_cap<T>(q: Seq<T>, x: T, cap: nat)
    requires
        q.len() <= cap,
        cap > 0,
    ensures
        bounded_push(q, x, cap).len() <= cap,
{
}

/// Queueing several messages keeps the queue within its cap.
pub proof fn lemma_enqueue_all_cap(q: Seq<MqttMessageView>, msgs: Seq<MqttMessageView>)
    requires
        q.len() <= OUTBOUND_MQTT_CAP,
    ensures
        enqueue_all(q, msgs).len() <= OUTBOUND_MQTT_CAP,
    decreases msgs.len(),
{
    if msgs.len() > 0 {
        lemma_enqueue_all_cap(q, msgs.drop_last());
    }
}

/// The outbound queue always holds the most recent messages, oldest first: after queueing
/// `msgs` it is the last (at most 64) elements of the old queue followed by `msgs`.
pub proof fn lemma_enqueue_all_suffix(q: Seq<MqttMessageView>, msgs: Seq<MqttMessageView>)
    requires
        q.len() <= OUTBOUND_MQTT_CAP,
    ensures
        ({
            let all = q + msgs;
            let keep = if all.len() > OUTBOUND_MQTT_CAP { OUTBOUND_MQTT_CAP as int } else { all.len() as int };
            enqueue_all(q, msgs) == all.subrange(all.len() - keep, all.len() as int)
        }),
    decreases msgs.len(),
{
    let all = q + msgs;
    if msgs.len() == 0 {
        assert(all =~= q);
        assert(all.subrange(0, all.len() as int) =~= all);
    } else {
        let prev = msgs.drop_last();
        lemma_enqueue_all_suffix(q, prev);
        let allp = q + prev;
        let keepp = if allp.len() > OUTBOUND_MQTT_CAP { OUTBOUND_MQTT_CAP as int } else { allp.len() as int };
        let r = allp.subrange(allp.len() - keepp, allp.len() as int);
        assert(all =~= allp.push(msgs.last()));
        let p = r.push(msgs.last());
        let keep = if all.len() > OUTBOUND_MQTT_CAP { OUTBOUND_MQTT_CAP as int } else { all.len() as int };
        if p.len() > OUTBOUND_MQTT_CAP {
            assert(p.subrange(p.len() - OUTBOUND_MQTT_CAP, p.len() as int) =~= all.subrange(
                all.len() - keep,
                all.len() as int,
            ));
        } else {
            assert(p =~= all.subrange(all.len() - keep, all.len() as int));
        }
    }
}

/// Every event keeps the outbound queue and the events log within their caps.
pub proof fn lemma_event_keeps_caps(m: AppModel, e: AppEventView, now: u64)
    requires
        within_caps(m),
    ensures
        within_caps(apply_event(m, e, now)),
{
    match e {
        AppEventView::DeviceInfoUpdated(i) => {
            if m.home_assistant {
                lemma_enqueue_all_cap(m.outbound_mqtt, crate::home_assistant::status_state_messages(m.mqtt_topic_prefix, i));
            }
        },
        _ => {},
    }
}

proof fn lemma_step_keeps_caps(m: AppModel, ev: TelemetryEvent, now: u64)
    requires
        within_caps(m),
    ensures
        within_caps(telemetry_event_step(m, ev, now)),
{
    let m1 = if m.home_assistant {
        lemma_enqueue_all_cap(m.outbound_mqtt, crate::home_assistant::event_state_messages(m.mqtt_topic_prefix, ev));
        AppModel {
            outbound_mqtt: enqueue_all(m.outbound_mqtt, crate::home_assistant::event_state_messages(m.mqtt_topic_prefix, ev)),
            ..m
        }
    } else {
        m
    };
    lemma_event_keeps_caps(m1, crate::state::app_events::telemetry_app_event(ev), now);
}

proof fn lemma_steps_keep_caps(m: AppModel, evs: Seq<TelemetryEvent>, now: u64)
    requires
        within_caps(m),
    ensures
        within_caps(apply_telemetry_events(m, evs, now)),
    decreases evs.len(),
{
    if evs.len() > 0 {
        lemma_steps_keep_caps(m, evs.drop_last(), now);
        lemma_step_keeps_caps(apply_telemetry_events(m, evs.drop_last(), now), evs.last(), now);
    }
}

/// Every telemetry frame keeps the outbound queue and the events log within their caps.
pub proof fn lemma_frame_keeps_caps(m: AppModel, f: TelemetryFrameView, now: u64)
    requires
        within_caps(m),
    ensures
        within_caps(apply_frame(m, f, now)),
{
    let m5 = frame_recorded(m, f, now);
    assert(within_caps(m5));
    lemma_steps_keep_caps(m5, frame_events(m, f, now), now);
    let m6 = apply_telemetry_events(m5, frame_events(m, f, now), now);
    if m6.home_assistant {
        lemma_enqueue_all_cap(m6.outbound_mqtt, telemetry_state_messages(m6, now));
    }
}

/// Every button press keeps the outbound queue and the events log within their caps.
pub proof fn lemma_button_keeps_caps(m: AppModel, b: Button, now: u64)
    requires
        within_caps(m),
    ensures
        within_caps(apply_button(m, b, now)),
{
    lemma_event_keeps_caps(m, AppEventView::DebugScreen, now);
    let m1 = AppModel { last_activity_at: Some(now), ..m };
    lemma_event_keeps_caps(m1, AppEventView::NextScreen, now);
}

/// The graph buffers never hold more than 300 samples (five minutes at 1 Hz).
pub proof fn lemma_frame_keeps_graph_cap(m: AppModel, f: TelemetryFrameView, now: u64)
    requires
        m.machine_state.target_boiler_data.len() <= GRAPH_BUF_CAP,
        m.machine_state.current_boiler_data.len() <= GRAPH_BUF_CAP,
        m.machine_state.current_hx_data.len() <= GRAPH_BUF_CAP,
    ensures
        ({
            let ms = frame_recorded(m, f, now).machine_state;
            &&& ms.target_boiler_data.len() <= GRAPH_BUF_CAP
            &&& ms.current_boiler_data.len() <= GRAPH_BUF_CAP
            &&& ms.current_hx_data.len() <= GRAPH_BUF_CAP
        }),
{
}

/// Opening and closing the debug overlay returns to the screen it was opened from.
pub proof fn lemma_debug_toggle_round_trip(m: AppModel, now: u64)
    requires
        m.current_screen != Screen::Debug,
    ensures
        apply_event(m, AppEventView::DebugScreen, now).current_screen == Screen::Debug,
        apply_event(apply_event(m, AppEventView::DebugScreen, now), AppEventView::DebugScreen, now).current_screen
            == m.current_screen,
        apply_event(apply_event(m, AppEventView::DebugScreen, now), AppEventView::DebugScreen, now).screen_before_debug
            is None,
{
}

/// The screen remembered for closing the debug overlay is never the overlay itself.
pub proof fn lemma_event_keeps_return_screen(m: AppModel, e: AppEventView, now: u64)
    requires
        m.screen_before_debug != Some(Screen::Debug),
    ensures
        apply_event(m, e, now).screen_before_debug != Some(Screen::Debug),
{
}

/// A long press always toggles the debug overlay, during loading too.
pub proof fn lemma_long_press_toggles_debug(m: AppModel, now: u64)
    requires
        m.screen_before_debug != Some(Screen::Debug),
    ensures
        (apply_button(m, Button::Button1(ButtonPressType::Long), now).current_screen == Screen::Debug)
            <==> (m.current_screen != Screen::Debug),
{
}

/// Before the first frame a short press toggles the backlight and never changes the screen.
pub proof fn lemma_short_press_while_loading(m: AppModel, now: u64)
    requires
        m.machine_state.last_frame is None,
    ensures
        apply_button(m, Button::Button1(ButtonPressType::Short), now).current_screen
            == m.current_screen,
        apply_button(m, Button::Button1(ButtonPressType::Short), now).backlight_on
            == !m.backlight_on,
{
}

/// When the backlight has timed out, a press only wakes it: the screen stays, and the
/// backlight is lit afterwards.
pub proof fn lemma_press_while_dark_only_wakes(m: AppModel, b: Button, now: u64)
    requires
        m.machine_state.last_frame is Some,
        b == Button::Button1(ButtonPressType::Short),
        !backlight_lit(m.last_activity_at, now),
    ensures
        apply_button(m, b, now).current_screen == m.current_screen,
        backlight_lit(apply_button(m, b, now).last_activity_at, now),
{
}

/// With telemetry and a lit backlight, a short press swaps Dashboard and Graphs.
pub proof fn lemma_short_press_switches_screen(m: AppModel, now: u64)
    requires
        m.machine_state.last_frame is Some,
        backlight_lit(m.last_activity_at, now),
        m.current_screen != Screen::Debug,
    ensures
        apply_button(m, Button::Button1(ButtonPressType::Short), now).current_screen
            == next_screen(m.current_screen),
        next_screen(m.current_screen) != m.current_screen,
{
}

/// The first frame after an offline gap is compared with nothing: it can only start a shot
/// or report missing water, never end a shot, change mode or clear the water alarm.
pub proof fn lemma_resume_has_no_phantom_events(m: AppModel, f: TelemetryFrameView, now: u64)
    requires
        starts_session(m.last_uart_frame_at, now),
    ensures
        forall|i: int|
            0 <= i < frame_events(m, f, now).len() ==> {
                let e = #[trigger] frame_events(m, f, now)[i];
                e == TelemetryEvent::ShotStarted || e is WaterRefillNeeded
            },
{
    let evs = frame_events(m, f, now);
    assert(fresh_machine_state().last_frame is None);
    assert forall|i: int| 0 <= i < evs.len() implies {
        let e = #[trigger] evs[i];
        e == TelemetryEvent::ShotStarted || e is WaterRefillNeeded
    } by {
        let t = transition_events(None, f, None, now);
        assert(evs == t);
    }
}

/// A pump run that stops is reported once, as a shot when it lasted at least 10 s and as an
/// aborted run otherwise, with its whole seconds.
pub proof fn lemma_pump_stop_classified(
    prev: TelemetryFrameView,
    f: TelemetryFrameView,
    started: u64,
    now: u64,
)
    requires
        prev.pump_on,
        !f.pump_on,
        prev.mode == f.mode,
        prev.no_water_code == f.no_water_code,
        now >= started,
    ensures
        transition_events(Some(prev), f, Some(started), now) == seq![
            if (now - started) / 1000 >= MIN_SHOT_DURATION_SECS {
                TelemetryEvent::ShotEnded { duration: ((now - started) / 1000) as u64 }
            } else {
                TelemetryEvent::ShotAborted { duration: ((now - started) / 1000) as u64 }
            }
        ],
{
    assert(transition_events(Some(prev), f, Some(started), now) =~= seq![shot_finished(Some(started), now)]);
}

/// A shot's duration is kept until the next shot starts: ending a shot records it, starting a
/// new one clears it, and an aborted run clears it.
pub proof fn lemma_shot_duration_lifecycle(m: AppModel, d: u64, t0: u64, t1: u64, t2: u64)
    ensures
        ({
            let started = apply_event(m, AppEventView::ShotStarted, t0);
            let ended = apply_event(started, AppEventView::ShotEnded { duration: d }, t1);
            let again = apply_event(ended, AppEventView::ShotStarted, t2);
            &&& started.extraction_state is Extracting
            &&& started.error is None
            &&& ended.extraction_state == (ExtractionState::Idle { last_extraction_duration: Some(d) })
            &&& again.extraction_state is Extracting
            &&& apply_event(again, AppEventView::ShotAborted { duration: 1 }, t2).extraction_state
                == (ExtractionState::Idle { last_extraction_duration: None })
        }),
{
}

/// The water alarm follows the machine: a refill request raises it, clearing it removes it.
pub proof fn lemma_water_alarm(m: AppModel, code: u16, now: u64)
    ensures
        apply_event(m, AppEventView::WaterRefillNeeded { code }, now).error
            == Some(AppError::WaterRefillNeeded { code }),
        apply_event(
            apply_event(m, AppEventView::WaterRefillNeeded { code }, now),
            AppEventView::WaterRefillCleared,
            now,
        ).error is None,
{
}

/// The shot timer follows the pump: after any frame, a shot start is recorded exactly when
/// the frame has the pump on, provided that held before.
pub proof fn lemma_shot_timer_follows_pump(m: AppModel, f: TelemetryFrameView, now: u64)
    requires
        (m.machine_state.shot_started_at is Some) <==> (match m.machine_state.last_frame {
            Some(p) => p.pump_on,
            None => false,
        }),
    ensures
        ({
            let ms = frame_recorded(m, f, now).machine_state;
            (ms.shot_started_at is Some) <==> f.pump_on
        }),
{
}

/// The backlight is off after boot, lit right after activity, and off again once the
/// timeout has passed.
pub proof fn lemma_backlight_timeout(t: u64, now: u64)
    ensures
        !backlight_lit(None, now),
        backlight_lit(Some(t), t),
        now >= t + crate::state::global_state::BACKLIGHT_TIMEOUT_MS ==> !backlight_lit(Some(t), now),
{
}

/// The characters of a run of received bytes.
pub open spec fn byte_chars(bytes: Seq<u8>) -> Seq<char> {
    bytes.map_values(|b: u8| b as char)
}

/// Printable bytes received while the line stays within its limit are appended to the
/// pending line and complete nothing.
pub proof fn lemma_printable_bytes_accumulate(p: Seq<char>, bytes: Seq<u8>)
    requires
        p.len() + bytes.len() <= LINE_BUF_MAX,
        forall|i: int| 0 <= i < bytes.len() ==> is_line_byte(#[trigger] bytes[i]),
    ensures
        pending_after(p, bytes) == p + byte_chars(bytes),
        outcomes(p, bytes).len() == bytes.len(),
        forall|i: int| 0 <= i < bytes.len() ==> #[trigger] outcomes(p, bytes)[i] == LineOutcome::Pending,
    decreases bytes.len(),
{
    if bytes.len() == 0 {
        assert(p + byte_chars(bytes) =~= p);
    } else {
        let init = bytes.drop_last();
        assert forall|i: int| 0 <= i < init.len() implies is_line_byte(#[trigger] init[i]) by {
            assert(init[i] == bytes[i]);
        }
        lemma_printable_bytes_accumulate(p, init);
        let b = bytes.last();
        assert(is_line_byte(bytes[bytes.len() - 1]));
        assert(!is_line_end(b));
        assert((p + byte_chars(init)).push(b as char) =~= p + byte_chars(bytes));
    }
}

/// A line of at most 256 printable characters followed by a line end is parsed exactly
/// once, when the line end arrives, as `parse_line` of its characters; the assembler is then
/// empty again.
pub proof fn lemma_line_parsed_once(bytes: Seq<u8>, end: u8)
    requires
        0 < bytes.len() <= LINE_BUF_MAX,
        forall|i: int| 0 <= i < bytes.len() ==> is_line_byte(#[trigger] bytes[i]),
        is_line_end(end),
    ensures
        forall|i: int| 0 <= i < bytes.len() ==> #[trigger] outcomes(Seq::empty(), bytes.push(end))[i]
            == LineOutcome::Pending,
        outcomes(Seq::empty(), bytes.push(end)).last() == (match parse_line(byte_chars(bytes)) {
            Ok(f) => LineOutcome::Frame(f),
            Err(e) => LineOutcome::Rejected { line: byte_chars(bytes), error: e },
        }),
        pending_after(Seq::empty(), bytes.push(end)) == Seq::<char>::empty(),
{
    lemma_printable_bytes_accumulate(Seq::empty(), bytes);
    let all = bytes.push(end);
    assert(all.drop_last() =~= bytes);
    assert(Seq::<char>::empty() + byte_chars(bytes) =~= byte_chars(bytes));
}

/// A line that grows beyond 256 characters is discarded when its 257th character arrives:
/// nothing of it is parsed and the assembler starts over.
pub proof fn lemma_long_line_discarded(bytes: Seq<u8>)
    requires
        bytes.len() == LINE_BUF_MAX + 1,
        forall|i: int| 0 <= i < bytes.len() ==> is_line_byte(#[trigger] bytes[i]),
    ensures
        outcomes(Seq::empty(), bytes).last() == LineOutcome::Overflow,
        forall|i: int| 0 <= i < LINE_BUF_MAX ==> #[trigger] outcomes(Seq::empty(), bytes)[i]
            == LineOutcome::Pending,
        pending_after(Seq::empty(), bytes) == Seq::<char>::empty(),
{
    let init = bytes.drop_last();
    assert forall|i: int| 0 <= i < init.len() implies is_line_byte(#[trigger] init[i]) by {
        assert(init[i] == bytes[i]);
    }
    lemma_printable_bytes_accumulate(Seq::empty(), init);
    assert(is_line_byte(bytes[bytes.len() - 1]));
    assert(!is_line_end(bytes.last()));
}

/// A press is reported once, on release, and classified by how long the button was held:
/// holding reports nothing and keeps the time the press began; the release after a press
/// that began at `t0` reports a short press below 500 ms, a long press up to 2000 ms, and
/// nothing after a longer hold.
pub proof fn lemma_press_reported_on_release(t0: u64, held: u64, t1: u64)
    requires
        t0 <= held <= t1,
    ensures
        press_on_sample(None, true, t0) is None,
        press_start_after(None, true, t0) == Some(t0),
        press_on_sample(Some(t0), true, held) is None,
        press_start_after(Some(t0), true, held) == Some(t0),
        press_on_sample(Some(t0), false, t1) == (if t1 - t0 < LONG_PRESS_MS {
            Some(ButtonPressType::Short)
        } else if t1 - t0 <= MAX_LONG_PRESS_MS {
            Some(ButtonPressType::Long)
        } else {
            None
        }),
        press_start_after(Some(t0), false, t1) is None,
        press_on_sample(None, false, t1) is None,
{
}

/// A timer made by `new` or `default` runs after a sequence of `start` and `stop` calls
/// exactly when the sequence is non-empty and its last call is `start`.
pub proof fn lemma_brew_timer_running(calls: Seq<BrewCall>)
    ensures
        (brew_run((None, 0), calls).0 is Some) <==> (calls.len() > 0 && calls.last() is Start),
{
    if calls.len() > 0 {
        let t = brew_run((None, 0), calls.drop_last());
        assert(brew_run((None, 0), calls) == brew_step(t, calls.last()));
    }
}

/// Queueing one message is appending it with the cap.
pub proof fn lemma_enqueue_one(q: Seq<MqttMessageView>, x: MqttMessageView)
    ensures
        enqueue_all(q, seq![x]) == bounded_push(q, x, OUTBOUND_MQTT_CAP as nat),
{
    let s = seq![x];
    assert(s.drop_last() =~= Seq::<MqttMessageView>::empty());
    assert(enqueue_all(q, s.drop_last()) == q);
    assert(s.last() == x);
}

/// Queueing two runs of messages one after the other is queueing their concatenation.
pub proof fn lemma_enqueue_all_concat(q: Seq<MqttMessageView>, a: Seq<MqttMessageView>, b: Seq<MqttMessageView>)
    ensures
        enqueue_all(enqueue_all(q, a), b) == enqueue_all(q, a + b),
    decreases b.len(),
{
    if b.len() == 0 {
        assert(a + b =~= a);
    } else {
        lemma_enqueue_all_concat(q, a, b.drop_last());
        assert((a + b).drop_last() =~= a + b.drop_last());
        assert((a + b).last() == b.last());
    }
}

/// The messages the telemetry events of a frame queue, in order: for each event its Home
/// Assistant states (when enabled), then its JSON on `<prefix>/events`.
pub open spec fn event_followups(prefix: Seq<char>, ha: bool, evs: Seq<TelemetryEvent>) -> Seq<
    MqttMessageView,
>
    decreases evs.len(),
{
    if evs.len() == 0 {
        Seq::empty()
    } else {
        event_followups(prefix, ha, evs.drop_last()) + (if ha {
            event_state_messages(prefix, evs.last())
        } else {
            Seq::empty()
        }) + seq![relative_message("events"@, telemetry_event_json(evs.last()))]
    }
}

/// The messages a frame queues after its telemetry JSON: those of its events, then the
/// Home Assistant telemetry states when enabled.
pub open spec fn frame_followups(m: AppModel, f: TelemetryFrameView, now: u64) -> Seq<MqttMessageView> {
    let m6 = apply_telemetry_events(frame_recorded(m, f, now), frame_events(m, f, now), now);
    event_followups(m.mqtt_topic_prefix, m.home_assistant, frame_events(m, f, now)) + (if m.home_assistant {
        telemetry_state_messages(m6, now)
    } else {
        Seq::empty()
    })
}

proof fn lemma_events_effects(m: AppModel, evs: Seq<TelemetryEvent>, now: u64)
    ensures
        ({
            let r = apply_telemetry_events(m, evs, now);
            &&& r.outbound_mqtt == enqueue_all(
                m.outbound_mqtt,
                event_followups(m.mqtt_topic_prefix, m.home_assistant, evs),
            )
            &&& r.machine_state == m.machine_state
            &&& r.last_activity_at == m.last_activity_at
            &&& r.last_uart_frame_at == m.last_uart_frame_at
            &&& r.home_assistant == m.home_assistant
            &&& r.mqtt_topic_prefix == m.mqtt_topic_prefix
        }),
    decreases evs.len(),
{
    if evs.len() == 0 {
        assert(enqueue_all(m.outbound_mqtt, Seq::empty()) == m.outbound_mqtt);
    } else {
        let init = evs.drop_last();
        let ev = evs.last();
        lemma_events_effects(m, init, now);
        let p = apply_telemetry_events(m, init, now);
        let ha_msgs = if m.home_assistant {
            event_state_messages(m.mqtt_topic_prefix, ev)
        } else {
            Seq::empty()
        };
        let ev_msg = seq![relative_message("events"@, telemetry_event_json(ev))];
        let m1 = if p.home_assistant {
            AppModel {
                outbound_mqtt: enqueue_all(p.outbound_mqtt, event_state_messages(p.mqtt_topic_prefix, ev)),
                ..p
            }
        } else {
            p
        };
        assert(m1.outbound_mqtt == enqueue_all(p.outbound_mqtt, ha_msgs));
        let m2 = apply_event(m1, crate::state::app_events::telemetry_app_event(ev), now);
        assert(m2.outbound_mqtt == m1.outbound_mqtt && m2.machine_state == m1.machine_state
            && m2.last_activity_at == m1.last_activity_at
            && m2.last_uart_frame_at == m1.last_uart_frame_at
            && m2.home_assistant == m1.home_assistant
            && m2.mqtt_topic_prefix == m1.mqtt_topic_prefix) by {
            match ev {
                TelemetryEvent::ShotStarted => {},
                TelemetryEvent::ShotEnded { .. } => {},
                TelemetryEvent::ShotAborted { .. } => {},
                TelemetryEvent::WaterRefillNeeded { .. } => {},
                TelemetryEvent::WaterRefillCleared => {},
                TelemetryEvent::ModeChanged { .. } => {},
            }
        }
        lemma_enqueue_one(m2.outbound_mqtt, relative_message("events"@, telemetry_event_json(ev)));
        let prev = event_followups(m.mqtt_topic_prefix, m.home_assistant, init);
        lemma_enqueue_all_concat(m.outbound_mqtt, prev, ha_msgs);
        lemma_enqueue_all_concat(m.outbound_mqtt, prev + ha_msgs, ev_msg);
        assert(evs.drop_last() == init);
    }
}

/// Handling a frame records it, its arrival and the activity, queues its telemetry JSON
/// before anything else it queues, and keeps the graph buffers within 300 samples. When the
/// queue was within its cap, it then holds the newest 64 of the old queue, the telemetry
/// JSON and what follows it, in order.
pub proof fn lemma_frame_handling(m: AppModel, f: TelemetryFrameView, now: u64)
    requires
        m.machine_state.target_boiler_data.len() <= GRAPH_BUF_CAP,
        m.machine_state.current_boiler_data.len() <= GRAPH_BUF_CAP,
        m.machine_state.current_hx_data.len() <= GRAPH_BUF_CAP,
    ensures
        ({
            let r = apply_frame(m, f, now);
            let queued = seq![relative_message("telemetry"@, telemetry_json(f))] + frame_followups(m, f, now);
            let all = m.outbound_mqtt + queued;
            let keep = if all.len() > OUTBOUND_MQTT_CAP { OUTBOUND_MQTT_CAP as int } else { all.len() as int };
            &&& r.machine_state.last_frame == Some(f)
            &&& r.last_activity_at == Some(now)
            &&& r.last_uart_frame_at == Some(now)
            &&& r.outbound_mqtt == enqueue_all(m.outbound_mqtt, queued)
            &&& m.outbound_mqtt.len() <= OUTBOUND_MQTT_CAP ==> r.outbound_mqtt == all.subrange(all.len() - keep, all.len() as int)
            &&& r.machine_state.target_boiler_data.len() <= GRAPH_BUF_CAP
            &&& r.machine_state.current_boiler_data.len() <= GRAPH_BUF_CAP
            &&& r.machine_state.current_hx_data.len() <= GRAPH_BUF_CAP
        }),
{
    let m5 = frame_recorded(m, f, now);
    let evs = frame_events(m, f, now);
    let tel = seq![relative_message("telemetry"@, telemetry_json(f))];
    lemma_frame_keeps_graph_cap(m, f, now);
    lemma_enqueue_one(m.outbound_mqtt, relative_message("telemetry"@, telemetry_json(f)));
    lemma_events_effects(m5, evs, now);
    let m6 = apply_telemetry_events(m5, evs, now);
    let evf = event_followups(m.mqtt_topic_prefix, m.home_assistant, evs);
    lemma_enqueue_all_concat(m.outbound_mqtt, tel, evf);
    let tail = if m.home_assistant { telemetry_state_messages(m6, now) } else { Seq::empty() };
    lemma_enqueue_all_concat(m.outbound_mqtt, tel + evf, tail);
    assert(tel + (evf + tail) =~= (tel + evf) + tail);
    if !m.home_assistant {
        assert(enqueue_all(enqueue_all(m.outbound_mqtt, tel + evf), tail) == enqueue_all(m.outbound_mqtt, tel + evf));
    }
    let queued = tel + frame_followups(m, f, now);
    if m.outbound_mqtt.len() <= OUTBOUND_MQTT_CAP {
        lemma_enqueue_all_suffix(m.outbound_mqtt, queued);
    }
}

/// The dashboard banner names the mode family: every steam mode (`S`, `V`, `C` on the UART)
/// reads STEAM MODE in cyan, Coffee reads COFFEE MODE in green, and only Coffee gets the
/// COFFEE banner. The banner is cyan exactly for the modes whose name is `Steam`.
pub proof fn lemma_banner_names_mode(m: MachineMode)
    ensures
        (m is SteamS || m is SteamV || m is SteamC) ==> banner_of(m) == (
            "\u{2550}\u{2550}\u{2550} STEAM MODE \u{2550}\u{2550}\u{2550}"@,
            Tone::Cyan,
        ),
        m is Coffee ==> banner_of(m) == (
            "\u{2550}\u{2550}\u{2550} COFFEE MODE \u{2550}\u{2550}\u{2550}"@,
            Tone::Green,
        ),
        banner_of(m).0 == "\u{2550}\u{2550}\u{2550} COFFEE MODE \u{2550}\u{2550}\u{2550}"@ ==> m is Coffee,
        (banner_of(m).1 == Tone::Cyan) <==> (mode_display(m) == "Steam"@),
        (banner_of(m).1 == Tone::Green) <==> (mode_display(m) == "Coffee"@),
        banner_of(mode_of_char('S')).1 == Tone::Cyan,
        banner_of(mode_of_char('V')).1 == Tone::Cyan,
        banner_of(mode_of_char('C')).1 == Tone::Cyan,
{
    reveal_strlit("\u{2550}\u{2550}\u{2550} COFFEE MODE \u{2550}\u{2550}\u{2550}");
    reveal_strlit("\u{2550}\u{2550}\u{2550} STEAM MODE \u{2550}\u{2550}\u{2550}");
    reveal_strlit("\u{2550}\u{2550}\u{2550}  OFFLINE  \u{2550}\u{2550}\u{2550}");
    reveal_strlit("\u{2550}\u{2550}\u{2550}  UNKNOWN  \u{2550}\u{2550}\u{2550}");
    reveal_strlit("Steam");
    reveal_strlit("Coffee");
    reveal_strlit("Offline");
    reveal_strlit("Unknown");
    let coffee = "\u{2550}\u{2550}\u{2550} COFFEE MODE \u{2550}\u{2550}\u{2550}"@;
    assert(coffee[4] == 'C');
    assert("\u{2550}\u{2550}\u{2550} STEAM MODE \u{2550}\u{2550}\u{2550}"@[4] == 'S');
    assert("\u{2550}\u{2550}\u{2550}  OFFLINE  \u{2550}\u{2550}\u{2550}"@[4] == ' ');
    assert("\u{2550}\u{2550}\u{2550}  UNKNOWN  \u{2550}\u{2550}\u{2550}"@[4] == ' ');
    assert("Steam"@[0] == 'S' && "Coffee"@[0] == 'C' && "Offline"@[0] == 'O' && "Unknown"@[0] == 'U');
}

/// The telemetry JSON reports the frame's own flags: the text holds `,"heating_on":`
/// followed by the heating flag, then `,"pump_on":` followed by the pump flag, then the
/// next key.
pub proof fn lemma_telemetry_json_flags(f: TelemetryFrameView)
    ensures
        has_infix(
            telemetry_json(f),
            ",\"heating_on\":"@ + bool_word(f.heating_on) + ",\"pump_on\":"@ + bool_word(f.pump_on)
                + ",\"no_water_code\":"@,
        ),
{
    let s = telemetry_json(f);
    let p = ",\"heating_on\":"@ + bool_word(f.heating_on) + ",\"pump_on\":"@ + bool_word(f.pump_on)
        + ",\"no_water_code\":"@;
    let a = "{\"mode\":\""@ + mode_display(f.mode) + "\",\"sw\":\""@ + f.sw_version + "\",\"boiler_now_c\":"@
        + decimal(f.boiler_now_c as nat) + ",\"boiler_target_c\":"@ + crate::text::json_opt_number(
        match f.boiler_target_c {
            Some(x) => Some(x as int),
            None => None,
        },
    ) + ",\"hx_now_c\":"@ + decimal(f.hx_now_c as nat) + ",\"boost_countdown_s\":"@ + decimal(
        f.boost_countdown_s as nat,
    );
    let c = crate::text::json_opt_number(
        match f.no_water_code {
            Some(x) => Some(x as int),
            None => None,
        },
    ) + "}"@;
    assert(s =~= a + p + c);
    assert((a + p + c).subrange(a.len() as int, (a.len() + p.len()) as int) =~= p);
    assert(occurs_at(s, p, a.len() as int));
}

/// Home Assistant's boiler target state carries the target the last frame reports, and the
/// current temperature goes to its own topic.
pub proof fn lemma_boiler_target_state(m: AppModel, now: u64, f: TelemetryFrameView, t: u16)
    requires
        m.machine_state.last_frame == Some(f),
        f.boiler_target_c == Some(t),
    ensures
        telemetry_state_messages(m, now).contains(
            state_message(m.mqtt_topic_prefix, "boiler_target"@, decimal(t as nat), false),
        ),
        telemetry_state_messages(m, now).contains(
            state_message(m.mqtt_topic_prefix, "boiler_now"@, decimal(f.boiler_now_c as nat), false),
        ),
{
    let msgs = telemetry_state_messages(m, now);
    assert(msgs[3] == state_message(m.mqtt_topic_prefix, "boiler_target"@, decimal(t as nat), false));
    assert(msgs[2] == state_message(m.mqtt_topic_prefix, "boiler_now"@, decimal(f.boiler_now_c as nat), false));
}

proof fn lemma_ascii_lower_idempotent(v: Seq<char>)
    ensures
        ascii_lower(ascii_lower(v)) == ascii_lower(v),
{
    assert forall|i: int| 0 <= i < v.len() implies #[trigger] lower_char(lower_char(v[i])) == lower_char(v[i]) by {
        let c = v[i];
        if 65 <= (c as u32) && (c as u32) <= 90 {
            assert(((c as u32) + 32) as char as u32 == (c as u32) + 32);
        }
    }
    assert(ascii_lower(ascii_lower(v)) =~= ascii_lower(v));
}

/// `MARATUI_MQTT_ENABLED` is read without regard to ASCII case: a value means what its
/// lowercase form means, and every spelling of `1`/`true`/`yes`/`on` enables MQTT while
/// every spelling of `0`/`false`/`no`/`off` disables it.
pub proof fn lemma_enabled_value_ignores_case(v: Seq<char>)
    ensures
        enabled_value(v) == enabled_value(ascii_lower(v)),
        (ascii_lower(v) == "1"@ || ascii_lower(v) == "true"@ || ascii_lower(v) == "yes"@
            || ascii_lower(v) == "on"@) ==> enabled_value(v) == Some(true),
        (ascii_lower(v) == "0"@ || ascii_lower(v) == "false"@ || ascii_lower(v) == "no"@
            || ascii_lower(v) == "off"@) ==> enabled_value(v) == Some(false),
{
    lemma_ascii_lower_idempotent(v);
    reveal_strlit("1");
    reveal_strlit("true");
    reveal_strlit("yes");
    reveal_strlit("on");
    reveal_strlit("0");
    reveal_strlit("false");
    reveal_strlit("no");
    reveal_strlit("off");
    let l = ascii_lower(v);
    if l == "0"@ || l == "false"@ || l == "no"@ || l == "off"@ {
        assert(l[0] == '0' || l[0] == 'f' || l[0] == 'n' || l[0] == 'o');
        assert(l != "1"@ && l != "true"@ && l != "yes"@) by {
            assert("1"@[0] == '1' && "true"@[0] == 't' && "yes"@[0] == 'y');
        }
        assert(l != "on"@) by {
            if l == "on"@ {
                assert(l.len() == 2 && l[0] == 'o');
                assert(l != "no"@) by { assert("no"@[0] == 'n'); }
                assert(l != "off"@) by { assert("off"@.len() == 3); }
                assert(l != "0"@) by { assert("0"@.len() == 1); }
                assert(l != "false"@) by { assert("false"@.len() == 5); }
            }
        }
    }
}

/// Every pump stop records when it happened, whether it ended a shot or an aborted run.
pub proof fn lemma_pump_stop_recorded(m: AppModel, d: u64, now: u64)
    ensures
        apply_event(m, AppEventView::ShotEnded { duration: d }, now).last_shot_ended_at == Some(now),
        apply_event(m, AppEventView::ShotAborted { duration: d }, now).last_shot_ended_at == Some(now),
        apply_event(m, AppEventView::ShotAborted { duration: d }, now).extraction_state
            == (ExtractionState::Idle { last_extraction_duration: None }),
{
}

} // verus!
