//! Screens of the single-button UI and the pure decisions behind their rendering.
use vstd::prelude::*;
use crate::state::global_state::{AppModel, ConnectionStatusView, ExtractionState, GlobalAppState, status_debug};
use crate::telemetry::MachineMode;
use crate::text::{decimal, signed_decimal, i64_text, u64_text};

verus! {

/// Available screens in the application.
#[derive(Clone, Copy, Debug, PartialEq, Eq, Structural)]
pub enum Screen {
    Dashboard,
    Graphs,
    Debug,
}

/// Single-button navigation: Dashboard and Graphs swap, Debug stays.
pub open spec fn next_screen(s: Screen) -> Screen {
    match s {
        Screen::Dashboard => Screen::Graphs,
        Screen::Graphs => Screen::Dashboard,
        Screen::Debug => Screen::Debug,
    }
}

impl Default for Screen {
    fn default() -> (s: Self)
        ensures
            s == Screen::Dashboard,
    {
        Screen::Dashboard
    }
}

impl Screen {
    /// Toggle between Dashboard and Graphs (single-button navigation).
    pub fn next(self) -> (r: Self)
        ensures
            r == next_screen(self),
    {
        match self {
            Screen::Dashboard => Screen::Graphs,
            Screen::Graphs => Screen::Dashboard,
            Screen::Debug => Screen::Debug,
        }
    }

    /// Same as `next`: with one button there is no separate "previous".
    pub fn previous(self) -> (r: Self)
        ensures
            r == next_screen(self),
    {
        self.next()
    }

    /// The screen's title.
    pub fn to_string(&self) -> (s: String)
        ensures
            s@ == (match *self {
                Screen::Dashboard => "Dashboard"@,
                Screen::Graphs => "Graphs"@,
                Screen::Debug => "Debug"@,
            }),
    {
        match self {
            Screen::Dashboard => String::from_str("Dashboard"),
            Screen::Graphs => String::from_str("Graphs"),
            Screen::Debug => String::from_str("Debug"),
        }
    }
}

/// Navigation never leaves the pair Dashboard/Graphs, and two presses come back.
pub proof fn lemma_next_is_involution(s: Screen)
    ensures
        next_screen(next_screen(s)) == s,
        s != Screen::Debug ==> next_screen(s) != Screen::Debug && next_screen(s) != s,
{
}


/// Foreground colours the screens use.
#[derive(Clone, Copy, Debug, PartialEq, Eq, Structural)]
pub enum Tone {
    White,
    Green,
    Yellow,
    Red,
    Cyan,
    Gray,
    DarkGray,
}

/// The mode banner of the dashboard: its text and colour.
pub open spec fn banner_of(m: MachineMode) -> (Seq<char>, Tone) {
    match m {
        MachineMode::Coffee => ("\u{2550}\u{2550}\u{2550} COFFEE MODE \u{2550}\u{2550}\u{2550}"@, Tone::Green),
        MachineMode::SteamS | MachineMode::SteamV | MachineMode::SteamC => (
            "\u{2550}\u{2550}\u{2550} STEAM MODE \u{2550}\u{2550}\u{2550}"@,
            Tone::Cyan,
        ),
        MachineMode::Offline => ("\u{2550}\u{2550}\u{2550}  OFFLINE  \u{2550}\u{2550}\u{2550}"@, Tone::Red),
        MachineMode::Unknown(_) => ("\u{2550}\u{2550}\u{2550}  UNKNOWN  \u{2550}\u{2550}\u{2550}"@, Tone::Gray),
    }
}

/// The mode banner of the dashboard: its text and colour.
pub fn mode_banner(mode: MachineMode) -> (r: (&'static str, Tone))
    ensures
        (r.0@, r.1) == banner_of(mode),
{
    match mode {
        MachineMode::Coffee => ("\u{2550}\u{2550}\u{2550} COFFEE MODE \u{2550}\u{2550}\u{2550}", Tone::Green),
        MachineMode::SteamS | MachineMode::SteamV | MachineMode::SteamC => (
            "\u{2550}\u{2550}\u{2550} STEAM MODE \u{2550}\u{2550}\u{2550}",
            Tone::Cyan,
        ),
        MachineMode::Offline => ("\u{2550}\u{2550}\u{2550}  OFFLINE  \u{2550}\u{2550}\u{2550}", Tone::Red),
        MachineMode::Unknown(_) => ("\u{2550}\u{2550}\u{2550}  UNKNOWN  \u{2550}\u{2550}\u{2550}", Tone::Gray),
    }
}

/// Colour of the shot timer: while running white below 20 s, green to 27 s, then yellow;
/// after the shot red below 15 s, yellow to 19 s, green to 30 s, yellow beyond.
pub open spec fn shot_tone(secs: u64, is_live: bool) -> Tone {
    if is_live {
        if secs <= 19 { Tone::White } else if secs <= 27 { Tone::Green } else { Tone::Yellow }
    } else {
        if secs <= 14 {
            Tone::Red
        } else if secs <= 19 {
            Tone::Yellow
        } else if secs <= 30 {
            Tone::Green
        } else {
            Tone::Yellow
        }
    }
}

/// Colour of the shot timer and gauge.
pub fn shot_style(secs: u64, is_live: bool) -> (t: Tone)
    ensures
        t == shot_tone(secs, is_live),
{
    if is_live {
        if secs <= 19 { Tone::White } else if secs <= 27 { Tone::Green } else { Tone::Yellow }
    } else {
        if secs <= 14 {
            Tone::Red
        } else if secs <= 19 {
            Tone::Yellow
        } else if secs <= 30 {
            Tone::Green
        } else {
            Tone::Yellow
        }
    }
}

/// The post-shot assessment of a shot of `secs` seconds.
pub open spec fn quality_of(secs: u64) -> Seq<char> {
    if 15 <= secs && secs <= 19 {
        "UNDEREXTRACTED"@
    } else if 20 <= secs && secs <= 23 {
        "GOOD"@
    } else if 24 <= secs && secs <= 27 {
        "PERFECT"@
    } else if 28 <= secs && secs <= 31 {
        "LONG SHOT"@
    } else if 32 <= secs && secs <= 39 {
        "BLONDING"@
    } else {
        "RIP SHOT"@
    }
}

/// The post-shot assessment label.
pub fn shot_quality_label(secs: u64) -> (s: &'static str)
    ensures
        s@ == quality_of(secs),
{
    if 15 <= secs && secs <= 19 {
        "UNDEREXTRACTED"
    } else if 20 <= secs && secs <= 23 {
        "GOOD"
    } else if 24 <= secs && secs <= 27 {
        "PERFECT"
    } else if 28 <= secs && secs <= 31 {
        "LONG SHOT"
    } else if 32 <= secs && secs <= 39 {
        "BLONDING"
    } else {
        "RIP SHOT"
    }
}

/// Fill colour of the heat-exchanger gauge: white when cold, green in the ideal zone
/// (88 to 95 °C), yellow to 100 °C, red above.
pub open spec fn hx_tone(temp: u16) -> Tone {
    if temp <= 87 {
        Tone::White
    } else if temp <= 95 {
        Tone::Green
    } else if temp <= 100 {
        Tone::Yellow
    } else {
        Tone::Red
    }
}

/// Fill colour of the heat-exchanger gauge.
pub fn hx_fill_style(temp: u16) -> (t: Tone)
    ensures
        t == hx_tone(temp),
{
    if temp <= 87 {
        Tone::White
    } else if temp <= 95 {
        Tone::Green
    } else if temp <= 100 {
        Tone::Yellow
    } else {
        Tone::Red
    }
}

/// Seconds shown by the extraction timer: the running shot, else the last shot, else 0.
pub open spec fn shown_extraction_secs(x: ExtractionState, now: u64) -> u64 {
    match x {
        ExtractionState::Extracting { started_at } => ((if now >= started_at {
            now - started_at
        } else {
            0
        }) / 1000) as u64,
        ExtractionState::Idle { last_extraction_duration } => match last_extraction_duration {
            Some(d) => d,
            None => 0,
        },
    }
}

/// Seconds shown by the extraction timer at `now`.
pub fn current_extraction_secs(state: &GlobalAppState, now: u64) -> (r: u64)
    ensures
        r == shown_extraction_secs(state.extraction_state, now),
{
    if state.extraction_state.is_extracting() {
        match state.extraction_state.elapsed(now) {
            Some(ms) => ms / 1000,
            None => 0,
        }
    } else {
        match state.extraction_state.last_extraction_duration() {
            Some(d) => d,
            None => 0,
        }
    }
}

/// Colour of the extraction timer: live colours while extracting, post-shot colours after a
/// shot, dark gray before any shot.
pub fn timer_style(state: &GlobalAppState, now: u64) -> (t: Tone)
    ensures
        t == (match state.extraction_state {
            ExtractionState::Extracting { .. } => shot_tone(
                shown_extraction_secs(state.extraction_state, now),
                true,
            ),
            ExtractionState::Idle { last_extraction_duration } => match last_extraction_duration {
                Some(_) => shot_tone(shown_extraction_secs(state.extraction_state, now), false),
                None => Tone::DarkGray,
            },
        }),
{
    let secs = current_extraction_secs(state, now);
    if state.extraction_state.is_extracting() {
        shot_style(secs, true)
    } else if state.extraction_state.last_extraction_duration().is_some() {
        shot_style(secs, false)
    } else {
        Tone::DarkGray
    }
}

/// Whether the shot gauge shows anything: a shot is running or one has completed.
pub fn shot_gauge_visible(state: &GlobalAppState) -> (b: bool)
    ensures
        b == (state.extraction_state is Extracting || state.extraction_state matches ExtractionState::Idle { last_extraction_duration: Some(_) }),
{
    state.extraction_state.is_extracting()
        || state.extraction_state.last_extraction_duration().is_some()
}

/// Whether the post-shot assessment label is shown: idle after a completed shot.
pub fn quality_label_visible(state: &GlobalAppState) -> (b: bool)
    ensures
        b == (state.extraction_state matches ExtractionState::Idle { last_extraction_duration: Some(_) }),
{
    !state.extraction_state.is_extracting()
        && state.extraction_state.last_extraction_duration().is_some()
}

/// Whether the boiler is at temperature: at least 95 % of the target (a zero target counts
/// as reached by any positive temperature).
pub open spec fn at_temperature(now: u16, target: u16) -> bool {
    if target == 0 { now > 0 } else { 100 * (now as int) >= 95 * (target as int) }
}

/// Whether the boiler is at temperature.
pub fn boiler_at_temp(now: u16, target: u16) -> (b: bool)
    ensures
        b == at_temperature(now, target),
{
    if target == 0 {
        now > 0
    } else {
        100 * (now as u32) >= 95 * (target as u32)
    }
}

/// `n` in base 10, right-aligned with spaces to at least three characters.
pub open spec fn pad3(n: u16) -> Seq<char> {
    let d = decimal(n as nat);
    if d.len() >= 3 {
        d
    } else if d.len() == 2 {
        " "@ + d
    } else {
        "  "@ + d
    }
}

fn pad3_text(n: u16) -> (s: String)
    ensures
        s@ == pad3(n),
{
    let d = u64_text(n as u64);
    let len = d.unicode_len();
    if len >= 3 {
        d
    } else if len == 2 {
        let mut s = String::from_str(" ");
        s.append(d.as_str());
        s
    } else {
        let mut s = String::from_str("  ");
        s.append(d.as_str());
        s
    }
}

/// The boiler gauge label `now°/target° `, numbers right-aligned to three characters.
pub fn boiler_label(now: u16, target: u16) -> (s: String)
    ensures
        s@ == pad3(now) + "\u{b0}/"@ + pad3(target) + "\u{b0} "@,
{
    let mut s = pad3_text(now);
    s.append("\u{b0}/");
    s.append(pad3_text(target).as_str());
    s.append("\u{b0} ");
    s
}

/// `Cups brewed: <n>`.
pub fn cup_counter_text(cups: u64) -> (s: String)
    ensures
        s@ == "Cups brewed: "@ + decimal(cups as nat),
{
    let mut s = String::from_str("Cups brewed: ");
    s.append(u64_text(cups).as_str());
    s
}

/// Uptime as `<d>d<h>h<m>m`, `<h>h<m>m` or `<m>m`.
pub open spec fn uptime_text(secs: u64) -> Seq<char> {
    let days = secs / 86400;
    let hours = (secs % 86400) / 3600;
    let mins = (secs % 3600) / 60;
    if days > 0 {
        decimal(days as nat) + "d"@ + decimal(hours as nat) + "h"@ + decimal(mins as nat) + "m"@
    } else if hours > 0 {
        decimal(hours as nat) + "h"@ + decimal(mins as nat) + "m"@
    } else {
        decimal(mins as nat) + "m"@
    }
}

/// Uptime as `<d>d<h>h<m>m`, `<h>h<m>m` or `<m>m`.
pub fn format_uptime(secs: u64) -> (s: String)
    ensures
        s@ == uptime_text(secs),
{
    let days = secs / 86400;
    let hours = (secs % 86400) / 3600;
    let mins = (secs % 3600) / 60;
    if days > 0 {
        let mut s = u64_text(days);
        s.append("d");
        s.append(u64_text(hours).as_str());
        s.append("h");
        s.append(u64_text(mins).as_str());
        s.append("m");
        s
    } else if hours > 0 {
        let mut s = u64_text(hours);
        s.append("h");
        s.append(u64_text(mins).as_str());
        s.append("m");
        s
    } else {
        let mut s = u64_text(mins);
        s.append("m");
        s
    }
}

/// The activity marker flashes this many milliseconds after each UART frame.
pub const UART_ACTIVITY_FLASH_MS: u64 = 250;

/// The text lines of the debug screen (without the events log).
pub struct DebugLines {
    pub net: String,
    pub device: String,
    pub uptime: String,
    pub uart: String,
}

/// The UART activity marker: a dot shortly after a frame, a blank otherwise.
pub open spec fn activity_marker(last: Option<u64>, now: u64) -> Seq<char> {
    match last {
        Some(t) => if (if now >= t { now - t } else { 0 }) < UART_ACTIVITY_FLASH_MS {
            "\u{25cf}"@
        } else {
            " "@
        },
        None => " "@,
    }
}

/// `<v>dBm`, or `?`.
pub open spec fn rssi_text(r: Option<i32>) -> Seq<char> {
    match r {
        Some(v) => signed_decimal(v as int) + "dBm"@,
        None => "?"@,
    }
}

/// Free heap in kB, or `N/A`.
pub open spec fn heap_text(h: Option<u32>) -> Seq<char> {
    match h {
        Some(v) => decimal((v / 1024) as nat) + "kB"@,
        None => "N/A"@,
    }
}

/// Seconds since the last frame, or `?`.
pub open spec fn frame_age_text(last: Option<u64>, now: u64) -> Seq<char> {
    match last {
        Some(t) => decimal(((if now >= t { now - t } else { 0 }) / 1000) as nat) + "s"@,
        None => "?"@,
    }
}

/// The hidden debug overlay: link status, device data, the raw UART line and the events log.
pub struct Debug;

/// The boot screen shown until the first telemetry frame.
pub struct Connecting;

/// The main dashboard: mode, boiler, heat exchanger, shot timer and cup counter.
pub struct Dashboard;

/// Temperature history over the last five minutes.
pub struct Graphs;

/// The rat barista mascot screen.
pub struct Rat;

/// The board the render loop draws.
#[derive(Clone, Copy, Debug, PartialEq, Eq, Structural)]
pub enum ActiveBoard {
    Connecting,
    Dashboard,
    Graphs,
    Debug,
}

/// The board shown for a state: the connecting screen until the first telemetry frame
/// (the debug screen stays reachable for diagnostics), otherwise the current screen.
pub open spec fn board_of(state: AppModel) -> ActiveBoard {
    if state.machine_state.last_frame is None && state.current_screen != Screen::Debug {
        ActiveBoard::Connecting
    } else {
        match state.current_screen {
            Screen::Dashboard => ActiveBoard::Dashboard,
            Screen::Graphs => ActiveBoard::Graphs,
            Screen::Debug => ActiveBoard::Debug,
        }
    }
}

/// Which board to draw for `state`; the mascot image goes with the connecting board.
pub fn active_board(state: &GlobalAppState) -> (b: ActiveBoard)
    ensures
        b == board_of(state@),
{
    if state.machine_state.last_frame.is_none() && state.current_screen != Screen::Debug {
        ActiveBoard::Connecting
    } else {
        match state.current_screen {
            Screen::Dashboard => ActiveBoard::Dashboard,
            Screen::Graphs => ActiveBoard::Graphs,
            Screen::Debug => ActiveBoard::Debug,
        }
    }
}

impl Debug {
    /// The text lines of the debug screen at `now`.
    pub fn lines(state: &GlobalAppState, now: u64) -> (r: DebugLines)
        ensures
            r.net@ == "NET: Wi-Fi="@ + status_debug(state.wifi_status@) + " MQTT="@ + status_debug(
                state.mqtt_status@,
            ),
            r.device@ == "DEV: ssid="@ + state.device_info.wifi_ssid@ + " rssi="@ + rssi_text(
                state.device_info.wifi_rssi,
            ),
            r.uptime@ == "ip="@ + (match state.device_info.ip {
                Some(ip) => ip@,
                None => "?"@,
            }) + " up="@ + uptime_text(state.device_info.uptime_s) + " heap="@ + heap_text(
                state.device_info.free_heap_b,
            ) + " rx="@ + frame_age_text(state.last_uart_frame_at, now),
            r.uart@ == (match state.machine_state.last_frame {
                Some(f) => "UART"@ + activity_marker(state.last_uart_frame_at, now) + " "@
                    + f.raw_string@,
                None => "UART"@ + activity_marker(state.last_uart_frame_at, now)
                    + "No data (waiting for connection...)"@,
            }),
    {
        let mut net = String::from_str("NET: Wi-Fi=");
        net.append(state.wifi_status.debug_text().as_str());
        net.append(" MQTT=");
        net.append(state.mqtt_status.debug_text().as_str());
        let mut device = String::from_str("DEV: ssid=");
        device.append(state.device_info.wifi_ssid.as_str());
        device.append(" rssi=");
        match state.device_info.wifi_rssi {
            Some(v) => {
                device.append(i64_text(v as i64).as_str());
                device.append("dBm");
            },
            None => device.append("?"),
        }
        let mut uptime = String::from_str("ip=");
        match &state.device_info.ip {
            Some(ip) => uptime.append(ip.as_str()),
            None => uptime.append("?"),
        }
        uptime.append(" up=");
        uptime.append(format_uptime(state.device_info.uptime_s).as_str());
        uptime.append(" heap=");
        match state.device_info.free_heap_b {
            Some(v) => {
                uptime.append(u64_text((v / 1024) as u64).as_str());
                uptime.append("kB");
            },
            None => uptime.append("N/A"),
        }
        uptime.append(" rx=");
        match state.last_uart_frame_at {
            Some(t) => {
                uptime.append(u64_text((if now >= t { now - t } else { 0 }) / 1000).as_str());
                uptime.append("s");
            },
            None => uptime.append("?"),
        }
        let marker = match state.last_uart_frame_at {
            Some(t) => if (if now >= t { now - t } else { 0 }) < UART_ACTIVITY_FLASH_MS {
                "\u{25cf}"
            } else {
                " "
            },
            None => " ",
        };
        let mut uart = String::from_str("UART");
        uart.append(marker);
        match &state.machine_state.last_frame {
            Some(f) => {
                uart.append(" ");
                uart.append(f.raw_string.as_str());
            },
            None => uart.append("No data (waiting for connection...)"),
        }
        DebugLines { net, device, uptime, uart }
    }

}

impl Connecting {
    /// Boot message and progress (percent) for the connecting screen.
    pub fn progress(state: &GlobalAppState) -> (r: (&'static str, u8))
        ensures
            (match state.loading_status {
                Some((m, p)) => r.0@ == m@ && r.1 == p,
                None => r.0@ == "starting up..."@ && r.1 == 0,
            }),
    {
        match state.loading_status {
            Some((m, p)) => (m, p),
            None => ("starting up...", 0),
        }
    }
}

impl Rat {
    /// The mascot's message: thirsty while water is missing.
    pub fn status_text(state: &GlobalAppState) -> (s: &'static str)
        ensures
            s@ == (match state.error {
                Some(crate::state::global_state::AppError::WaterRefillNeeded { .. }) => "I am thirsty!"@,
                _ => "Let's make some coffee!"@,
            }),
    {
        match state.error {
            Some(crate::state::global_state::AppError::WaterRefillNeeded { .. }) => "I am thirsty!",
            _ => "Let's make some coffee!",
        }
    }
}


/// Smallest sample of a non-empty sequence.
pub open spec fn seq_min(s: Seq<u16>) -> int
    decreases s.len(),
{
    if s.len() <= 1 {
        s[0] as int
    } else {
        let m = seq_min(s.drop_last());
        if (s.last() as int) < m { s.last() as int } else { m }
    }
}

/// Largest sample of a non-empty sequence.
pub open spec fn seq_max(s: Seq<u16>) -> int
    decreases s.len(),
{
    if s.len() <= 1 {
        s[0] as int
    } else {
        let m = seq_max(s.drop_last());
        if (s.last() as int) > m { s.last() as int } else { m }
    }
}

/// Y-axis bounds of the temperature chart over all samples: padded by 5 °C and rounded
/// outwards to multiples of 5, never below 0; 30 to 150 °C while there are no samples.
pub open spec fn chart_bounds(all: Seq<u16>) -> (int, int) {
    if all.len() == 0 {
        (30, 150)
    } else {
        let lower = (seq_min(all) - 5) / 5 * 5;
        (if lower < 0 { 0 } else { lower }, (seq_max(all) + 5 + 4) / 5 * 5)
    }
}

fn append_samples(out: &mut Vec<u16>, q: &std::collections::VecDeque<u16>)
    ensures
        final(out)@ == old(out)@ + q@,
{
    let n = q.len();
    for i in 0..n
        invariant
            n == q@.len(),
            out@ == old(out)@ + q@.take(i as int),
    {
        out.push(q[i]);
        assert(q@.take(i + 1) =~= q@.take(i as int).push(q@[i as int]));
        assert(out@ =~= old(out)@ + q@.take(i + 1));
    }
    assert(q@.take(n as int) =~= q@);
}

impl Graphs {
    /// Y-axis bounds (°C) of the temperature chart: over the boiler, target and
    /// heat-exchanger samples.
    pub fn y_bounds(state: &GlobalAppState) -> (r: (i32, i32))
        ensures
            (r.0 as int, r.1 as int) == chart_bounds(
                state.machine_state.current_boiler_data@ + state.machine_state.target_boiler_data@
                    + state.machine_state.current_hx_data@,
            ),
    {
        let mut all: Vec<u16> = Vec::new();
        append_samples(&mut all, &state.machine_state.current_boiler_data);
        append_samples(&mut all, &state.machine_state.target_boiler_data);
        append_samples(&mut all, &state.machine_state.current_hx_data);
        let ghost a = all@;
        if all.len() == 0 {
            return (30, 150);
        }
        let mut lo: u16 = all[0];
        let mut hi: u16 = all[0];
        let n = all.len();
        for i in 1..n
            invariant
                n == a.len(),
                all@ == a,
                n >= 1,
                lo as int == seq_min(a.take(i as int)),
                hi as int == seq_max(a.take(i as int)),
        {
            assert(a.take(i + 1).drop_last() =~= a.take(i as int));
            if all[i] < lo {
                lo = all[i];
            }
            if all[i] > hi {
                hi = all[i];
            }
        }
        assert(a.take(n as int) =~= a);
        let l: i32 = (lo as i32 - 5) / 5 * 5;
        let lower: i32 = if (lo as i32) < 5 { 0 } else { l };
        let upper: i32 = ((hi as i32) + 5 + 4) / 5 * 5;
        (lower, upper)
    }
}

} // verus!
