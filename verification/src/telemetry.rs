//! UART telemetry of the Lelit Mara: the frame format, its parser, and the
//! transition events derived from consecutive frames.
use vstd::prelude::*;
use std::collections::VecDeque;
use crate::text::{char_indices, char_positions, chars_of, trim, trim_bounds, u16_literal, parse_u16_range, char_debug, char_debug_text};

verus! {

/// Operating mode reported in the first character of a telemetry line.
#[derive(Clone, Copy, Debug, PartialEq, Eq, Structural)]
pub enum MachineMode {
    /// `-` or `+`
    Coffee,
    /// `S`
    SteamS,
    /// `V`
    SteamV,
    /// `C`
    SteamC,
    /// `X`
    Offline,
    /// any other character
    Unknown(char),
}

/// The mode a telemetry line announces with its first character `c`.
pub open spec fn mode_of_char(c: char) -> MachineMode {
    if c == '-' || c == '+' {
        MachineMode::Coffee
    } else if c == 'S' {
        MachineMode::SteamS
    } else if c == 'V' {
        MachineMode::SteamV
    } else if c == 'C' {
        MachineMode::SteamC
    } else if c == 'X' {
        MachineMode::Offline
    } else {
        MachineMode::Unknown(c)
    }
}

impl Default for MachineMode {
    fn default() -> (m: Self)
        ensures
            m == MachineMode::Offline,
    {
        MachineMode::Offline
    }
}

impl MachineMode {
    /// Decodes the mode character of a telemetry line.
    pub fn from_char(c: char) -> (m: Self)
        ensures
            m == mode_of_char(c),
    {
        if c == '-' || c == '+' {
            MachineMode::Coffee
        } else if c == 'S' {
            MachineMode::SteamS
        } else if c == 'V' {
            MachineMode::SteamV
        } else if c == 'C' {
            MachineMode::SteamC
        } else if c == 'X' {
            MachineMode::Offline
        } else {
            MachineMode::Unknown(c)
        }
    }
}

/// One decoded telemetry line.
#[derive(Debug, Default, Clone, PartialEq, Eq)]
pub struct TelemetryFrame {
    pub raw_string: String,
    pub mode: MachineMode,
    /// e.g. "1.10"
    pub sw_version: String,
    pub boiler_now_c: u16,
    /// `None` while the machine reports a no-water code instead of a target
    pub boiler_target_c: Option<u16>,
    /// `Some(65)` for a target field `L65`
    pub no_water_code: Option<u16>,
    pub hx_now_c: u16,
    pub boost_countdown_s: u16,
    pub heating_on: bool,
    pub pump_on: bool,
}

/// Mathematical view of a [`TelemetryFrame`].
pub struct TelemetryFrameView {
    pub raw_string: Seq<char>,
    pub mode: MachineMode,
    pub sw_version: Seq<char>,
    pub boiler_now_c: u16,
    pub boiler_target_c: Option<u16>,
    pub no_water_code: Option<u16>,
    pub hx_now_c: u16,
    pub boost_countdown_s: u16,
    pub heating_on: bool,
    pub pump_on: bool,
}

impl View for TelemetryFrame {
    type V = TelemetryFrameView;

    open spec fn view(&self) -> TelemetryFrameView {
        TelemetryFrameView {
            raw_string: self.raw_string@,
            mode: self.mode,
            sw_version: self.sw_version@,
            boiler_now_c: self.boiler_now_c,
            boiler_target_c: self.boiler_target_c,
            no_water_code: self.no_water_code,
            hx_now_c: self.hx_now_c,
            boost_countdown_s: self.boost_countdown_s,
            heating_on: self.heating_on,
            pump_on: self.pump_on,
        }
    }
}

impl TelemetryFrame {
    /// A field-by-field copy.
    pub fn copy_frame(&self) -> (r: Self)
        ensures
            r@ == self@,
    {
        TelemetryFrame {
            raw_string: self.raw_string.clone(),
            mode: self.mode,
            sw_version: self.sw_version.clone(),
            boiler_now_c: self.boiler_now_c,
            boiler_target_c: self.boiler_target_c,
            no_water_code: self.no_water_code,
            hx_now_c: self.hx_now_c,
            boost_countdown_s: self.boost_countdown_s,
            heating_on: self.heating_on,
            pump_on: self.pump_on,
        }
    }

    /// Steam mode, heating, pump off: the frame of line `C1.10,120,138,090,0000,1,0`.
    pub fn debug_frame() -> (f: Self)
        ensures
            f@.raw_string == "C1.10,120,138,090,0000,1,0"@,
            f@.mode == MachineMode::SteamC,
            f@.sw_version == "1.10"@,
            f@.boiler_now_c == 120,
            f@.boiler_target_c == Some(138u16),
            f@.hx_now_c == 90,
            f@.boost_countdown_s == 0,
            f@.heating_on,
            !f@.pump_on,
            f@.no_water_code == None::<u16>,
    {
        TelemetryFrame {
            raw_string: String::from_str("C1.10,120,138,090,0000,1,0"),
            mode: MachineMode::SteamC,
            sw_version: String::from_str("1.10"),
            boiler_now_c: 120,
            boiler_target_c: Some(138),
            hx_now_c: 90,
            boost_countdown_s: 0,
            heating_on: true,
            pump_on: false,
            no_water_code: None,
        }
    }

    /// As [`TelemetryFrame::debug_frame`] with the pump running.
    pub fn debug_pump_on_frame() -> (f: Self)
        ensures
            f@.raw_string == "C1.10,120,138,090,0000,1,1"@,
            f@.mode == MachineMode::SteamC,
            f@.sw_version == "1.10"@,
            f@.boiler_now_c == 120,
            f@.boiler_target_c == Some(138u16),
            f@.hx_now_c == 90,
            f@.boost_countdown_s == 0,
            f@.heating_on,
            f@.pump_on,
            f@.no_water_code == None::<u16>,
    {
        TelemetryFrame {
            raw_string: String::from_str("C1.10,120,138,090,0000,1,1"),
            mode: MachineMode::SteamC,
            sw_version: String::from_str("1.10"),
            boiler_now_c: 120,
            boiler_target_c: Some(138),
            hx_now_c: 90,
            boost_countdown_s: 0,
            heating_on: true,
            pump_on: true,
            no_water_code: None,
        }
    }

    /// Coffee mode with the no-water code 65 in place of the boiler target.
    pub fn debug_no_water_frame() -> (f: Self)
        ensures
            f@.raw_string == "C1.10,122,L65,085,0000,0,0"@,
            f@.mode == MachineMode::Coffee,
            f@.sw_version == "1.10"@,
            f@.boiler_now_c == 122,
            f@.boiler_target_c == None::<u16>,
            f@.hx_now_c == 85,
            f@.boost_countdown_s == 0,
            !f@.heating_on,
            !f@.pump_on,
            f@.no_water_code == Some(65u16),
    {
        TelemetryFrame {
            raw_string: String::from_str("C1.10,122,L65,085,0000,0,0"),
            mode: MachineMode::Coffee,
            sw_version: String::from_str("1.10"),
            boiler_now_c: 122,
            boiler_target_c: None,
            hx_now_c: 85,
            boost_countdown_s: 0,
            heating_on: false,
            pump_on: false,
            no_water_code: Some(65),
        }
    }
}

} // verus!

verus! {

/// Why a telemetry line was rejected.
#[derive(Debug, Clone, PartialEq, Eq)]
pub enum ParseError {
    Empty,
    BadPrefix,
    WrongFieldCount { got: usize, expected: usize },
    BadNumber { field: &'static str, value: String },
    BadBool { field: &'static str, value: String },
}

/// Mathematical view of a [`ParseError`].
pub enum ParseErrorView {
    Empty,
    BadPrefix,
    WrongFieldCount { got: usize, expected: usize },
    BadNumber { field: Seq<char>, value: Seq<char> },
    BadBool { field: Seq<char>, value: Seq<char> },
}

impl View for ParseError {
    type V = ParseErrorView;

    open spec fn view(&self) -> ParseErrorView {
        match self {
            ParseError::Empty => ParseErrorView::Empty,
            ParseError::BadPrefix => ParseErrorView::BadPrefix,
            ParseError::WrongFieldCount { got, expected } => ParseErrorView::WrongFieldCount {
                got: *got,
                expected: *expected,
            },
            ParseError::BadNumber { field, value } => ParseErrorView::BadNumber {
                field: field@,
                value: value@,
            },
            ParseError::BadBool { field, value } => ParseErrorView::BadBool {
                field: field@,
                value: value@,
            },
        }
    }
}

/// Positions of all commas of `s`.
pub open spec fn commas(s: Seq<char>) -> Seq<int> {
    char_positions(s, ',', s.len() as int)
}

/// The `j`-th comma-separated field of `s`, where `cs` are the comma positions of `s`.
pub open spec fn field(s: Seq<char>, cs: Seq<int>, j: int) -> Seq<char> {
    s.subrange(
        if j == 0 { 0 } else { cs[j - 1] + 1 },
        if j < cs.len() { cs[j] } else { s.len() as int },
    )
}

/// A numeric field: its trimmed text read as `u16`, or the `BadNumber` error naming `name`.
pub open spec fn number_field(p: Seq<char>, name: Seq<char>) -> Result<u16, ParseErrorView> {
    let t = trim(p);
    match u16_literal(t) {
        Some(v) => Ok(v),
        None => Err(ParseErrorView::BadNumber { field: name, value: t }),
    }
}

/// The boiler-target field: `Lnn` gives the no-water code `nn`, anything else the target.
pub open spec fn target_field(p: Seq<char>) -> Result<(Option<u16>, Option<u16>), ParseErrorView> {
    let t = trim(p);
    if t.len() > 0 && t[0] == 'L' {
        match number_field(t.drop_first(), "no_water_code"@) {
            Ok(code) => Ok((None, Some(code))),
            Err(e) => Err(e),
        }
    } else {
        match number_field(t, "boiler_target_c"@) {
            Ok(v) => Ok((Some(v), None)),
            Err(e) => Err(e),
        }
    }
}

/// A flag field: trimmed `0` is off, `1` is on, anything else the `BadBool` error.
pub open spec fn flag_field(p: Seq<char>, name: Seq<char>) -> Result<bool, ParseErrorView> {
    let t = trim(p);
    if t == seq!['0'] {
        Ok(false)
    } else if t == seq!['1'] {
        Ok(true)
    } else {
        Err(ParseErrorView::BadBool { field: name, value: t })
    }
}

/// The frame that the six data fields `p0..p5` of `line` describe, or the first error among
/// them in field order.
pub open spec fn frame_of_fields(
    line: Seq<char>,
    mode: MachineMode,
    sw: Seq<char>,
    p0: Seq<char>,
    p1: Seq<char>,
    p2: Seq<char>,
    p3: Seq<char>,
    p4: Seq<char>,
    p5: Seq<char>,
) -> Result<TelemetryFrameView, ParseErrorView> {
    match number_field(p0, "boiler_now_c"@) {
        Err(e) => Err(e),
        Ok(boiler_now) => match target_field(p1) {
            Err(e) => Err(e),
            Ok((target, code)) => match number_field(p2, "hx_now_c"@) {
                Err(e) => Err(e),
                Ok(hx) => match number_field(p3, "boost_countdown_s"@) {
                    Err(e) => Err(e),
                    Ok(boost) => match flag_field(p4, "heating_on"@) {
                        Err(e) => Err(e),
                        Ok(heating) => match flag_field(p5, "pump_on"@) {
                            Err(e) => Err(e),
                            Ok(pump) => Ok(
                                TelemetryFrameView {
                                    raw_string: line,
                                    mode,
                                    sw_version: sw,
                                    boiler_now_c: boiler_now,
                                    boiler_target_c: target,
                                    no_water_code: code,
                                    hx_now_c: hx,
                                    boost_countdown_s: boost,
                                    heating_on: heating,
                                    pump_on: pump,
                                },
                            ),
                        },
                    },
                },
            },
        },
    }
}

/// The meaning of a UART line
/// `<Mode><Version>,<boiler_now>,<boiler_target_or_Lxx>,<hx_now>,<boost>,<heating>,<pump>`:
/// after trimming white space, the first character is the mode, the text up to the first
/// comma the software version, and exactly six comma-separated fields must follow.
pub open spec fn parse_line(line: Seq<char>) -> Result<TelemetryFrameView, ParseErrorView> {
    let s = trim(line);
    if s.len() == 0 {
        Err(ParseErrorView::Empty)
    } else {
        let rest = s.drop_first();
        let cs = commas(rest);
        if cs.len() == 0 {
            Err(ParseErrorView::BadPrefix)
        } else if cs.len() != 6 {
            Err(ParseErrorView::WrongFieldCount { got: cs.len() as usize, expected: 6 })
        } else {
            frame_of_fields(
                line,
                mode_of_char(s[0]),
                field(rest, cs, 0),
                field(rest, cs, 1),
                field(rest, cs, 2),
                field(rest, cs, 3),
                field(rest, cs, 4),
                field(rest, cs, 5),
                field(rest, cs, 6),
            )
        }
    }
}

/// The view of a parse outcome.
pub open spec fn parse_outcome(r: Result<TelemetryFrame, ParseError>) -> Result<
    TelemetryFrameView,
    ParseErrorView,
> {
    match r {
        Ok(f) => Ok(f@),
        Err(e) => Err(e@),
    }
}

} // verus!

verus! {

/// The view of a field-parse outcome.
pub open spec fn field_outcome<T>(r: Result<T, ParseError>) -> Result<T, ParseErrorView> {
    match r {
        Ok(x) => Ok(x),
        Err(e) => Err(e@),
    }
}

fn parse_u16(line: &str, v: &Vec<char>, a: usize, b: usize, name: &'static str) -> (r:
    Result<u16, ParseError>)
    requires
        v@ == line@,
        a <= b <= v@.len(),
    ensures
        field_outcome(r) == number_field(v@.subrange(a as int, b as int), name@),
{
    let (ta, tb) = trim_bounds(v, a, b);
    match parse_u16_range(v, ta, tb) {
        Some(x) => Ok(x),
        None => Err(
            ParseError::BadNumber { field: name, value: String::from_str(line.substring_char(ta, tb)) },
        ),
    }
}

fn parse_target_field(line: &str, v: &Vec<char>, a: usize, b: usize) -> (r: Result<
    (Option<u16>, Option<u16>),
    ParseError,
>)
    requires
        v@ == line@,
        a <= b <= v@.len(),
    ensures
        field_outcome(r) == target_field(v@.subrange(a as int, b as int)),
{
    let (ta, tb) = trim_bounds(v, a, b);
    let ghost t = v@.subrange(ta as int, tb as int);
    if ta < tb && v[ta] == 'L' {
        assert(v@.subrange(ta + 1, tb as int) =~= t.drop_first());
        match parse_u16(line, v, ta + 1, tb, "no_water_code") {
            Ok(code) => Ok((None, Some(code))),
            Err(e) => Err(e),
        }
    } else {
        match parse_u16(line, v, ta, tb, "boiler_target_c") {
            Ok(x) => Ok((Some(x), None)),
            Err(e) => Err(e),
        }
    }
}

fn parse_bool01(line: &str, v: &Vec<char>, a: usize, b: usize, name: &'static str) -> (r:
    Result<bool, ParseError>)
    requires
        v@ == line@,
        a <= b <= v@.len(),
    ensures
        field_outcome(r) == flag_field(v@.subrange(a as int, b as int), name@),
{
    let (ta, tb) = trim_bounds(v, a, b);
    let ghost t = v@.subrange(ta as int, tb as int);
    assert(t == trim(v@.subrange(a as int, b as int)));
    if tb - ta == 1 && v[ta] == '0' {
        assert(t =~= seq!['0']);
        assert(flag_field(v@.subrange(a as int, b as int), name@) == Ok::<bool, ParseErrorView>(false));
        Ok(false)
    } else if tb - ta == 1 && v[ta] == '1' {
        assert(t =~= seq!['1']);
        assert(t != seq!['0']) by {
            assert(t[0] == '1');
            assert(seq!['0'][0] == '0');
        }
        Ok(true)
    } else {
        assert(t != seq!['0'] && t != seq!['1']) by {
            if t == seq!['0'] || t == seq!['1'] {
                assert(t.len() == 1);
                assert(t[0] == v@[ta as int]);
            }
        }
        let value = String::from_str(line.substring_char(ta, tb));
        assert(value@ == t);
        let e = ParseError::BadBool { field: name, value };
        assert(e@ == ParseErrorView::BadBool { field: name@, value: t });
        Err(e)
    }
}

fn frame_from_fields(
    line: &str,
    v: &Vec<char>,
    mode: MachineMode,
    start: usize,
    c0: usize,
    c1: usize,
    c2: usize,
    c3: usize,
    c4: usize,
    c5: usize,
    hi: usize,
) -> (r: Result<TelemetryFrame, ParseError>)
    requires
        v@ == line@,
        start <= c0 < c1 < c2 < c3 < c4 < c5 < hi <= v@.len(),
    ensures
        parse_outcome(r) == frame_of_fields(
            line@,
            mode,
            v@.subrange(start as int, c0 as int),
            v@.subrange(c0 + 1, c1 as int),
            v@.subrange(c1 + 1, c2 as int),
            v@.subrange(c2 + 1, c3 as int),
            v@.subrange(c3 + 1, c4 as int),
            v@.subrange(c4 + 1, c5 as int),
            v@.subrange(c5 + 1, hi as int),
        ),
{
    let sw_version = String::from_str(line.substring_char(start, c0));
    let boiler_now_c = match parse_u16(line, v, c0 + 1, c1, "boiler_now_c") {
        Ok(x) => x,
        Err(e) => { return Err(e); },
    };
    let (boiler_target_c, no_water_code) = match parse_target_field(line, v, c1 + 1, c2) {
        Ok(x) => x,
        Err(e) => { return Err(e); },
    };
    let hx_now_c = match parse_u16(line, v, c2 + 1, c3, "hx_now_c") {
        Ok(x) => x,
        Err(e) => { return Err(e); },
    };
    let boost_countdown_s = match parse_u16(line, v, c3 + 1, c4, "boost_countdown_s") {
        Ok(x) => x,
        Err(e) => { return Err(e); },
    };
    let heating_on = match parse_bool01(line, v, c4 + 1, c5, "heating_on") {
        Ok(x) => x,
        Err(e) => { return Err(e); },
    };
    let pump_on = match parse_bool01(line, v, c5 + 1, hi, "pump_on") {
        Ok(x) => x,
        Err(e) => { return Err(e); },
    };
    Ok(
        TelemetryFrame {
            raw_string: String::from_str(line),
            mode,
            sw_version,
            boiler_now_c,
            boiler_target_c,
            no_water_code,
            hx_now_c,
            boost_countdown_s,
            heating_on,
            pump_on,
        },
    )
}

/// Parses one UART line
/// `<Mode><Version>,<boiler_now>,<boiler_target_or_Lxx>,<hx_now>,<boost>,<heating>,<pump>`,
/// e.g. `C1.10,037,138,035,0000,0,1` or `C1.10,037,L65,035,0000,0,0`.
pub fn parse_uart_line(line: &str) -> (r: Result<TelemetryFrame, ParseError>)
    ensures
        parse_outcome(r) == parse_line(line@),
{
    let v = chars_of(line);
    let n = v.len();
    let (lo, hi) = trim_bounds(&v, 0, n);
    assert(v@.subrange(0, n as int) =~= line@);
    let ghost s = trim(line@);
    if lo == hi {
        return Err(ParseError::Empty);
    }
    let mode = MachineMode::from_char(v[lo]);
    let start = lo + 1;
    let ghost rest = v@.subrange(start as int, hi as int);
    assert(rest =~= s.drop_first());
    let cs = char_indices(&v, ',', start, hi);
    let ghost cz = commas(rest);
    if cs.len() == 0 {
        return Err(ParseError::BadPrefix);
    }
    if cs.len() != 6 {
        return Err(ParseError::WrongFieldCount { got: cs.len(), expected: 6 });
    }
    let c0 = cs[0];
    let c1 = cs[1];
    let c2 = cs[2];
    let c3 = cs[3];
    let c4 = cs[4];
    let c5 = cs[5];
    assert(field(rest, cz, 0) =~= v@.subrange(start as int, c0 as int));
    assert(field(rest, cz, 1) =~= v@.subrange(c0 + 1, c1 as int));
    assert(field(rest, cz, 2) =~= v@.subrange(c1 + 1, c2 as int));
    assert(field(rest, cz, 3) =~= v@.subrange(c2 + 1, c3 as int));
    assert(field(rest, cz, 4) =~= v@.subrange(c3 + 1, c4 as int));
    assert(field(rest, cz, 5) =~= v@.subrange(c4 + 1, c5 as int));
    assert(field(rest, cz, 6) =~= v@.subrange(c5 + 1, hi as int));
    frame_from_fields(line, &v, mode, start, c0, c1, c2, c3, c4, c5, hi)
}

} // verus!

verus! {

/// A pump run shorter than this many seconds is a rinse or pre-heat kick, not a shot.
pub const MIN_SHOT_DURATION_SECS: u64 = 10;

/// High-level events derived from the telemetry stream.
#[derive(Debug, Clone, Copy, PartialEq, Eq, Structural)]
pub enum AppEvent {
    /// Pump transitioned from OFF to ON.
    ShotStarted,
    /// Pump transitioned from ON to OFF after at least [`MIN_SHOT_DURATION_SECS`] seconds.
    ShotEnded { duration: u64 },
    /// Pump transitioned from ON to OFF before [`MIN_SHOT_DURATION_SECS`] seconds.
    ShotAborted { duration: u64 },
    /// No-water condition appeared, or its code changed.
    WaterRefillNeeded { code: u16 },
    /// No-water condition cleared.
    WaterRefillCleared,
    /// Mode changed (e.g. Coffee to Steam).
    ModeChanged { from: MachineMode, to: MachineMode },
}

/// Runtime state used to compute derived values (pump duration, transitions) and the
/// temperature history. Times are milliseconds of a monotonic clock.
#[derive(Debug, Clone)]
pub struct MachineState {
    pub on: bool,
    pub last_frame: Option<TelemetryFrame>,
    pub last_update: Option<u64>,
    pub shot_started_at: Option<u64>,
    /// Boiler target temperature samples (0 while no target is reported), oldest first.
    pub target_boiler_data: VecDeque<u16>,
    /// Boiler temperature samples, oldest first.
    pub current_boiler_data: VecDeque<u16>,
    /// Heat-exchanger temperature samples, oldest first.
    pub current_hx_data: VecDeque<u16>,
    pub last_graph_sample_at: Option<u64>,
}

/// Mathematical view of a [`MachineState`].
pub struct MachineStateView {
    pub on: bool,
    pub last_frame: Option<TelemetryFrameView>,
    pub last_update: Option<u64>,
    pub shot_started_at: Option<u64>,
    pub target_boiler_data: Seq<u16>,
    pub current_boiler_data: Seq<u16>,
    pub current_hx_data: Seq<u16>,
    pub last_graph_sample_at: Option<u64>,
}

/// The view of an optional frame.
pub open spec fn frame_opt_view(f: Option<TelemetryFrame>) -> Option<TelemetryFrameView> {
    match f {
        Some(x) => Some(x@),
        None => None,
    }
}

impl View for MachineState {
    type V = MachineStateView;

    open spec fn view(&self) -> MachineStateView {
        MachineStateView {
            on: self.on,
            last_frame: frame_opt_view(self.last_frame),
            last_update: self.last_update,
            shot_started_at: self.shot_started_at,
            target_boiler_data: self.target_boiler_data@,
            current_boiler_data: self.current_boiler_data@,
            current_hx_data: self.current_hx_data@,
            last_graph_sample_at: self.last_graph_sample_at,
        }
    }
}

/// The state before any telemetry arrived.
pub open spec fn fresh_machine_state() -> MachineStateView {
    MachineStateView {
        on: false,
        last_frame: None,
        last_update: None,
        shot_started_at: None,
        target_boiler_data: Seq::empty(),
        current_boiler_data: Seq::empty(),
        current_hx_data: Seq::empty(),
        last_graph_sample_at: None,
    }
}

impl Default for MachineState {
    fn default() -> (s: Self)
        ensures
            s@ == fresh_machine_state(),
    {
        MachineState {
            on: false,
            last_frame: None,
            last_update: None,
            shot_started_at: None,
            target_boiler_data: VecDeque::new(),
            current_boiler_data: VecDeque::new(),
            current_hx_data: VecDeque::new(),
            last_graph_sample_at: None,
        }
    }
}

impl MachineState {
    /// Forgets everything learnt from earlier frames (start of a new telemetry session).
    pub fn reset_session(&mut self)
        ensures
            final(self)@ == fresh_machine_state(),
    {
        *self = MachineState::default();
    }
}

/// Elapsed whole seconds between two millisecond instants, zero when `now` is earlier.
pub open spec fn elapsed_secs(since: u64, now: u64) -> u64 {
    if now >= since { ((now - since) / 1000) as u64 } else { 0 }
}

/// The event closing a pump run that started at `started` (if known) and stopped at `now`.
pub open spec fn shot_finished(started: Option<u64>, now: u64) -> AppEvent {
    let secs = match started {
        Some(t) => elapsed_secs(t, now),
        None => 0,
    };
    if secs < MIN_SHOT_DURATION_SECS {
        AppEvent::ShotAborted { duration: secs }
    } else {
        AppEvent::ShotEnded { duration: secs }
    }
}

/// Whether the previous frame (if any) had the pump on.
pub open spec fn prev_pump_on(prev: Option<TelemetryFrameView>) -> bool {
    match prev {
        Some(p) => p.pump_on,
        None => false,
    }
}

/// Events for the change from `prev` to `frame`, in this order: mode change, pump start or
/// stop, water condition.
pub open spec fn transition_events(
    prev: Option<TelemetryFrameView>,
    frame: TelemetryFrameView,
    started: Option<u64>,
    now: u64,
) -> Seq<AppEvent> {
    let mode_events = match prev {
        Some(p) => if p.mode != frame.mode {
            seq![AppEvent::ModeChanged { from: p.mode, to: frame.mode }]
        } else {
            Seq::empty()
        },
        None => Seq::empty(),
    };
    let was_on = prev_pump_on(prev);
    let pump_events = if !was_on && frame.pump_on {
        seq![AppEvent::ShotStarted]
    } else if was_on && !frame.pump_on {
        seq![shot_finished(started, now)]
    } else {
        Seq::empty()
    };
    let prev_water = match prev {
        Some(p) => p.no_water_code,
        None => None,
    };
    let water_events = match (prev_water, frame.no_water_code) {
        (None, Some(code)) => seq![AppEvent::WaterRefillNeeded { code }],
        (Some(_), None) => seq![AppEvent::WaterRefillCleared],
        (Some(a), Some(b)) => if a != b {
            seq![AppEvent::WaterRefillNeeded { code: b }]
        } else {
            Seq::empty()
        },
        (None, None) => Seq::empty(),
    };
    mode_events + pump_events + water_events
}

/// When the current pump run started, after seeing `frame` at `now`.
pub open spec fn shot_start_after(
    prev: Option<TelemetryFrameView>,
    frame: TelemetryFrameView,
    started: Option<u64>,
    now: u64,
) -> Option<u64> {
    let was_on = prev_pump_on(prev);
    if !was_on && frame.pump_on {
        Some(now)
    } else if was_on && !frame.pump_on {
        None
    } else {
        started
    }
}

/// A frame together with what the UI derives from it.
#[derive(Debug, Clone)]
pub struct Snapshot {
    pub frame: TelemetryFrame,
    pub is_extracting: bool,
}

/// Records `frame`, seen at `now`, in `state` and returns a UI snapshot and the transition
/// events relative to the previous frame.
pub fn update_state_with_events(state: &mut MachineState, frame: TelemetryFrame, now: u64) -> (r: (
    Snapshot,
    Vec<AppEvent>,
))
    ensures
        r.1@ == transition_events(
            old(state)@.last_frame,
            frame@,
            old(state)@.shot_started_at,
            now,
        ),
        r.0.frame@ == frame@,
        r.0.is_extracting == frame.pump_on,
        final(state)@ == (MachineStateView {
            last_frame: Some(frame@),
            last_update: Some(now),
            shot_started_at: shot_start_after(
                old(state)@.last_frame,
                frame@,
                old(state)@.shot_started_at,
                now,
            ),
            ..old(state)@
        }),
{
    let mut events: Vec<AppEvent> = Vec::new();
    let (prev_mode, prev_pump_on, prev_no_water) = match &state.last_frame {
        Some(prev) => (Some(prev.mode), prev.pump_on, prev.no_water_code),
        None => (None, false, None),
    };
    if let Some(pm) = prev_mode {
        if pm != frame.mode {
            events.push(AppEvent::ModeChanged { from: pm, to: frame.mode });
        }
    }
    let ghost after_mode = events@;
    if !prev_pump_on && frame.pump_on {
        state.shot_started_at = Some(now);
        events.push(AppEvent::ShotStarted);
    } else if prev_pump_on && !frame.pump_on {
        let duration: u64 = match state.shot_started_at {
            Some(started_at) => if now >= started_at { (now - started_at) / 1000 } else { 0 },
            None => 0,
        };
        state.shot_started_at = None;
        if duration < MIN_SHOT_DURATION_SECS {
            events.push(AppEvent::ShotAborted { duration });
        } else {
            events.push(AppEvent::ShotEnded { duration });
        }
    }
    let ghost after_pump = events@;
    match (prev_no_water, frame.no_water_code) {
        (None, Some(code)) => events.push(AppEvent::WaterRefillNeeded { code }),
        (Some(_), None) => events.push(AppEvent::WaterRefillCleared),
        (Some(prev_code), Some(new_code)) => {
            if prev_code != new_code {
                events.push(AppEvent::WaterRefillNeeded { code: new_code });
            }
        },
        (None, None) => {},
    }
    state.last_update = Some(now);
    state.last_frame = Some(frame.copy_frame());
    let is_extracting = frame.pump_on;
    proof {
        let prev = old(state)@.last_frame;
        let t = transition_events(prev, frame@, old(state)@.shot_started_at, now);
        assert(events@ =~= t);
    }
    (Snapshot { frame, is_extracting }, events)
}

} // verus!

verus! {

/// The display name of a mode: all steam variants read `Steam`.
pub open spec fn mode_display(m: MachineMode) -> Seq<char> {
    match m {
        MachineMode::Coffee => "Coffee"@,
        MachineMode::SteamS => "Steam"@,
        MachineMode::SteamV => "Steam"@,
        MachineMode::SteamC => "Steam"@,
        MachineMode::Offline => "Offline"@,
        MachineMode::Unknown(_) => "Unknown"@,
    }
}

/// The debug name of a mode: the variant name, with the character for `Unknown`.
pub open spec fn mode_debug(m: MachineMode) -> Seq<char> {
    match m {
        MachineMode::Coffee => "Coffee"@,
        MachineMode::SteamS => "SteamS"@,
        MachineMode::SteamV => "SteamV"@,
        MachineMode::SteamC => "SteamC"@,
        MachineMode::Offline => "Offline"@,
        MachineMode::Unknown(c) => "Unknown("@ + char_debug(c) + ")"@,
    }
}

impl MachineMode {
    /// The display name (`Coffee`, `Steam`, `Offline` or `Unknown`).
    pub fn to_string(&self) -> (s: String)
        ensures
            s@ == mode_display(*self),
    {
        match self {
            MachineMode::Coffee => String::from_str("Coffee"),
            MachineMode::SteamS => String::from_str("Steam"),
            MachineMode::SteamV => String::from_str("Steam"),
            MachineMode::SteamC => String::from_str("Steam"),
            MachineMode::Offline => String::from_str("Offline"),
            MachineMode::Unknown(_) => String::from_str("Unknown"),
        }
    }

    /// The debug name (variant name, e.g. `SteamC` or `Unknown('Q')`).
    pub fn debug_text(&self) -> (s: String)
        ensures
            s@ == mode_debug(*self),
    {
        match self {
            MachineMode::Coffee => String::from_str("Coffee"),
            MachineMode::SteamS => String::from_str("SteamS"),
            MachineMode::SteamV => String::from_str("SteamV"),
            MachineMode::SteamC => String::from_str("SteamC"),
            MachineMode::Offline => String::from_str("Offline"),
            MachineMode::Unknown(c) => {
                let mut s = String::from_str("Unknown(");
                let d = char_debug_text(*c);
                s.append(d.as_str());
                s.append(")");
                s
            },
        }
    }
}

} // verus!
