//! MQTT plumbing decisions: broker address, publication topic and quality of service.
use vstd::prelude::*;
use crate::state::global_state::MqttOutboundMessage;
use crate::text::{
    char_indices, char_positions, chars_of, has_prefix, parse_u16_range, parse_u64_range, starts_with,
    trim, trim_bounds, u16_literal, u64_literal,
};

verus! {

/// The broker port used when the URL names none.
pub const DEFAULT_MQTT_PORT: u16 = 1883;

/// `url` without a leading `mqtt://`, `tcp://` or `ws://`.
pub open spec fn strip_scheme(url: Seq<char>) -> Seq<char> {
    if has_prefix(url, "mqtt://"@) {
        url.skip(7)
    } else if has_prefix(url, "tcp://"@) {
        url.skip(6)
    } else if has_prefix(url, "ws://"@) {
        url.skip(5)
    } else {
        url
    }
}

/// The `host[:port]` part of a broker URL: after the scheme, up to the first `/`.
pub open spec fn host_port_part(url: Seq<char>) -> Seq<char> {
    let rest = strip_scheme(url);
    let slashes = char_positions(rest, '/', rest.len() as int);
    if slashes.len() > 0 { rest.take(slashes[0]) } else { rest }
}

/// Host and port of a broker URL: the port after the last `:` of the host part (no result
/// when it is not a valid `u16`), or 1883 without a `:`.
pub open spec fn broker_address(url: Seq<char>) -> Option<(Seq<char>, u16)> {
    let hp = host_port_part(url);
    let colons = char_positions(hp, ':', hp.len() as int);
    if colons.len() > 0 {
        let k = colons.last();
        match u16_literal(hp.skip(k + 1)) {
            Some(p) => Some((hp.take(k), p)),
            None => None,
        }
    } else {
        Some((hp, DEFAULT_MQTT_PORT))
    }
}

/// Host and port of a broker URL such as `mqtt://192.168.1.5:1883`.
pub fn parse_mqtt_host_port(url: &str) -> (r: Option<(String, u16)>)
    ensures
        match r {
            Some((h, p)) => broker_address(url@) == Some((h@, p)),
            None => broker_address(url@) is None,
        },
{
    let v = chars_of(url);
    let n = v.len();
    proof {
        reveal_strlit("mqtt://");
        reveal_strlit("tcp://");
        reveal_strlit("ws://");
    }
    let start: usize = if starts_with(url, "mqtt://") {
        7
    } else if starts_with(url, "tcp://") {
        6
    } else if starts_with(url, "ws://") {
        5
    } else {
        0
    };
    assert(v@.subrange(start as int, n as int) =~= strip_scheme(url@));
    let slashes = char_indices(&v, '/', start, n);
    let end: usize = if slashes.len() > 0 { slashes[0] } else { n };
    let ghost rest = strip_scheme(url@);
    assert(rest == v@.subrange(start as int, n as int));
    assert(v@.subrange(start as int, end as int) =~= host_port_part(url@)) by {
        if slashes.len() > 0 {
            assert(rest.take(slashes@[0] - start) =~= v@.subrange(start as int, end as int));
        } else {
            assert(rest =~= v@.subrange(start as int, end as int));
        }
    }
    let colons = char_indices(&v, ':', start, end);
    let ghost hp = host_port_part(url@);
    proof {
        assert(v@.subrange(start as int, end as int) == hp);
    }
    if colons.len() > 0 {
        let k = colons[colons.len() - 1];
        assert(v@.subrange(k + 1, end as int) =~= hp.skip(k + 1 - start));
        assert(v@.subrange(start as int, k as int) =~= hp.take(k - start));
        match parse_u16_range(&v, k + 1, end) {
            Some(port) => {
                Some((String::from_str(url.substring_char(start, k)), port))
            },
            None => None,
        }
    } else {
        Some((String::from_str(url.substring_char(start, end)), DEFAULT_MQTT_PORT))
    }
}


/// The topic a queued message is published to: its own topic when absolute, otherwise
/// `<prefix>/<suffix>`.
pub open spec fn publish_topic_of(prefix: Seq<char>, suffix: Seq<char>, absolute: bool) -> Seq<char> {
    if absolute { suffix } else { prefix + "/"@ + suffix }
}

/// The topic a queued message is published to.
pub fn publish_topic(prefix: &str, msg: &MqttOutboundMessage) -> (t: String)
    ensures
        t@ == publish_topic_of(prefix@, msg.topic_suffix@, msg.absolute),
{
    if msg.absolute {
        msg.topic_suffix.clone()
    } else {
        let mut t = String::from_str(prefix);
        t.append("/");
        t.append(msg.topic_suffix.as_str());
        t
    }
}

/// Quality of service of a queued message: retained messages (discovery configs, last
/// shot) at least once (1), others at most once (0).
pub fn publish_qos(msg: &MqttOutboundMessage) -> (q: u8)
    ensures
        q == (if msg.retain { 1u8 } else { 0u8 }),
{
    if msg.retain { 1 } else { 0 }
}

/// The topic carrying the cup counter: `<prefix>/cup_counter`.
pub fn cup_counter_topic(prefix: &str) -> (t: String)
    ensures
        t@ == prefix@ + "/cup_counter"@,
{
    let mut t = String::from_str(prefix);
    t.append("/cup_counter");
    t
}

/// The text UTF-8 `bytes` encode, or none when they are not valid UTF-8.
pub open spec fn utf8_decode(bytes: Seq<u8>) -> Option<Seq<char>> {
    if vstd::utf8::valid_utf8(bytes) {
        Some(vstd::utf8::decode_utf8(bytes))
    } else {
        None
    }
}

/// Decodes `bytes` with `core::str::from_utf8`. Claimed: it succeeds exactly on valid
/// UTF-8, and the text holds the characters the bytes encode ([`utf8_decode`]).
#[verifier::external_body]
fn utf8_text(bytes: &[u8]) -> (r: Option<String>)
    ensures
        match r {
            Some(t) => utf8_decode(bytes@) == Some(t@),
            None => utf8_decode(bytes@) is None,
        },
{
    match core::str::from_utf8(bytes) {
        Ok(t) => Some(t.to_string()),
        Err(_) => None,
    }
}

/// The cup count written in a payload text: the text without surrounding white space, read
/// as a `u64`.
pub fn cup_count_from_text(text: &str) -> (r: Option<u64>)
    ensures
        r == u64_literal(trim(text@)),
{
    let v = chars_of(text);
    let n = v.len();
    assert(v@.subrange(0, n as int) =~= v@);
    let (lo, hi) = trim_bounds(&v, 0, n);
    parse_u64_range(&v, lo, hi)
}

/// The cup count carried by a payload on the cup-counter topic: decoded as UTF-8, trimmed
/// and read as a `u64`; none when any step fails.
pub fn parse_cup_counter(payload: &[u8]) -> (r: Option<u64>)
    ensures
        r == match utf8_decode(payload@) {
            Some(t) => u64_literal(trim(t)),
            None => None,
        },
{
    match utf8_text(payload) {
        Some(t) => cup_count_from_text(t.as_str()),
        None => None,
    }
}

} // verus!
