//! Timing decisions of the firmware main loop: periodic work, Wi-Fi supervision and the
//! minimum duration of boot stages. Times are milliseconds of a monotonic clock.
use vstd::prelude::*;

verus! {

/// Device status is published this often.
pub const STATUS_INTERVAL_MS: u64 = 30_000;

/// The Wi-Fi link is checked this often.
pub const WIFI_CHECK_INTERVAL_MS: u64 = 10_000;

/// A lost Wi-Fi link is reconnected at most this often.
pub const WIFI_RECONNECT_INTERVAL_MS: u64 = 15_000;

/// A boot stage stays on screen at least this long.
pub const MIN_STAGE_MS: u64 = 800;

/// Whether periodic work last done at `last` is due again at `now` (always, if never done).
pub open spec fn is_due(last: Option<u64>, now: u64, interval: u64) -> bool {
    match last {
        Some(t) => (if now >= t { now - t } else { 0 }) >= interval,
        None => true,
    }
}

/// Whether periodic work last done at `last` is due again at `now`.
pub fn due(last: Option<u64>, now: u64, interval: u64) -> (b: bool)
    ensures
        b == is_due(last, now, interval),
{
    match last {
        Some(t) => (if now >= t { now - t } else { 0 }) >= interval,
        None => true,
    }
}

/// How much longer a boot stage that has run `elapsed` milliseconds must stay on screen.
pub fn stage_delay_ms(elapsed: u64) -> (r: u64)
    ensures
        r == (if elapsed < MIN_STAGE_MS { MIN_STAGE_MS - elapsed } else { 0 }),
{
    if elapsed < MIN_STAGE_MS { MIN_STAGE_MS - elapsed } else { 0 }
}

/// What a Wi-Fi check asks the loop to do.
#[derive(Clone, Copy, Debug, PartialEq, Eq, Structural)]
pub struct WifiActions {
    /// The new link state to report when it changed.
    pub report: Option<bool>,
    /// Whether to attempt a reconnect now.
    pub reconnect: bool,
}

/// Supervision of the Wi-Fi link: periodic checks, change reports and paced reconnects.
#[derive(Clone, Copy, Debug)]
pub struct WifiMonitor {
    pub last_check_at: Option<u64>,
    pub reconnect_at: Option<u64>,
    pub was_connected: bool,
}

impl WifiMonitor {
    /// A monitor for a link that just came up.
    pub fn new() -> (m: Self)
        ensures
            m.last_check_at is None,
            m.reconnect_at is None,
            m.was_connected,
    {
        WifiMonitor { last_check_at: None, reconnect_at: None, was_connected: true }
    }

    /// Whether the link should be checked at `now`.
    pub fn check_due(&self, now: u64) -> (b: bool)
        ensures
            b == is_due(self.last_check_at, now, WIFI_CHECK_INTERVAL_MS),
    {
        due(self.last_check_at, now, WIFI_CHECK_INTERVAL_MS)
    }

    /// Records a check at `now` that found the link `is_connected`: a change is reported;
    /// while down, a reconnect is attempted at most every [`WIFI_RECONNECT_INTERVAL_MS`].
    pub fn after_check(&mut self, now: u64, is_connected: bool) -> (a: WifiActions)
        ensures
            final(self).last_check_at == Some(now),
            final(self).was_connected == is_connected,
            a.report == (if is_connected != old(self).was_connected {
                Some(is_connected)
            } else {
                None
            }),
            a.reconnect == (!is_connected && is_due(
                old(self).reconnect_at,
                now,
                WIFI_RECONNECT_INTERVAL_MS,
            )),
            final(self).reconnect_at == (if is_connected {
                None
            } else if a.reconnect {
                Some(now)
            } else {
                old(self).reconnect_at
            }),
    {
        self.last_check_at = Some(now);
        let report = if is_connected != self.was_connected {
            self.was_connected = is_connected;
            Some(is_connected)
        } else {
            None
        };
        let mut reconnect = false;
        if !is_connected {
            if due(self.reconnect_at, now, WIFI_RECONNECT_INTERVAL_MS) {
                self.reconnect_at = Some(now);
                reconnect = true;
            }
        } else {
            self.reconnect_at = None;
        }
        WifiActions { report, reconnect }
    }
}

} // verus!
