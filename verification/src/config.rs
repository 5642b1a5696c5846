//! Runtime configuration assembled from the `MARATUI_*` settings.
use vstd::prelude::*;
use crate::text::{ascii_lower, contains, has_infix, has_prefix, starts_with, to_ascii_lowercase};

verus! {

/// Wi-Fi credentials.
#[derive(Clone, Debug)]
pub struct WifiConfig {
    pub ssid: String,
    pub password: String,
}

/// MQTT connection settings.
#[derive(Clone, Debug)]
pub struct MqttConfig {
    pub enabled: bool,
    pub url: String,
    pub client_id: String,
    pub username: Option<String>,
    pub password: Option<String>,
    pub topic_prefix: String,
}

impl WifiConfig {
    /// Whether the network is joined without encryption: an empty password.
    pub fn is_open(&self) -> (b: bool)
        ensures
            b == (self.password@.len() == 0),
    {
        self.password.as_str().is_empty()
    }
}

/// The whole configuration.
#[derive(Clone, Debug)]
pub struct AppConfig {
    pub wifi: Option<WifiConfig>,
    pub mqtt: MqttConfig,
}

/// The values of the `MARATUI_*` settings; `None` when a setting is unset or empty.
#[derive(Clone, Debug)]
pub struct Settings {
    pub wifi_ssid: Option<String>,
    pub wifi_password: Option<String>,
    pub mqtt_enabled: Option<String>,
    pub mqtt_url: Option<String>,
    pub mqtt_client_id: Option<String>,
    pub mqtt_username: Option<String>,
    pub mqtt_password: Option<String>,
    pub mqtt_topic_prefix: Option<String>,
}

impl Default for Settings {
    /// No setting given.
    fn default() -> (s: Self)
        ensures
            s.wifi_ssid is None && s.wifi_password is None && s.mqtt_enabled is None
                && s.mqtt_url is None && s.mqtt_client_id is None && s.mqtt_username is None
                && s.mqtt_password is None && s.mqtt_topic_prefix is None,
    {
        Settings {
            wifi_ssid: None,
            wifi_password: None,
            mqtt_enabled: None,
            mqtt_url: None,
            mqtt_client_id: None,
            mqtt_username: None,
            mqtt_password: None,
            mqtt_topic_prefix: None,
        }
    }
}

/// Why a configuration was rejected.
#[derive(Clone, Debug, PartialEq, Eq)]
pub enum ConfigError {
    /// Wi-Fi SSID or password missing on the device.
    MissingWifi,
    /// `MARATUI_MQTT_ENABLED` is not a recognised boolean; the lowercased value.
    InvalidMqttEnabled { value: String },
}

/// The view of an optional string.
pub open spec fn opt_text(o: Option<String>) -> Option<Seq<char>> {
    match o {
        Some(s) => Some(s@),
        None => None,
    }
}

/// The boolean a (case-insensitive) `MARATUI_MQTT_ENABLED` value stands for.
pub open spec fn enabled_value(v: Seq<char>) -> Option<bool> {
    let l = ascii_lower(v);
    if l == "1"@ || l == "true"@ || l == "yes"@ || l == "on"@ {
        Some(true)
    } else if l == "0"@ || l == "false"@ || l == "no"@ || l == "off"@ {
        Some(false)
    } else {
        None
    }
}

/// `s`, or `default` when absent.
pub open spec fn or_default(s: Option<String>, default: Seq<char>) -> Seq<char> {
    match s {
        Some(x) => x@,
        None => default,
    }
}

/// The message of a configuration error.
pub open spec fn config_error_message(e: ConfigError) -> Seq<char> {
    match e {
        ConfigError::MissingWifi => "Missing Wi-Fi settings. Define MARATUI_WIFI_SSID and MARATUI_WIFI_PASSWORD"@,
        ConfigError::InvalidMqttEnabled { value } => "Invalid MARATUI_MQTT_ENABLED value: "@ + value@,
    }
}

impl ConfigError {
    /// The human-readable message.
    pub fn message(&self) -> (s: String)
        ensures
            s@ == config_error_message(*self),
    {
        match self {
            ConfigError::MissingWifi => String::from_str(
                "Missing Wi-Fi settings. Define MARATUI_WIFI_SSID and MARATUI_WIFI_PASSWORD",
            ),
            ConfigError::InvalidMqttEnabled { value } => {
                let mut s = String::from_str("Invalid MARATUI_MQTT_ENABLED value: ");
                s.append(value.as_str());
                s
            },
        }
    }
}

/// The value of one setting: the runtime value unless it is unset or empty, otherwise the
/// value baked in at build time.
pub fn setting(runtime: Option<String>, build_time: Option<&str>) -> (r: Option<String>)
    ensures
        match runtime {
            Some(v) if v@.len() > 0 => r == Some(v),
            _ => opt_text(r) == (match build_time {
                Some(b) => Some(b@),
                None => None::<Seq<char>>,
            }),
        },
{
    match runtime {
        Some(v) if !v.as_str().is_empty() => Some(v),
        _ => match build_time {
            Some(b) => Some(String::from_str(b)),
            None => None,
        },
    }
}

fn copy_opt(o: &Option<String>) -> (r: Option<String>)
    ensures
        opt_text(r) == opt_text(*o),
{
    match o {
        Some(s) => Some(s.clone()),
        None => None,
    }
}

fn value_or(o: &Option<String>, default: &str) -> (r: String)
    ensures
        r@ == or_default(*o, default@),
{
    match o {
        Some(s) => s.clone(),
        None => String::from_str(default),
    }
}

/// The boolean a setting value stands for: `1/true/yes/on` or `0/false/no/off`, in any case.
pub fn flag_value(raw: &str) -> (r: Option<bool>)
    ensures
        r == enabled_value(raw@),
{
    let lower = to_ascii_lowercase(raw);
    if is_one_of(&lower, "1", "true", "yes", "on") {
        Some(true)
    } else if is_one_of(&lower, "0", "false", "no", "off") {
        Some(false)
    } else {
        None
    }
}

fn is_one_of(l: &String, a: &str, b: &str, c: &str, d: &str) -> (r: bool)
    ensures
        r == (l@ == a@ || l@ == b@ || l@ == c@ || l@ == d@),
{
    *l == String::from_str(a) || *l == String::from_str(b) || *l == String::from_str(c)
        || *l == String::from_str(d)
}

impl AppConfig {
    /// Builds the configuration from the `MARATUI_*` settings. Wi-Fi needs both SSID and
    /// password unless running in the simulator; MQTT is enabled unless
    /// `MARATUI_MQTT_ENABLED` says otherwise (`1/true/yes/on`, `0/false/no/off`, any case);
    /// unset values take their defaults.
    pub fn from_env(env: &Settings, simulator: bool) -> (r: Result<AppConfig, ConfigError>)
        ensures
            match r {
                Ok(cfg) => {
                    &&& (env.wifi_ssid is Some && env.wifi_password is Some) || simulator
                    &&& cfg.wifi is Some <==> (env.wifi_ssid is Some && env.wifi_password is Some)
                    &&& cfg.wifi matches Some(w) ==> w.ssid@ == env.wifi_ssid.unwrap()@
                        && w.password@ == env.wifi_password.unwrap()@
                    &&& enabled_value(or_default(env.mqtt_enabled, "true"@)) == Some(cfg.mqtt.enabled)
                    &&& cfg.mqtt.url@ == or_default(env.mqtt_url, "mqtt://broker.emqx.io:1883"@)
                    &&& cfg.mqtt.client_id@ == or_default(
                        env.mqtt_client_id,
                        if simulator { "maratui-sim"@ } else { "maratui-esp32"@ },
                    )
                    &&& opt_text(cfg.mqtt.username) == opt_text(env.mqtt_username)
                    &&& opt_text(cfg.mqtt.password) == opt_text(env.mqtt_password)
                    &&& cfg.mqtt.topic_prefix@ == or_default(env.mqtt_topic_prefix, "mara"@)
                },
                Err(ConfigError::MissingWifi) => !(env.wifi_ssid is Some && env.wifi_password is Some)
                    && !simulator,
                Err(ConfigError::InvalidMqttEnabled { value }) => {
                    &&& (env.wifi_ssid is Some && env.wifi_password is Some) || simulator
                    &&& enabled_value(or_default(env.mqtt_enabled, "true"@)) is None
                    &&& value@ == ascii_lower(or_default(env.mqtt_enabled, "true"@))
                },
            },
    {
        let wifi = match (&env.wifi_ssid, &env.wifi_password) {
            (Some(ssid), Some(password)) => Some(
                WifiConfig { ssid: ssid.clone(), password: password.clone() },
            ),
            _ => {
                if !simulator {
                    return Err(ConfigError::MissingWifi);
                }
                None
            },
        };
        let raw = value_or(&env.mqtt_enabled, "true");
        let lower = to_ascii_lowercase(raw.as_str());
        let enabled = if is_one_of(&lower, "1", "true", "yes", "on") {
            true
        } else if is_one_of(&lower, "0", "false", "no", "off") {
            false
        } else {
            return Err(ConfigError::InvalidMqttEnabled { value: lower });
        };
        let client_default = if simulator { "maratui-sim" } else { "maratui-esp32" };
        let mqtt = MqttConfig {
            enabled,
            url: value_or(&env.mqtt_url, "mqtt://broker.emqx.io:1883"),
            client_id: value_or(&env.mqtt_client_id, client_default),
            username: copy_opt(&env.mqtt_username),
            password: copy_opt(&env.mqtt_password),
            topic_prefix: value_or(&env.mqtt_topic_prefix, "mara"),
        };
        Ok(AppConfig { wifi, mqtt })
    }

    /// Which security warnings apply: the default public broker is in use (anyone can read
    /// the telemetry), and credentials would travel over plaintext MQTT (`mqtt://`,
    /// `tcp://` or `ws://` with a username or password, MQTT enabled).
    pub fn warn_insecure(&self) -> (r: (bool, bool))
        ensures
            r.0 == has_infix(self.mqtt.url@, "broker.emqx.io"@),
            r.1 == (self.mqtt.enabled && (has_prefix(self.mqtt.url@, "mqtt://"@) || has_prefix(
                self.mqtt.url@,
                "tcp://"@,
            ) || has_prefix(self.mqtt.url@, "ws://"@)) && (self.mqtt.username is Some
                || self.mqtt.password is Some)),
    {
        let public_broker = contains(self.mqtt.url.as_str(), "broker.emqx.io");
        let url = self.mqtt.url.as_str();
        let is_plaintext = starts_with(url, "mqtt://") || starts_with(url, "tcp://")
            || starts_with(url, "ws://");
        let has_credentials = self.mqtt.username.is_some() || self.mqtt.password.is_some();
        (public_broker, self.mqtt.enabled && is_plaintext && has_credentials)
    }
}

} // verus!
