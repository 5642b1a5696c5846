use maratui::config::{setting, AppConfig, ConfigError, Settings, WifiConfig};

fn s(v: &str) -> Option<String> {
    Some(v.to_string())
}

/// The settings every test starts from (simulator-style: no Wi-Fi).
fn base_env() -> Settings {
    Settings {
        mqtt_enabled: s("true"),
        mqtt_url: s("mqtt://broker.emqx.io:1883"),
        mqtt_client_id: s("test-client"),
        mqtt_topic_prefix: s("maratui"),
        ..Default::default()
    }
}

#[test]
fn test_default_config_succeeds_in_simulator() {
    let env = base_env();
    let cfg = AppConfig::from_env(&env, true).expect("default config should succeed in simulator mode");
    assert!(cfg.mqtt.enabled);
    assert_eq!(cfg.mqtt.topic_prefix, "maratui");
}

#[test]
fn test_wifi_config_set_via_env() {
    let mut env = base_env();
    env.wifi_ssid = s("my_ssid");
    env.wifi_password = s("secret");
    let cfg = AppConfig::from_env(&env, true).unwrap();
    let wifi = cfg.wifi.expect("wifi config should be present");
    assert_eq!(wifi.ssid, "my_ssid");
    assert_eq!(wifi.password, "secret");
}

#[test]
fn test_mqtt_disabled_via_env() {
    let mut env = base_env();
    env.mqtt_enabled = s("false");
    let cfg = AppConfig::from_env(&env, true).unwrap();
    assert!(!cfg.mqtt.enabled);
}

#[test]
fn test_mqtt_enabled_accepts_all_truthy_values() {
    for val in &["1", "true", "yes", "on", "TRUE", "YES"] {
        let mut env = base_env();
        env.mqtt_enabled = s(val);
        let cfg = AppConfig::from_env(&env, true).unwrap();
        assert!(cfg.mqtt.enabled, "expected enabled for value '{val}'");
    }
}

#[test]
fn test_mqtt_enabled_accepts_all_falsy_values() {
    for val in &["0", "false", "no", "off"] {
        let mut env = base_env();
        env.mqtt_enabled = s(val);
        let cfg = AppConfig::from_env(&env, true).unwrap();
        assert!(!cfg.mqtt.enabled, "expected disabled for value '{val}'");
    }
}

#[test]
fn test_mqtt_enabled_invalid_value_returns_error() {
    let mut env = base_env();
    env.mqtt_enabled = s("maybe");
    let result = AppConfig::from_env(&env, true);
    assert!(result.is_err());
    assert!(result
        .unwrap_err()
        .message()
        .contains("Invalid MARATUI_MQTT_ENABLED value"));
}

#[test]
fn test_mqtt_custom_url_and_prefix() {
    let mut env = base_env();
    env.mqtt_url = s("mqtt://localhost:1883");
    env.mqtt_topic_prefix = s("home");
    env.mqtt_client_id = s("my-device");
    let cfg = AppConfig::from_env(&env, true).unwrap();
    assert_eq!(cfg.mqtt.url, "mqtt://localhost:1883");
    assert_eq!(cfg.mqtt.topic_prefix, "home");
    assert_eq!(cfg.mqtt.client_id, "my-device");
}

#[test]
fn test_mqtt_credentials_set() {
    let mut env = base_env();
    env.mqtt_username = s("user");
    env.mqtt_password = s("pass");
    let cfg = AppConfig::from_env(&env, true).unwrap();
    assert_eq!(cfg.mqtt.username.as_deref(), Some("user"));
    assert_eq!(cfg.mqtt.password.as_deref(), Some("pass"));
}

#[test]
fn device_requires_wifi_and_defaults_apply() {
    let env = Settings::default();
    let err = AppConfig::from_env(&env, false).unwrap_err();
    assert_eq!(err, ConfigError::MissingWifi);
    assert_eq!(
        err.message(),
        "Missing Wi-Fi settings. Define MARATUI_WIFI_SSID and MARATUI_WIFI_PASSWORD"
    );
    let mut env = Settings::default();
    env.wifi_ssid = s("cafe");
    env.wifi_password = s("");
    let cfg = AppConfig::from_env(&env, false).unwrap();
    assert!(cfg.mqtt.enabled);
    assert_eq!(cfg.mqtt.url, "mqtt://broker.emqx.io:1883");
    assert_eq!(cfg.mqtt.client_id, "maratui-esp32");
    assert_eq!(cfg.mqtt.topic_prefix, "mara");
    assert_eq!(cfg.mqtt.username, None);
    let sim = AppConfig::from_env(&Settings::default(), true).unwrap();
    assert!(sim.wifi.is_none());
    assert_eq!(sim.mqtt.client_id, "maratui-sim");
}

#[test]
fn invalid_value_is_reported_lowercased() {
    let mut env = base_env();
    env.mqtt_enabled = s("MayBe");
    let err = AppConfig::from_env(&env, true).unwrap_err();
    assert_eq!(err, ConfigError::InvalidMqttEnabled { value: "maybe".to_string() });
    assert_eq!(err.message(), "Invalid MARATUI_MQTT_ENABLED value: maybe");
}

#[test]
fn security_warnings() {
    let cfg = AppConfig::from_env(&base_env(), true).unwrap();
    assert_eq!(cfg.warn_insecure(), (true, false));
    let mut env = base_env();
    env.mqtt_url = s("tcp://10.0.0.2:1883");
    env.mqtt_username = s("u");
    assert_eq!(AppConfig::from_env(&env, true).unwrap().warn_insecure(), (false, true));
    env.mqtt_url = s("mqtts://10.0.0.2:8883");
    assert_eq!(AppConfig::from_env(&env, true).unwrap().warn_insecure(), (false, false));
    env.mqtt_url = s("ws://10.0.0.2");
    env.mqtt_enabled = s("off");
    assert_eq!(AppConfig::from_env(&env, true).unwrap().warn_insecure(), (false, false));
}

#[test]
fn runtime_setting_wins_unless_empty() {
    assert_eq!(setting(s("live"), Some("baked")), s("live"));
    assert_eq!(setting(s(""), Some("baked")), s("baked"));
    assert_eq!(setting(None, Some("baked")), s("baked"));
    assert_eq!(setting(s(""), None), None);
    assert_eq!(setting(None, None), None);
    assert_eq!(setting(s("x"), None), s("x"));
}

#[test]
fn open_network_has_no_password() {
    let open = WifiConfig { ssid: "cafe".into(), password: String::new() };
    assert!(open.is_open());
    let locked = WifiConfig { ssid: "cafe".into(), password: "pw".into() };
    assert!(!locked.is_open());
}
