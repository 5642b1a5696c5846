[package]
name = "maratui"
version = "0.1.0"
edition = "2021"
publish = false

[dependencies]
anyhow = "=1.0.104"
log = "=0.4.35"
ratatui = { version = "=0.30.2", default-features = false }
tui-widgets = { version = "=0.7.12", default-features = false, features = ["big-text"] }
mousefood = "=0.5.3"
embedded-graphics-simulator = "=0.8.0"
rumqttc = { version = "=0.25.1", default-features = false }
esp-idf-svc = "=0.53.0"
ili9341 = "0.6"
display-interface-spi = "0.5"
