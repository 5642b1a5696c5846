//! Verified core of the MaraTUI espresso-machine companion: telemetry parsing,
//! application state machine, MQTT payloads and the small decision helpers the
//! firmware loop relies on.
pub mod text;
pub mod telemetry;
pub mod screens;
pub mod state;
pub mod home_assistant;
pub mod button;
pub mod brew_timer;
pub mod config;
pub mod uart_reader;
pub mod mqtt;
pub mod supervisor;
pub mod laws;
