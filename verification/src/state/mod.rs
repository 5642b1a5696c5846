//! Application state: the global state, its events, and the state machine.
pub mod app_events;
pub mod fsm;
pub mod global_state;


pub use fsm::AppStateMachine;
pub use app_events::AppEvent;
pub use global_state::{AppError, ConnectionStatus, DeviceInfo, ExtractionState, GlobalAppState};
