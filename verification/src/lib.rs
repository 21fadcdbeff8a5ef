//! A self-scrolling heartbeat trace: the state machine behind the picture.

pub mod app;
pub mod event;
pub mod flag;
pub mod laws;
pub mod model;
pub mod pulse;
pub mod ring;

pub use app::App;
pub use event::{Control, Event, Key};
pub use flag::LivenessFlag;
