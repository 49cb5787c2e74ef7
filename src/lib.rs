//! A platform-independent view of a machine's power state, with the rules
//! that turn native power descriptors into it, and the lifecycle of a
//! power-change subscription, all proved with Verus.

pub mod batteries;
pub mod bridge;
pub mod error;
pub mod macos;
pub mod snapshot;
pub mod status;
pub mod win32;

pub use batteries::{get_batteries, BatteryUnit};
pub use bridge::{GuardState, Platform, SinkState};
pub use error::Error;
pub use macos::{DescValue, PowerSourceDescription, PowerSourceState};
pub use status::{EstimatedTimeRemaining, PowerState, Status};
pub use win32::SystemPowerStatus;
