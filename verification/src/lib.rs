//! Control of the DG-LAB Coyote 3 over Bluetooth LE.
//!
//! This library knows the protocol of the device and decides what to do next. It does not talk to
//! the Bluetooth stack itself: [`connect::Connecting`] tells step by step how to connect, and a
//! [`Coyote3`] turns pulses and settings into the bytes to write, and reports of the device into
//! its [`State`].

pub mod builder;
pub mod characteristic;
pub mod command;
pub mod connect;
pub mod connection;
pub mod device;
pub mod error;
pub mod frequency;
pub mod notification;
pub mod pulse;
pub mod settings;
pub mod state;
pub mod stereo;
pub mod wire;

pub use builder::Coyote3Builder;
pub use command::Command;
pub use device::Coyote3;
pub use error::Error;
pub use notification::Notification;
pub use pulse::{IntensityChange, Pulse, Pulses};
pub use settings::DeviceSettings;
pub use state::State;
pub use stereo::Stereo;
