//! Disk patrol: the configuration, scheduling and device-state logic of a
//! disk health monitor that reads whole block devices over a patrol period.

pub mod buffer;
pub mod cli;
pub mod config;
pub mod device;
pub mod laws;
pub mod logging;
pub mod schedule;
pub mod states;
pub mod text;

pub use buffer::SharedBuffer;
pub use config::{
    ConfigBuilder, ConfigFile, PatrolConfig, DEFAULT_CONFIG_PATH, SECTOR_SIZE,
};
pub use states::DeviceStates;
