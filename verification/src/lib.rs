//! Battery and accessory status of DualSense and DualShock 4 controllers,
//! decoded from their HID input reports.
//!
//! The crate performs no I/O. A caller enumerates the attached devices,
//! hands each one over as a [`DeviceDescriptor`], carries out the transfers
//! that a [`TypedDevice`] asks for, and passes the bytes it read back in.

pub mod battery;
pub mod controller;
pub mod device;
pub mod filter;
pub mod layout;
pub mod plug;
pub mod report;
pub mod text;

pub use battery::{read_battery_state_ds4, read_battery_state_dualsense, Battery, ChargeState, Level};
pub use controller::{ConnType, ControllerType, Family, ReadyState};
pub use layout::{report_layout, required_len, ReportLayout};
pub use plug::{read_plug_state_ds4, read_plug_state_dualsense, PlugState};
pub use report::{get_report, Report, ShortReport};
pub use device::{BusType, Controller, ControllerStatus, DeviceDescriptor, DeviceError, TypedDevice};
pub use filter::DeviceFilterer;
