//! Telemetry collection for accelerator devices that expose their state as
//! flat attribute files: decoding of attribute text, snapshot building,
//! device enumeration and the line-oriented text served to local clients.

pub mod text;
pub use text::{parse_u32, push_decimal, trim_spaces};

pub mod attr;
pub use attr::{decode, read_attribute, read_text, read_u32, AttrFile, AttrValue, Encoding};

pub mod device;
pub use device::{get_tenstorrent_devices, select_sensor_dir, update_tenstorrent_devices, DeviceError, DeviceDir, PciePerfCounters, TTDevice, Telemetry, Timestamp};

pub mod render;
pub use render::{render_device, render_devices, render_time, snapshot_response};

pub mod flat;
pub use flat::TTDeviceFlat;

pub mod server;
pub use server::{AcceptEvent, ListenerAction, WorkerBudget};
