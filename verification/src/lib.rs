//! Passive decoding of environmental-sensor broadcasts and the decisions
//! behind a one-shot clock synchronisation of such sensors.
//!
//! Every function here works on plain values; the radio, the terminal and the
//! configuration file belong to the program around this library.

pub mod address;
pub mod advertisement;
pub mod aggregate;
pub mod clock;
pub mod config;
pub mod coordinator;
pub mod log;
pub mod protocol;
pub mod text;

pub use address::{decode_bluetooth_adddress, format_bluetooth_address};
pub use advertisement::{
    decode_advertisement, Advertisement, AdvertisementKind, DataSection, SensorValue,
};
pub use log::SyncLogKind;
pub use clock::get_unix_epoc;
pub use config::{Config, DeviceConfig};
pub use aggregate::SensorData;
pub use coordinator::sync_device_args;
