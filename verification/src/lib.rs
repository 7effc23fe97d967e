//! Decoding of the telemetry that a PurpleAir sensor serves on the local
//! network, and the rules by which a consumer is kept supplied with the most
//! recent reading.

pub mod display;
pub mod error;
pub mod fields;
pub mod hardware;
pub mod json;
pub mod laws;
pub mod polling;
pub mod sensor_data;
pub mod status;
pub mod timestamp;
pub mod wire;

pub use error::{Reason, SensorError};
pub use hardware::hardware_on_the_board;
pub use json::{Document, Real};
pub use status::{parse_optional_status, parse_status, Status};
pub use timestamp::{is_clock_shaped, parse_nonstandard_datetime, Timestamp};
pub use sensor_data::LocalSensorData;
pub use polling::{cycle_message, sensor_url, Command, Fetched, Message, Phase, PurpleAir};
pub use wire::WireValue;
pub use display::{
    aqi_a, aqi_b, common_measurements, device_lines, field, humidity_percent, join,
    temperature_f, AqiPanel, Gauge, Measurement,
};
