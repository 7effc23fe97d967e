//! One reading of the sensor, and its decoding from the JSON document that
//! the sensor serves.
//!
//! The document is flat. Identity, health and eight of the status fields are
//! always sent; what the environmental fields hold depends on the hardware
//! that is installed, so each of them may be missing.

use crate::error::{Reason, SensorError, SensorErrorView};
use crate::fields::{
    missing, optional_real, optional_status, optional_text, optional_unsigned, optional_view,
    read_count, read_optional_real, read_optional_status, read_optional_text,
    read_optional_unsigned, read_real, read_signed, read_status, read_text, read_timestamp,
    read_unsigned, required_count, required_real, required_signed, required_status,
    required_text, required_timestamp, required_unsigned, Members,
};
use crate::json::{document_of, Document, Real};
use crate::status::Status;
use crate::timestamp::Timestamp;
use vstd::prelude::*;

verus! {

/// One reading, as decoded.
#[derive(Clone, Debug, PartialEq, Eq)]
pub struct LocalSensorData {
    /// The device id: its MAC address, with the leading zeros of each octet left out.
    pub sensor_id: String,
    /// The device's clock when the reading was taken.
    pub date_time: Timestamp,
    /// The name of the network that the device offers for its setup.
    pub geo: String,
    /// Free heap.
    pub mem: u64,
    /// Heap fragmentation.
    pub memfrag: u64,
    /// The largest free block of the heap.
    pub memfb: u64,
    /// Free continuation stack.
    pub memcs: u64,
    /// How often the reading has been asked for since power-on.
    pub id: u64,
    /// Latitude, roughly as registered.
    pub lat: Real,
    /// Longitude, roughly as registered.
    pub lon: Real,
    /// The rate at which the device reports.
    pub logging_rate: u64,
    /// Whether the device is registered as indoor or outdoor.
    pub place: String,
    /// The firmware version.
    pub version: String,
    /// Seconds since power-on.
    pub uptime: u64,
    /// Signal strength of the connected network.
    pub rssi: i64,
    /// Seconds that the last averaged reading covers, as a rule 120.
    pub period: u32,
    /// HTTP requests of the device that succeeded.
    pub http_success: u64,
    /// HTTP requests that the device has sent.
    pub http_sends: u64,
    /// The version of the board.
    pub hardware_version: String,
    /// All that the board has found: `<version>+<module>+<module>...`.
    pub hardware_discovered: String,
    /// Whether the device is connected to a network.
    pub wl_state: String,
    /// The name of the connected network.
    pub ssid: String,
    /// The HTTP status of the last upload to the data processor. Only sent where a data processor was registered.
    pub response: Option<String>,
    /// When the data processor last answered. Only sent where a data processor was registered.
    pub response_date: Option<String>,
    /// The voltage at the analog input of the board.
    pub adc: Real,
    /// Temperature in degrees Fahrenheit, uncorrected. Needs a BME sensor.
    pub current_temp_f: Option<u64>,
    /// Relative humidity in percent, uncorrected. Needs a BME sensor.
    pub current_humidity: Option<u64>,
    /// Dew point in degrees Fahrenheit. Needs a BME sensor.
    pub current_dewpoint_f: Option<u64>,
    /// Barometric pressure in millibar. Needs a BME sensor.
    pub pressure: Option<Real>,
    /// Temperature as the BME68x measures it.
    pub current_temp_f_680: Option<Real>,
    /// Relative humidity as the BME68x measures it.
    pub current_humidity_680: Option<Real>,
    /// Dew point as the BME68x measures it.
    pub current_dewpoint_f_680: Option<Real>,
    /// Barometric pressure as the BME68x measures it.
    pub pressure_680: Option<Real>,
    /// Volatile organic compounds as the BME68x measures them.
    pub gas_680: Option<Real>,
    /// The colour of the air-quality light for channel B, as `rgb(r,g,b)`.
    pub p25aqic_b: Option<String>,
    /// US EPA PM2.5 air-quality index of channel B.
    pub pm2_5_aqi_b: Option<Real>,
    /// PM1 of channel B, with the CF=1 estimate of density.
    pub pm1_0_cf_1_b: Option<Real>,
    /// Particles of 0.3 micrometres and more per decilitre, channel B.
    pub p_0_3_um_b: Option<Real>,
    /// PM2.5 of channel B, with the CF=1 estimate of density.
    pub pm2_5_cf_1_b: Option<Real>,
    /// Particles of 0.5 micrometres and more per decilitre, channel B.
    pub p_0_5_um_b: Option<Real>,
    /// PM10 of channel B, with the CF=1 estimate of density.
    pub pm10_0_cf_1_b: Option<Real>,
    /// Particles of 1.0 micrometres and more per decilitre, channel B.
    pub p_1_0_um_b: Option<Real>,
    /// PM1 of channel B, with the ATM estimate of density.
    pub pm1_0_atm_b: Option<Real>,
    /// Particles of 2.5 micrometres and more per decilitre, channel B.
    pub p_2_5_um_b: Option<Real>,
    /// PM2.5 of channel B, with the ATM estimate of density.
    pub pm2_5_atm_b: Option<Real>,
    /// Particles of 5.0 micrometres and more per decilitre, channel B.
    pub p_5_0_um_b: Option<Real>,
    /// PM10 of channel B, with the ATM estimate of density.
    pub pm10_0_atm_b: Option<Real>,
    /// Particles of 10.0 micrometres and more per decilitre, channel B.
    pub p_10_0_um_b: Option<Real>,
    /// The colour of the air-quality light for channel A, as `rgb(r,g,b)`.
    pub p25aqic: Option<String>,
    /// US EPA PM2.5 air-quality index of channel A.
    pub pm2_5_aqi: Option<Real>,
    /// PM1 of channel A, with the CF=1 estimate of density.
    pub pm1_0_cf_1: Option<Real>,
    /// Particles of 0.3 micrometres and more per decilitre, channel A.
    pub p_0_3_um: Option<Real>,
    /// PM2.5 of channel A, with the CF=1 estimate of density.
    pub pm2_5_cf_1: Option<Real>,
    /// Particles of 0.5 micrometres and more per decilitre, channel A.
    pub p_0_5_um: Option<Real>,
    /// PM10 of channel A, with the CF=1 estimate of density.
    pub pm10_0_cf_1: Option<Real>,
    /// Particles of 1.0 micrometres and more per decilitre, channel A.
    pub p_1_0_um: Option<Real>,
    /// PM1 of channel A, with the ATM estimate of density.
    pub pm1_0_atm: Option<Real>,
    /// Particles of 2.5 micrometres and more per decilitre, channel A.
    pub p_2_5_um: Option<Real>,
    /// PM2.5 of channel A, with the ATM estimate of density.
    pub pm2_5_atm: Option<Real>,
    /// Particles of 5.0 micrometres and more per decilitre, channel A.
    pub p_5_0_um: Option<Real>,
    /// PM10 of channel A, with the ATM estimate of density.
    pub pm10_0_atm: Option<Real>,
    /// Particles of 10.0 micrometres and more per decilitre, channel A.
    pub p_10_0_um: Option<Real>,
    /// Time synchronisation.
    pub status_ntp: Status,
    /// Location lookup.
    pub status_loc: Status,
    /// Update check.
    pub status_upd: Status,
    /// Connection to the vendor's servers.
    pub status_paa: Status,
    /// Legacy channel A.
    pub status_tsa: Status,
    /// Legacy channel A, secondary.
    pub status_tss_a: Status,
    /// First data processor. Only sent where one was registered.
    pub status_for_processor_1: Option<Status>,
    /// Legacy channel B.
    pub status_tsb: Status,
    /// Legacy channel B, secondary.
    pub status_tss_b: Status,
    /// Second data processor. Only sent where one was registered.
    pub status_for_processor_2: Option<Status>,
}

/// A reading with its texts as sequences of characters.
pub struct LocalSensorDataView {
    pub sensor_id: Seq<char>,
    pub date_time: Timestamp,
    pub geo: Seq<char>,
    pub mem: u64,
    pub memfrag: u64,
    pub memfb: u64,
    pub memcs: u64,
    pub id: u64,
    pub lat: Real,
    pub lon: Real,
    pub logging_rate: u64,
    pub place: Seq<char>,
    pub version: Seq<char>,
    pub uptime: u64,
    pub rssi: i64,
    pub period: u32,
    pub http_success: u64,
    pub http_sends: u64,
    pub hardware_version: Seq<char>,
    pub hardware_discovered: Seq<char>,
    pub wl_state: Seq<char>,
    pub ssid: Seq<char>,
    pub response: Option<Seq<char>>,
    pub response_date: Option<Seq<char>>,
    pub adc: Real,
    pub current_temp_f: Option<u64>,
    pub current_humidity: Option<u64>,
    pub current_dewpoint_f: Option<u64>,
    pub pressure: Option<Real>,
    pub current_temp_f_680: Option<Real>,
    pub current_humidity_680: Option<Real>,
    pub current_dewpoint_f_680: Option<Real>,
    pub pressure_680: Option<Real>,
    pub gas_680: Option<Real>,
    pub p25aqic_b: Option<Seq<char>>,
    pub pm2_5_aqi_b: Option<Real>,
    pub pm1_0_cf_1_b: Option<Real>,
    pub p_0_3_um_b: Option<Real>,
    pub pm2_5_cf_1_b: Option<Real>,
    pub p_0_5_um_b: Option<Real>,
    pub pm10_0_cf_1_b: Option<Real>,
    pub p_1_0_um_b: Option<Real>,
    pub pm1_0_atm_b: Option<Real>,
    pub p_2_5_um_b: Option<Real>,
    pub pm2_5_atm_b: Option<Real>,
    pub p_5_0_um_b: Option<Real>,
    pub pm10_0_atm_b: Option<Real>,
    pub p_10_0_um_b: Option<Real>,
    pub p25aqic: Option<Seq<char>>,
    pub pm2_5_aqi: Option<Real>,
    pub pm1_0_cf_1: Option<Real>,
    pub p_0_3_um: Option<Real>,
    pub pm2_5_cf_1: Option<Real>,
    pub p_0_5_um: Option<Real>,
    pub pm10_0_cf_1: Option<Real>,
    pub p_1_0_um: Option<Real>,
    pub pm1_0_atm: Option<Real>,
    pub p_2_5_um: Option<Real>,
    pub pm2_5_atm: Option<Real>,
    pub p_5_0_um: Option<Real>,
    pub pm10_0_atm: Option<Real>,
    pub p_10_0_um: Option<Real>,
    pub status_ntp: Status,
    pub status_loc: Status,
    pub status_upd: Status,
    pub status_paa: Status,
    pub status_tsa: Status,
    pub status_tss_a: Status,
    pub status_for_processor_1: Option<Status>,
    pub status_tsb: Status,
    pub status_tss_b: Status,
    pub status_for_processor_2: Option<Status>,
}

impl View for LocalSensorData {
    type V = LocalSensorDataView;

    open spec fn view(&self) -> LocalSensorDataView {
        LocalSensorDataView {
            sensor_id: self.sensor_id@,
            date_time: self.date_time,
            geo: self.geo@,
            mem: self.mem,
            memfrag: self.memfrag,
            memfb: self.memfb,
            memcs: self.memcs,
            id: self.id,
            lat: self.lat,
            lon: self.lon,
            logging_rate: self.logging_rate,
            place: self.place@,
            version: self.version@,
            uptime: self.uptime,
            rssi: self.rssi,
            period: self.period,
            http_success: self.http_success,
            http_sends: self.http_sends,
            hardware_version: self.hardware_version@,
            hardware_discovered: self.hardware_discovered@,
            wl_state: self.wl_state@,
            ssid: self.ssid@,
            response: optional_view(self.response),
            response_date: optional_view(self.response_date),
            adc: self.adc,
            current_temp_f: self.current_temp_f,
            current_humidity: self.current_humidity,
            current_dewpoint_f: self.current_dewpoint_f,
            pressure: self.pressure,
            current_temp_f_680: self.current_temp_f_680,
            current_humidity_680: self.current_humidity_680,
            current_dewpoint_f_680: self.current_dewpoint_f_680,
            pressure_680: self.pressure_680,
            gas_680: self.gas_680,
            p25aqic_b: optional_view(self.p25aqic_b),
            pm2_5_aqi_b: self.pm2_5_aqi_b,
            pm1_0_cf_1_b: self.pm1_0_cf_1_b,
            p_0_3_um_b: self.p_0_3_um_b,
            pm2_5_cf_1_b: self.pm2_5_cf_1_b,
            p_0_5_um_b: self.p_0_5_um_b,
            pm10_0_cf_1_b: self.pm10_0_cf_1_b,
            p_1_0_um_b: self.p_1_0_um_b,
            pm1_0_atm_b: self.pm1_0_atm_b,
            p_2_5_um_b: self.p_2_5_um_b,
            pm2_5_atm_b: self.pm2_5_atm_b,
            p_5_0_um_b: self.p_5_0_um_b,
            pm10_0_atm_b: self.pm10_0_atm_b,
            p_10_0_um_b: self.p_10_0_um_b,
            p25aqic: optional_view(self.p25aqic),
            pm2_5_aqi: self.pm2_5_aqi,
            pm1_0_cf_1: self.pm1_0_cf_1,
            p_0_3_um: self.p_0_3_um,
            pm2_5_cf_1: self.pm2_5_cf_1,
            p_0_5_um: self.p_0_5_um,
            pm10_0_cf_1: self.pm10_0_cf_1,
            p_1_0_um: self.p_1_0_um,
            pm1_0_atm: self.pm1_0_atm,
            p_2_5_um: self.p_2_5_um,
            pm2_5_atm: self.pm2_5_atm,
            p_5_0_um: self.p_5_0_um,
            pm10_0_atm: self.pm10_0_atm,
            p_10_0_um: self.p_10_0_um,
            status_ntp: self.status_ntp,
            status_loc: self.status_loc,
            status_upd: self.status_upd,
            status_paa: self.status_paa,
            status_tsa: self.status_tsa,
            status_tss_a: self.status_tss_a,
            status_for_processor_1: self.status_for_processor_1,
            status_tsb: self.status_tsb,
            status_tss_b: self.status_tss_b,
            status_for_processor_2: self.status_for_processor_2,
        }
    }
}

/// The keys that every document must have, in the order of the schema.
pub const MANDATORY_KEYS: [&'static str; 31] = [
    "SensorId",
    "DateTime",
    "Geo",
    "Mem",
    "memfrag",
    "memfb",
    "memcs",
    "Id",
    "lat",
    "lon",
    "loggingrate",
    "place",
    "version",
    "uptime",
    "rssi",
    "period",
    "httpsuccess",
    "httpsends",
    "hardwareversion",
    "hardwarediscovered",
    "wlstate",
    "ssid",
    "Adc",
    "status_0",
    "status_1",
    "status_2",
    "status_3",
    "status_4",
    "status_5",
    "status_7",
    "status_8",
];

/// Whether `key` is one of the mandatory keys.
pub open spec fn is_mandatory(key: Seq<char>) -> bool {
    exists|i: int| 0 <= i < MANDATORY_KEYS@.len() && #[trigger] MANDATORY_KEYS@[i]@ == key
}

/// The first mandatory key from position `i` on that the document lacks.
pub open spec fn first_missing_from(doc: Members, i: int) -> Option<Seq<char>>
    decreases MANDATORY_KEYS@.len() - i,
{
    if i < 0 || i >= MANDATORY_KEYS@.len() {
        None
    } else if !doc.contains_key(MANDATORY_KEYS@[i]@) {
        Some(MANDATORY_KEYS@[i]@)
    } else {
        first_missing_from(doc, i + 1)
    }
}

/// The first mandatory key that the document lacks.
pub open spec fn first_missing(doc: Members) -> Option<Seq<char>> {
    first_missing_from(doc, 0)
}

/// The first field, in the order of the schema, whose value cannot be read,
/// with the error that reading it gives.
pub open spec fn first_fault(doc: Members) -> Option<SensorErrorView> {
    if let Err(e) = required_text(doc, "SensorId"@) {
        Some(e)
    } else if let Err(e) = required_timestamp(doc, "DateTime"@) {
        Some(e)
    } else if let Err(e) = required_text(doc, "Geo"@) {
        Some(e)
    } else if let Err(e) = required_unsigned(doc, "Mem"@) {
        Some(e)
    } else if let Err(e) = required_unsigned(doc, "memfrag"@) {
        Some(e)
    } else if let Err(e) = required_unsigned(doc, "memfb"@) {
        Some(e)
    } else if let Err(e) = required_unsigned(doc, "memcs"@) {
        Some(e)
    } else if let Err(e) = required_unsigned(doc, "Id"@) {
        Some(e)
    } else if let Err(e) = required_real(doc, "lat"@) {
        Some(e)
    } else if let Err(e) = required_real(doc, "lon"@) {
        Some(e)
    } else if let Err(e) = required_unsigned(doc, "loggingrate"@) {
        Some(e)
    } else if let Err(e) = required_text(doc, "place"@) {
        Some(e)
    } else if let Err(e) = required_text(doc, "version"@) {
        Some(e)
    } else if let Err(e) = required_unsigned(doc, "uptime"@) {
        Some(e)
    } else if let Err(e) = required_signed(doc, "rssi"@) {
        Some(e)
    } else if let Err(e) = required_count(doc, "period"@) {
        Some(e)
    } else if let Err(e) = required_unsigned(doc, "httpsuccess"@) {
        Some(e)
    } else if let Err(e) = required_unsigned(doc, "httpsends"@) {
        Some(e)
    } else if let Err(e) = required_text(doc, "hardwareversion"@) {
        Some(e)
    } else if let Err(e) = required_text(doc, "hardwarediscovered"@) {
        Some(e)
    } else if let Err(e) = required_text(doc, "wlstate"@) {
        Some(e)
    } else if let Err(e) = required_text(doc, "ssid"@) {
        Some(e)
    } else if let Err(e) = optional_text(doc, "response"@) {
        Some(e)
    } else if let Err(e) = optional_text(doc, "response_date"@) {
        Some(e)
    } else if let Err(e) = required_real(doc, "Adc"@) {
        Some(e)
    } else if let Err(e) = optional_unsigned(doc, "current_temp_f"@) {
        Some(e)
    } else if let Err(e) = optional_unsigned(doc, "current_humidity"@) {
        Some(e)
    } else if let Err(e) = optional_unsigned(doc, "current_dewpoint_f"@) {
        Some(e)
    } else if let Err(e) = optional_real(doc, "pressure"@) {
        Some(e)
    } else if let Err(e) = optional_real(doc, "current_temp_f_680"@) {
        Some(e)
    } else if let Err(e) = optional_real(doc, "current_humidity_680"@) {
        Some(e)
    } else if let Err(e) = optional_real(doc, "current_dewpoint_f_680"@) {
        Some(e)
    } else if let Err(e) = optional_real(doc, "pressure_680"@) {
        Some(e)
    } else if let Err(e) = optional_real(doc, "gas_680"@) {
        Some(e)
    } else if let Err(e) = optional_text(doc, "p25aqic_b"@) {
        Some(e)
    } else if let Err(e) = optional_real(doc, "pm2.5_aqi_b"@) {
        Some(e)
    } else if let Err(e) = optional_real(doc, "pm1_0_cf_1_b"@) {
        Some(e)
    } else if let Err(e) = optional_real(doc, "p_0_3_um_b"@) {
        Some(e)
    } else if let Err(e) = optional_real(doc, "pm2_5_cf_1_b"@) {
        Some(e)
    } else if let Err(e) = optional_real(doc, "p_0_5_um_b"@) {
        Some(e)
    } else if let Err(e) = optional_real(doc, "pm10_0_cf_1_b"@) {
        Some(e)
    } else if let Err(e) = optional_real(doc, "p_1_0_um_b"@) {
        Some(e)
    } else if let Err(e) = optional_real(doc, "pm1_0_atm_b"@) {
        Some(e)
    } else if let Err(e) = optional_real(doc, "p_2_5_um_b"@) {
        Some(e)
    } else if let Err(e) = optional_real(doc, "pm2_5_atm_b"@) {
        Some(e)
    } else if let Err(e) = optional_real(doc, "p_5_0_um_b"@) {
        Some(e)
    } else if let Err(e) = optional_real(doc, "pm10_0_atm_b"@) {
        Some(e)
    } else if let Err(e) = optional_real(doc, "p_10_0_um_b"@) {
        Some(e)
    } else if let Err(e) = optional_text(doc, "p25aqic"@) {
        Some(e)
    } else if let Err(e) = optional_real(doc, "pm2.5_aqi"@) {
        Some(e)
    } else if let Err(e) = optional_real(doc, "pm1_0_cf_1"@) {
        Some(e)
    } else if let Err(e) = optional_real(doc, "p_0_3_um"@) {
        Some(e)
    } else if let Err(e) = optional_real(doc, "pm2_5_cf_1"@) {
        Some(e)
    } else if let Err(e) = optional_real(doc, "p_0_5_um"@) {
        Some(e)
    } else if let Err(e) = optional_real(doc, "pm10_0_cf_1"@) {
        Some(e)
    } else if let Err(e) = optional_real(doc, "p_1_0_um"@) {
        Some(e)
    } else if let Err(e) = optional_real(doc, "pm1_0_atm"@) {
        Some(e)
    } else if let Err(e) = optional_real(doc, "p_2_5_um"@) {
        Some(e)
    } else if let Err(e) = optional_real(doc, "pm2_5_atm"@) {
        Some(e)
    } else if let Err(e) = optional_real(doc, "p_5_0_um"@) {
        Some(e)
    } else if let Err(e) = optional_real(doc, "pm10_0_atm"@) {
        Some(e)
    } else if let Err(e) = optional_real(doc, "p_10_0_um"@) {
        Some(e)
    } else if let Err(e) = required_status(doc, "status_0"@) {
        Some(e)
    } else if let Err(e) = required_status(doc, "status_1"@) {
        Some(e)
    } else if let Err(e) = required_status(doc, "status_2"@) {
        Some(e)
    } else if let Err(e) = required_status(doc, "status_3"@) {
        Some(e)
    } else if let Err(e) = required_status(doc, "status_4"@) {
        Some(e)
    } else if let Err(e) = required_status(doc, "status_5"@) {
        Some(e)
    } else if let Err(e) = optional_status(doc, "status_6"@) {
        Some(e)
    } else if let Err(e) = required_status(doc, "status_7"@) {
        Some(e)
    } else if let Err(e) = required_status(doc, "status_8"@) {
        Some(e)
    } else if let Err(e) = optional_status(doc, "status_10"@) {
        Some(e)
    } else {
        None
    }
}

/// The reading that a document without fault holds: each field read from
/// its own key.
pub open spec fn assemble(doc: Members) -> LocalSensorDataView {
    LocalSensorDataView {
        sensor_id: required_text(doc, "SensorId"@)->Ok_0,
        date_time: required_timestamp(doc, "DateTime"@)->Ok_0,
        geo: required_text(doc, "Geo"@)->Ok_0,
        mem: required_unsigned(doc, "Mem"@)->Ok_0,
        memfrag: required_unsigned(doc, "memfrag"@)->Ok_0,
        memfb: required_unsigned(doc, "memfb"@)->Ok_0,
        memcs: required_unsigned(doc, "memcs"@)->Ok_0,
        id: required_unsigned(doc, "Id"@)->Ok_0,
        lat: required_real(doc, "lat"@)->Ok_0,
        lon: required_real(doc, "lon"@)->Ok_0,
        logging_rate: required_unsigned(doc, "loggingrate"@)->Ok_0,
        place: required_text(doc, "place"@)->Ok_0,
        version: required_text(doc, "version"@)->Ok_0,
        uptime: required_unsigned(doc, "uptime"@)->Ok_0,
        rssi: required_signed(doc, "rssi"@)->Ok_0,
        period: required_count(doc, "period"@)->Ok_0,
        http_success: required_unsigned(doc, "httpsuccess"@)->Ok_0,
        http_sends: required_unsigned(doc, "httpsends"@)->Ok_0,
        hardware_version: required_text(doc, "hardwareversion"@)->Ok_0,
        hardware_discovered: required_text(doc, "hardwarediscovered"@)->Ok_0,
        wl_state: required_text(doc, "wlstate"@)->Ok_0,
        ssid: required_text(doc, "ssid"@)->Ok_0,
        response: optional_text(doc, "response"@)->Ok_0,
        response_date: optional_text(doc, "response_date"@)->Ok_0,
        adc: required_real(doc, "Adc"@)->Ok_0,
        current_temp_f: optional_unsigned(doc, "current_temp_f"@)->Ok_0,
        current_humidity: optional_unsigned(doc, "current_humidity"@)->Ok_0,
        current_dewpoint_f: optional_unsigned(doc, "current_dewpoint_f"@)->Ok_0,
        pressure: optional_real(doc, "pressure"@)->Ok_0,
        current_temp_f_680: optional_real(doc, "current_temp_f_680"@)->Ok_0,
        current_humidity_680: optional_real(doc, "current_humidity_680"@)->Ok_0,
        current_dewpoint_f_680: optional_real(doc, "current_dewpoint_f_680"@)->Ok_0,
        pressure_680: optional_real(doc, "pressure_680"@)->Ok_0,
        gas_680: optional_real(doc, "gas_680"@)->Ok_0,
        p25aqic_b: optional_text(doc, "p25aqic_b"@)->Ok_0,
        pm2_5_aqi_b: optional_real(doc, "pm2.5_aqi_b"@)->Ok_0,
        pm1_0_cf_1_b: optional_real(doc, "pm1_0_cf_1_b"@)->Ok_0,
        p_0_3_um_b: optional_real(doc, "p_0_3_um_b"@)->Ok_0,
        pm2_5_cf_1_b: optional_real(doc, "pm2_5_cf_1_b"@)->Ok_0,
        p_0_5_um_b: optional_real(doc, "p_0_5_um_b"@)->Ok_0,
        pm10_0_cf_1_b: optional_real(doc, "pm10_0_cf_1_b"@)->Ok_0,
        p_1_0_um_b: optional_real(doc, "p_1_0_um_b"@)->Ok_0,
        pm1_0_atm_b: optional_real(doc, "pm1_0_atm_b"@)->Ok_0,
        p_2_5_um_b: optional_real(doc, "p_2_5_um_b"@)->Ok_0,
        pm2_5_atm_b: optional_real(doc, "pm2_5_atm_b"@)->Ok_0,
        p_5_0_um_b: optional_real(doc, "p_5_0_um_b"@)->Ok_0,
        pm10_0_atm_b: optional_real(doc, "pm10_0_atm_b"@)->Ok_0,
        p_10_0_um_b: optional_real(doc, "p_10_0_um_b"@)->Ok_0,
        p25aqic: optional_text(doc, "p25aqic"@)->Ok_0,
        pm2_5_aqi: optional_real(doc, "pm2.5_aqi"@)->Ok_0,
        pm1_0_cf_1: optional_real(doc, "pm1_0_cf_1"@)->Ok_0,
        p_0_3_um: optional_real(doc, "p_0_3_um"@)->Ok_0,
        pm2_5_cf_1: optional_real(doc, "pm2_5_cf_1"@)->Ok_0,
        p_0_5_um: optional_real(doc, "p_0_5_um"@)->Ok_0,
        pm10_0_cf_1: optional_real(doc, "pm10_0_cf_1"@)->Ok_0,
        p_1_0_um: optional_real(doc, "p_1_0_um"@)->Ok_0,
        pm1_0_atm: optional_real(doc, "pm1_0_atm"@)->Ok_0,
        p_2_5_um: optional_real(doc, "p_2_5_um"@)->Ok_0,
        pm2_5_atm: optional_real(doc, "pm2_5_atm"@)->Ok_0,
        p_5_0_um: optional_real(doc, "p_5_0_um"@)->Ok_0,
        pm10_0_atm: optional_real(doc, "pm10_0_atm"@)->Ok_0,
        p_10_0_um: optional_real(doc, "p_10_0_um"@)->Ok_0,
        status_ntp: required_status(doc, "status_0"@)->Ok_0,
        status_loc: required_status(doc, "status_1"@)->Ok_0,
        status_upd: required_status(doc, "status_2"@)->Ok_0,
        status_paa: required_status(doc, "status_3"@)->Ok_0,
        status_tsa: required_status(doc, "status_4"@)->Ok_0,
        status_tss_a: required_status(doc, "status_5"@)->Ok_0,
        status_for_processor_1: optional_status(doc, "status_6"@)->Ok_0,
        status_tsb: required_status(doc, "status_7"@)->Ok_0,
        status_tss_b: required_status(doc, "status_8"@)->Ok_0,
        status_for_processor_2: optional_status(doc, "status_10"@)->Ok_0,
    }
}

/// What reading every field gives: the first fault, or the reading.
pub open spec fn read_all(doc: Members) -> Result<LocalSensorDataView, SensorErrorView> {
    match first_fault(doc) {
        Some(e) => Err(e),
        None => Ok(assemble(doc)),
    }
}

/// What decoding a document gives. A document that lacks a mandatory key
/// fails on the first such key; one that has them all fails on the first
/// field that cannot be read; any other decodes, and its other keys are not
/// looked at.
pub open spec fn decoded_document(doc: Members) -> Result<LocalSensorDataView, SensorErrorView> {
    match first_missing(doc) {
        Some(key) => Err(missing(key)),
        None => read_all(doc),
    }
}

/// What decoding a text gives: it must spell a JSON object, and that object
/// must decode.
pub open spec fn decoded_text(text: Seq<char>) -> Result<LocalSensorDataView, SensorErrorView> {
    match document_of(text) {
        Ok(doc) => decoded_document(doc),
        Err(e) => Err(e@),
    }
}

/// A decoding result with both sides by view.
pub open spec fn decoding(r: Result<LocalSensorData, SensorError>) -> Result<
    LocalSensorDataView,
    SensorErrorView,
> {
    match r {
        Ok(data) => Ok(data@),
        Err(e) => Err(e@),
    }
}

/// Looks for the first mandatory key that the document lacks.
fn check_mandatory(doc: &Document) -> (r: Result<(), SensorError>)
    ensures
        match r {
            Ok(_) => first_missing(doc@).is_none(),
            Err(e) => first_missing(doc@) matches Some(key) && e@ == missing(key),
        },
{
    let mut i: usize = 0;
    while i < MANDATORY_KEYS.len()
        invariant
            i <= MANDATORY_KEYS@.len(),
            first_missing(doc@) == first_missing_from(doc@, i as int),
        decreases MANDATORY_KEYS@.len() - i,
    {
        let key: &'static str = MANDATORY_KEYS[i];
        if !doc.contains(key) {
            return Err(SensorError::SchemaViolation { field: key, reason: Reason::Missing });
        }
        i += 1;
    }
    Ok(())
}

/// Reads every field, in the order of the schema, and stops at the first
/// that cannot be read.
fn read_fields(doc: &Document) -> (r: Result<LocalSensorData, SensorError>)
    ensures
        decoding(r) == read_all(doc@),
{
    let sensor_id: String = read_text(doc, "SensorId")?;
    let date_time: Timestamp = read_timestamp(doc, "DateTime")?;
    let geo: String = read_text(doc, "Geo")?;
    let mem: u64 = read_unsigned(doc, "Mem")?;
    let memfrag: u64 = read_unsigned(doc, "memfrag")?;
    let memfb: u64 = read_unsigned(doc, "memfb")?;
    let memcs: u64 = read_unsigned(doc, "memcs")?;
    let id: u64 = read_unsigned(doc, "Id")?;
    let lat: Real = read_real(doc, "lat")?;
    let lon: Real = read_real(doc, "lon")?;
    let logging_rate: u64 = read_unsigned(doc, "loggingrate")?;
    let place: String = read_text(doc, "place")?;
    let version: String = read_text(doc, "version")?;
    let uptime: u64 = read_unsigned(doc, "uptime")?;
    let rssi: i64 = read_signed(doc, "rssi")?;
    let period: u32 = read_count(doc, "period")?;
    let http_success: u64 = read_unsigned(doc, "httpsuccess")?;
    let http_sends: u64 = read_unsigned(doc, "httpsends")?;
    let hardware_version: String = read_text(doc, "hardwareversion")?;
    let hardware_discovered: String = read_text(doc, "hardwarediscovered")?;
    let wl_state: String = read_text(doc, "wlstate")?;
    let ssid: String = read_text(doc, "ssid")?;
    let response: Option<String> = read_optional_text(doc, "response")?;
    let response_date: Option<String> = read_optional_text(doc, "response_date")?;
    let adc: Real = read_real(doc, "Adc")?;
    let current_temp_f: Option<u64> = read_optional_unsigned(doc, "current_temp_f")?;
    let current_humidity: Option<u64> = read_optional_unsigned(doc, "current_humidity")?;
    let current_dewpoint_f: Option<u64> = read_optional_unsigned(doc, "current_dewpoint_f")?;
    let pressure: Option<Real> = read_optional_real(doc, "pressure")?;
    let current_temp_f_680: Option<Real> = read_optional_real(doc, "current_temp_f_680")?;
    let current_humidity_680: Option<Real> = read_optional_real(doc, "current_humidity_680")?;
    let current_dewpoint_f_680: Option<Real> = read_optional_real(doc, "current_dewpoint_f_680")?;
    let pressure_680: Option<Real> = read_optional_real(doc, "pressure_680")?;
    let gas_680: Option<Real> = read_optional_real(doc, "gas_680")?;
    let p25aqic_b: Option<String> = read_optional_text(doc, "p25aqic_b")?;
    let pm2_5_aqi_b: Option<Real> = read_optional_real(doc, "pm2.5_aqi_b")?;
    let pm1_0_cf_1_b: Option<Real> = read_optional_real(doc, "pm1_0_cf_1_b")?;
    let p_0_3_um_b: Option<Real> = read_optional_real(doc, "p_0_3_um_b")?;
    let pm2_5_cf_1_b: Option<Real> = read_optional_real(doc, "pm2_5_cf_1_b")?;
    let p_0_5_um_b: Option<Real> = read_optional_real(doc, "p_0_5_um_b")?;
    let pm10_0_cf_1_b: Option<Real> = read_optional_real(doc, "pm10_0_cf_1_b")?;
    let p_1_0_um_b: Option<Real> = read_optional_real(doc, "p_1_0_um_b")?;
    let pm1_0_atm_b: Option<Real> = read_optional_real(doc, "pm1_0_atm_b")?;
    let p_2_5_um_b: Option<Real> = read_optional_real(doc, "p_2_5_um_b")?;
    let pm2_5_atm_b: Option<Real> = read_optional_real(doc, "pm2_5_atm_b")?;
    let p_5_0_um_b: Option<Real> = read_optional_real(doc, "p_5_0_um_b")?;
    let pm10_0_atm_b: Option<Real> = read_optional_real(doc, "pm10_0_atm_b")?;
    let p_10_0_um_b: Option<Real> = read_optional_real(doc, "p_10_0_um_b")?;
    let p25aqic: Option<String> = read_optional_text(doc, "p25aqic")?;
    let pm2_5_aqi: Option<Real> = read_optional_real(doc, "pm2.5_aqi")?;
    let pm1_0_cf_1: Option<Real> = read_optional_real(doc, "pm1_0_cf_1")?;
    let p_0_3_um: Option<Real> = read_optional_real(doc, "p_0_3_um")?;
    let pm2_5_cf_1: Option<Real> = read_optional_real(doc, "pm2_5_cf_1")?;
    let p_0_5_um: Option<Real> = read_optional_real(doc, "p_0_5_um")?;
    let pm10_0_cf_1: Option<Real> = read_optional_real(doc, "pm10_0_cf_1")?;
    let p_1_0_um: Option<Real> = read_optional_real(doc, "p_1_0_um")?;
    let pm1_0_atm: Option<Real> = read_optional_real(doc, "pm1_0_atm")?;
    let p_2_5_um: Option<Real> = read_optional_real(doc, "p_2_5_um")?;
    let pm2_5_atm: Option<Real> = read_optional_real(doc, "pm2_5_atm")?;
    let p_5_0_um: Option<Real> = read_optional_real(doc, "p_5_0_um")?;
    let pm10_0_atm: Option<Real> = read_optional_real(doc, "pm10_0_atm")?;
    let p_10_0_um: Option<Real> = read_optional_real(doc, "p_10_0_um")?;
    let status_ntp: Status = read_status(doc, "status_0")?;
    let status_loc: Status = read_status(doc, "status_1")?;
    let status_upd: Status = read_status(doc, "status_2")?;
    let status_paa: Status = read_status(doc, "status_3")?;
    let status_tsa: Status = read_status(doc, "status_4")?;
    let status_tss_a: Status = read_status(doc, "status_5")?;
    let status_for_processor_1: Option<Status> = read_optional_status(doc, "status_6")?;
    let status_tsb: Status = read_status(doc, "status_7")?;
    let status_tss_b: Status = read_status(doc, "status_8")?;
    let status_for_processor_2: Option<Status> = read_optional_status(doc, "status_10")?;
    Ok(
        LocalSensorData {
            sensor_id,
            date_time,
            geo,
            mem,
            memfrag,
            memfb,
            memcs,
            id,
            lat,
            lon,
            logging_rate,
            place,
            version,
            uptime,
            rssi,
            period,
            http_success,
            http_sends,
            hardware_version,
            hardware_discovered,
            wl_state,
            ssid,
            response,
            response_date,
            adc,
            current_temp_f,
            current_humidity,
            current_dewpoint_f,
            pressure,
            current_temp_f_680,
            current_humidity_680,
            current_dewpoint_f_680,
            pressure_680,
            gas_680,
            p25aqic_b,
            pm2_5_aqi_b,
            pm1_0_cf_1_b,
            p_0_3_um_b,
            pm2_5_cf_1_b,
            p_0_5_um_b,
            pm10_0_cf_1_b,
            p_1_0_um_b,
            pm1_0_atm_b,
            p_2_5_um_b,
            pm2_5_atm_b,
            p_5_0_um_b,
            pm10_0_atm_b,
            p_10_0_um_b,
            p25aqic,
            pm2_5_aqi,
            pm1_0_cf_1,
            p_0_3_um,
            pm2_5_cf_1,
            p_0_5_um,
            pm10_0_cf_1,
            p_1_0_um,
            pm1_0_atm,
            p_2_5_um,
            pm2_5_atm,
            p_5_0_um,
            pm10_0_atm,
            p_10_0_um,
            status_ntp,
            status_loc,
            status_upd,
            status_paa,
            status_tsa,
            status_tss_a,
            status_for_processor_1,
            status_tsb,
            status_tss_b,
            status_for_processor_2,
        },
    )
}

impl LocalSensorData {
    /// Decodes a document. All or nothing: one field that fails is the
    /// error of the whole.
    pub fn from_document(doc: &Document) -> (r: Result<LocalSensorData, SensorError>)
        ensures
            decoding(r) == decoded_document(doc@),
    {
        match check_mandatory(doc) {
            Ok(_) => read_fields(doc),
            Err(e) => Err(e),
        }
    }

    /// Decodes the text of a document as the sensor serves it.
    pub fn decode(text: &str) -> (r: Result<LocalSensorData, SensorError>)
        ensures
            decoding(r) == decoded_text(text@),
    {
        match Document::parse(text) {
            Ok(doc) => LocalSensorData::from_document(&doc),
            Err(e) => Err(e),
        }
    }
}

} // verus!
