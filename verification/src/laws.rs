//! What holds of decoding, whatever the document.

use crate::error::{Reason, SensorError, SensorErrorView};
use crate::fields::{
    optional_real, optional_status, optional_text, optional_unsigned, required_count,
    required_real, required_signed, required_status, required_text, required_timestamp,
    required_unsigned, Members,
};
use crate::json::{document_of, is_finite_bits, member, JsonValue, Real};
use crate::polling::{cycle_of, is_success, Fetched};
use crate::sensor_data::{
    assemble, decoded_document, first_fault, first_missing, first_missing_from, is_mandatory,
    LocalSensorDataView, MANDATORY_KEYS,
};
use crate::status::lemma_status_code_round_trip;
use crate::timestamp::timestamp_of;
use crate::wire::{
    optional_real_value, optional_status_value, optional_text_value, optional_unsigned_value,
    real_value, signed_value, status_value, unsigned_value, wire_document, with,
};
use vstd::prelude::*;

verus! {

/// Whether `key` is one of the keys that decoding reads.
pub open spec fn is_schema_key(key: Seq<char>) -> bool {
    key == "SensorId"@
    || key == "DateTime"@
    || key == "Geo"@
    || key == "Mem"@
    || key == "memfrag"@
    || key == "memfb"@
    || key == "memcs"@
    || key == "Id"@
    || key == "lat"@
    || key == "lon"@
    || key == "loggingrate"@
    || key == "place"@
    || key == "version"@
    || key == "uptime"@
    || key == "rssi"@
    || key == "period"@
    || key == "httpsuccess"@
    || key == "httpsends"@
    || key == "hardwareversion"@
    || key == "hardwarediscovered"@
    || key == "wlstate"@
    || key == "ssid"@
    || key == "response"@
    || key == "response_date"@
    || key == "Adc"@
    || key == "current_temp_f"@
    || key == "current_humidity"@
    || key == "current_dewpoint_f"@
    || key == "pressure"@
    || key == "current_temp_f_680"@
    || key == "current_humidity_680"@
    || key == "current_dewpoint_f_680"@
    || key == "pressure_680"@
    || key == "gas_680"@
    || key == "p25aqic_b"@
    || key == "pm2.5_aqi_b"@
    || key == "pm1_0_cf_1_b"@
    || key == "p_0_3_um_b"@
    || key == "pm2_5_cf_1_b"@
    || key == "p_0_5_um_b"@
    || key == "pm10_0_cf_1_b"@
    || key == "p_1_0_um_b"@
    || key == "pm1_0_atm_b"@
    || key == "p_2_5_um_b"@
    || key == "pm2_5_atm_b"@
    || key == "p_5_0_um_b"@
    || key == "pm10_0_atm_b"@
    || key == "p_10_0_um_b"@
    || key == "p25aqic"@
    || key == "pm2.5_aqi"@
    || key == "pm1_0_cf_1"@
    || key == "p_0_3_um"@
    || key == "pm2_5_cf_1"@
    || key == "p_0_5_um"@
    || key == "pm10_0_cf_1"@
    || key == "p_1_0_um"@
    || key == "pm1_0_atm"@
    || key == "p_2_5_um"@
    || key == "pm2_5_atm"@
    || key == "p_5_0_um"@
    || key == "pm10_0_atm"@
    || key == "p_10_0_um"@
    || key == "status_0"@
    || key == "status_1"@
    || key == "status_2"@
    || key == "status_3"@
    || key == "status_4"@
    || key == "status_5"@
    || key == "status_6"@
    || key == "status_7"@
    || key == "status_8"@
    || key == "status_10"@
}

/// Whether `key` belongs to one of the two particulate-matter channels.
pub open spec fn is_channel_key(key: Seq<char>) -> bool {
    key == "p25aqic_b"@
    || key == "pm2.5_aqi_b"@
    || key == "pm1_0_cf_1_b"@
    || key == "p_0_3_um_b"@
    || key == "pm2_5_cf_1_b"@
    || key == "p_0_5_um_b"@
    || key == "pm10_0_cf_1_b"@
    || key == "p_1_0_um_b"@
    || key == "pm1_0_atm_b"@
    || key == "p_2_5_um_b"@
    || key == "pm2_5_atm_b"@
    || key == "p_5_0_um_b"@
    || key == "pm10_0_atm_b"@
    || key == "p_10_0_um_b"@
    || key == "p25aqic"@
    || key == "pm2.5_aqi"@
    || key == "pm1_0_cf_1"@
    || key == "p_0_3_um"@
    || key == "pm2_5_cf_1"@
    || key == "p_0_5_um"@
    || key == "pm10_0_cf_1"@
    || key == "p_1_0_um"@
    || key == "pm1_0_atm"@
    || key == "p_2_5_um"@
    || key == "pm2_5_atm"@
    || key == "p_5_0_um"@
    || key == "pm10_0_atm"@
    || key == "p_10_0_um"@
}

/// The keys of the two particulate-matter channels.
pub open spec fn channel_keys() -> Set<Seq<char>> {
    Set::new(|key: Seq<char>| is_channel_key(key))
}

/// The reading with nothing in any field of the two channels.
pub open spec fn without_channels(s: LocalSensorDataView) -> LocalSensorDataView {
    LocalSensorDataView {
        sensor_id: s.sensor_id,
        date_time: s.date_time,
        geo: s.geo,
        mem: s.mem,
        memfrag: s.memfrag,
        memfb: s.memfb,
        memcs: s.memcs,
        id: s.id,
        lat: s.lat,
        lon: s.lon,
        logging_rate: s.logging_rate,
        place: s.place,
        version: s.version,
        uptime: s.uptime,
        rssi: s.rssi,
        period: s.period,
        http_success: s.http_success,
        http_sends: s.http_sends,
        hardware_version: s.hardware_version,
        hardware_discovered: s.hardware_discovered,
        wl_state: s.wl_state,
        ssid: s.ssid,
        response: s.response,
        response_date: s.response_date,
        adc: s.adc,
        current_temp_f: s.current_temp_f,
        current_humidity: s.current_humidity,
        current_dewpoint_f: s.current_dewpoint_f,
        pressure: s.pressure,
        current_temp_f_680: s.current_temp_f_680,
        current_humidity_680: s.current_humidity_680,
        current_dewpoint_f_680: s.current_dewpoint_f_680,
        pressure_680: s.pressure_680,
        gas_680: s.gas_680,
        p25aqic_b: None,
        pm2_5_aqi_b: None,
        pm1_0_cf_1_b: None,
        p_0_3_um_b: None,
        pm2_5_cf_1_b: None,
        p_0_5_um_b: None,
        pm10_0_cf_1_b: None,
        p_1_0_um_b: None,
        pm1_0_atm_b: None,
        p_2_5_um_b: None,
        pm2_5_atm_b: None,
        p_5_0_um_b: None,
        pm10_0_atm_b: None,
        p_10_0_um_b: None,
        p25aqic: None,
        pm2_5_aqi: None,
        pm1_0_cf_1: None,
        p_0_3_um: None,
        pm2_5_cf_1: None,
        p_0_5_um: None,
        pm10_0_cf_1: None,
        p_1_0_um: None,
        pm1_0_atm: None,
        p_2_5_um: None,
        pm2_5_atm: None,
        p_5_0_um: None,
        pm10_0_atm: None,
        p_10_0_um: None,
        status_ntp: s.status_ntp,
        status_loc: s.status_loc,
        status_upd: s.status_upd,
        status_paa: s.status_paa,
        status_tsa: s.status_tsa,
        status_tss_a: s.status_tss_a,
        status_for_processor_1: s.status_for_processor_1,
        status_tsb: s.status_tsb,
        status_tss_b: s.status_tss_b,
        status_for_processor_2: s.status_for_processor_2,
    }
}

/// Whether two documents hold the same under every key of the schema.
pub open spec fn agree_on_schema(a: Members, b: Members) -> bool {
    &&& member(a, "SensorId"@) == member(b, "SensorId"@)
    &&& member(a, "DateTime"@) == member(b, "DateTime"@)
    &&& member(a, "Geo"@) == member(b, "Geo"@)
    &&& member(a, "Mem"@) == member(b, "Mem"@)
    &&& member(a, "memfrag"@) == member(b, "memfrag"@)
    &&& member(a, "memfb"@) == member(b, "memfb"@)
    &&& member(a, "memcs"@) == member(b, "memcs"@)
    &&& member(a, "Id"@) == member(b, "Id"@)
    &&& member(a, "lat"@) == member(b, "lat"@)
    &&& member(a, "lon"@) == member(b, "lon"@)
    &&& member(a, "loggingrate"@) == member(b, "loggingrate"@)
    &&& member(a, "place"@) == member(b, "place"@)
    &&& member(a, "version"@) == member(b, "version"@)
    &&& member(a, "uptime"@) == member(b, "uptime"@)
    &&& member(a, "rssi"@) == member(b, "rssi"@)
    &&& member(a, "period"@) == member(b, "period"@)
    &&& member(a, "httpsuccess"@) == member(b, "httpsuccess"@)
    &&& member(a, "httpsends"@) == member(b, "httpsends"@)
    &&& member(a, "hardwareversion"@) == member(b, "hardwareversion"@)
    &&& member(a, "hardwarediscovered"@) == member(b, "hardwarediscovered"@)
    &&& member(a, "wlstate"@) == member(b, "wlstate"@)
    &&& member(a, "ssid"@) == member(b, "ssid"@)
    &&& member(a, "response"@) == member(b, "response"@)
    &&& member(a, "response_date"@) == member(b, "response_date"@)
    &&& member(a, "Adc"@) == member(b, "Adc"@)
    &&& member(a, "current_temp_f"@) == member(b, "current_temp_f"@)
    &&& member(a, "current_humidity"@) == member(b, "current_humidity"@)
    &&& member(a, "current_dewpoint_f"@) == member(b, "current_dewpoint_f"@)
    &&& member(a, "pressure"@) == member(b, "pressure"@)
    &&& member(a, "current_temp_f_680"@) == member(b, "current_temp_f_680"@)
    &&& member(a, "current_humidity_680"@) == member(b, "current_humidity_680"@)
    &&& member(a, "current_dewpoint_f_680"@) == member(b, "current_dewpoint_f_680"@)
    &&& member(a, "pressure_680"@) == member(b, "pressure_680"@)
    &&& member(a, "gas_680"@) == member(b, "gas_680"@)
    &&& member(a, "p25aqic_b"@) == member(b, "p25aqic_b"@)
    &&& member(a, "pm2.5_aqi_b"@) == member(b, "pm2.5_aqi_b"@)
    &&& member(a, "pm1_0_cf_1_b"@) == member(b, "pm1_0_cf_1_b"@)
    &&& member(a, "p_0_3_um_b"@) == member(b, "p_0_3_um_b"@)
    &&& member(a, "pm2_5_cf_1_b"@) == member(b, "pm2_5_cf_1_b"@)
    &&& member(a, "p_0_5_um_b"@) == member(b, "p_0_5_um_b"@)
    &&& member(a, "pm10_0_cf_1_b"@) == member(b, "pm10_0_cf_1_b"@)
    &&& member(a, "p_1_0_um_b"@) == member(b, "p_1_0_um_b"@)
    &&& member(a, "pm1_0_atm_b"@) == member(b, "pm1_0_atm_b"@)
    &&& member(a, "p_2_5_um_b"@) == member(b, "p_2_5_um_b"@)
    &&& member(a, "pm2_5_atm_b"@) == member(b, "pm2_5_atm_b"@)
    &&& member(a, "p_5_0_um_b"@) == member(b, "p_5_0_um_b"@)
    &&& member(a, "pm10_0_atm_b"@) == member(b, "pm10_0_atm_b"@)
    &&& member(a, "p_10_0_um_b"@) == member(b, "p_10_0_um_b"@)
    &&& member(a, "p25aqic"@) == member(b, "p25aqic"@)
    &&& member(a, "pm2.5_aqi"@) == member(b, "pm2.5_aqi"@)
    &&& member(a, "pm1_0_cf_1"@) == member(b, "pm1_0_cf_1"@)
    &&& member(a, "p_0_3_um"@) == member(b, "p_0_3_um"@)
    &&& member(a, "pm2_5_cf_1"@) == member(b, "pm2_5_cf_1"@)
    &&& member(a, "p_0_5_um"@) == member(b, "p_0_5_um"@)
    &&& member(a, "pm10_0_cf_1"@) == member(b, "pm10_0_cf_1"@)
    &&& member(a, "p_1_0_um"@) == member(b, "p_1_0_um"@)
    &&& member(a, "pm1_0_atm"@) == member(b, "pm1_0_atm"@)
    &&& member(a, "p_2_5_um"@) == member(b, "p_2_5_um"@)
    &&& member(a, "pm2_5_atm"@) == member(b, "pm2_5_atm"@)
    &&& member(a, "p_5_0_um"@) == member(b, "p_5_0_um"@)
    &&& member(a, "pm10_0_atm"@) == member(b, "pm10_0_atm"@)
    &&& member(a, "p_10_0_um"@) == member(b, "p_10_0_um"@)
    &&& member(a, "status_0"@) == member(b, "status_0"@)
    &&& member(a, "status_1"@) == member(b, "status_1"@)
    &&& member(a, "status_2"@) == member(b, "status_2"@)
    &&& member(a, "status_3"@) == member(b, "status_3"@)
    &&& member(a, "status_4"@) == member(b, "status_4"@)
    &&& member(a, "status_5"@) == member(b, "status_5"@)
    &&& member(a, "status_6"@) == member(b, "status_6"@)
    &&& member(a, "status_7"@) == member(b, "status_7"@)
    &&& member(a, "status_8"@) == member(b, "status_8"@)
    &&& member(a, "status_10"@) == member(b, "status_10"@)
}

/// Whether the document holds, under each key of the schema, what spells
/// that field of the reading, with `stamp` as the text of the clock: the
/// member of a mandatory field, and of an optional one that holds
/// something; no member for an optional field that holds nothing.
pub open spec fn holds_reading(doc: Members, s: LocalSensorDataView, stamp: Seq<char>) -> bool {
    &&& member(doc, "SensorId"@) == Some(JsonValue::Text(s.sensor_id))
    &&& member(doc, "DateTime"@) == Some(JsonValue::Text(stamp))
    &&& member(doc, "Geo"@) == Some(JsonValue::Text(s.geo))
    &&& member(doc, "Mem"@) == Some(unsigned_value(s.mem))
    &&& member(doc, "memfrag"@) == Some(unsigned_value(s.memfrag))
    &&& member(doc, "memfb"@) == Some(unsigned_value(s.memfb))
    &&& member(doc, "memcs"@) == Some(unsigned_value(s.memcs))
    &&& member(doc, "Id"@) == Some(unsigned_value(s.id))
    &&& member(doc, "lat"@) == Some(real_value(s.lat))
    &&& member(doc, "lon"@) == Some(real_value(s.lon))
    &&& member(doc, "loggingrate"@) == Some(unsigned_value(s.logging_rate))
    &&& member(doc, "place"@) == Some(JsonValue::Text(s.place))
    &&& member(doc, "version"@) == Some(JsonValue::Text(s.version))
    &&& member(doc, "uptime"@) == Some(unsigned_value(s.uptime))
    &&& member(doc, "rssi"@) == Some(signed_value(s.rssi))
    &&& member(doc, "period"@) == Some(unsigned_value(s.period as u64))
    &&& member(doc, "httpsuccess"@) == Some(unsigned_value(s.http_success))
    &&& member(doc, "httpsends"@) == Some(unsigned_value(s.http_sends))
    &&& member(doc, "hardwareversion"@) == Some(JsonValue::Text(s.hardware_version))
    &&& member(doc, "hardwarediscovered"@) == Some(JsonValue::Text(s.hardware_discovered))
    &&& member(doc, "wlstate"@) == Some(JsonValue::Text(s.wl_state))
    &&& member(doc, "ssid"@) == Some(JsonValue::Text(s.ssid))
    &&& member(doc, "response"@) == optional_text_value(s.response)
    &&& member(doc, "response_date"@) == optional_text_value(s.response_date)
    &&& member(doc, "Adc"@) == Some(real_value(s.adc))
    &&& member(doc, "current_temp_f"@) == optional_unsigned_value(s.current_temp_f)
    &&& member(doc, "current_humidity"@) == optional_unsigned_value(s.current_humidity)
    &&& member(doc, "current_dewpoint_f"@) == optional_unsigned_value(s.current_dewpoint_f)
    &&& member(doc, "pressure"@) == optional_real_value(s.pressure)
    &&& member(doc, "current_temp_f_680"@) == optional_real_value(s.current_temp_f_680)
    &&& member(doc, "current_humidity_680"@) == optional_real_value(s.current_humidity_680)
    &&& member(doc, "current_dewpoint_f_680"@) == optional_real_value(s.current_dewpoint_f_680)
    &&& member(doc, "pressure_680"@) == optional_real_value(s.pressure_680)
    &&& member(doc, "gas_680"@) == optional_real_value(s.gas_680)
    &&& member(doc, "p25aqic_b"@) == optional_text_value(s.p25aqic_b)
    &&& member(doc, "pm2.5_aqi_b"@) == optional_real_value(s.pm2_5_aqi_b)
    &&& member(doc, "pm1_0_cf_1_b"@) == optional_real_value(s.pm1_0_cf_1_b)
    &&& member(doc, "p_0_3_um_b"@) == optional_real_value(s.p_0_3_um_b)
    &&& member(doc, "pm2_5_cf_1_b"@) == optional_real_value(s.pm2_5_cf_1_b)
    &&& member(doc, "p_0_5_um_b"@) == optional_real_value(s.p_0_5_um_b)
    &&& member(doc, "pm10_0_cf_1_b"@) == optional_real_value(s.pm10_0_cf_1_b)
    &&& member(doc, "p_1_0_um_b"@) == optional_real_value(s.p_1_0_um_b)
    &&& member(doc, "pm1_0_atm_b"@) == optional_real_value(s.pm1_0_atm_b)
    &&& member(doc, "p_2_5_um_b"@) == optional_real_value(s.p_2_5_um_b)
    &&& member(doc, "pm2_5_atm_b"@) == optional_real_value(s.pm2_5_atm_b)
    &&& member(doc, "p_5_0_um_b"@) == optional_real_value(s.p_5_0_um_b)
    &&& member(doc, "pm10_0_atm_b"@) == optional_real_value(s.pm10_0_atm_b)
    &&& member(doc, "p_10_0_um_b"@) == optional_real_value(s.p_10_0_um_b)
    &&& member(doc, "p25aqic"@) == optional_text_value(s.p25aqic)
    &&& member(doc, "pm2.5_aqi"@) == optional_real_value(s.pm2_5_aqi)
    &&& member(doc, "pm1_0_cf_1"@) == optional_real_value(s.pm1_0_cf_1)
    &&& member(doc, "p_0_3_um"@) == optional_real_value(s.p_0_3_um)
    &&& member(doc, "pm2_5_cf_1"@) == optional_real_value(s.pm2_5_cf_1)
    &&& member(doc, "p_0_5_um"@) == optional_real_value(s.p_0_5_um)
    &&& member(doc, "pm10_0_cf_1"@) == optional_real_value(s.pm10_0_cf_1)
    &&& member(doc, "p_1_0_um"@) == optional_real_value(s.p_1_0_um)
    &&& member(doc, "pm1_0_atm"@) == optional_real_value(s.pm1_0_atm)
    &&& member(doc, "p_2_5_um"@) == optional_real_value(s.p_2_5_um)
    &&& member(doc, "pm2_5_atm"@) == optional_real_value(s.pm2_5_atm)
    &&& member(doc, "p_5_0_um"@) == optional_real_value(s.p_5_0_um)
    &&& member(doc, "pm10_0_atm"@) == optional_real_value(s.pm10_0_atm)
    &&& member(doc, "p_10_0_um"@) == optional_real_value(s.p_10_0_um)
    &&& member(doc, "status_0"@) == Some(status_value(s.status_ntp))
    &&& member(doc, "status_1"@) == Some(status_value(s.status_loc))
    &&& member(doc, "status_2"@) == Some(status_value(s.status_upd))
    &&& member(doc, "status_3"@) == Some(status_value(s.status_paa))
    &&& member(doc, "status_4"@) == Some(status_value(s.status_tsa))
    &&& member(doc, "status_5"@) == Some(status_value(s.status_tss_a))
    &&& member(doc, "status_6"@) == optional_status_value(s.status_for_processor_1)
    &&& member(doc, "status_7"@) == Some(status_value(s.status_tsb))
    &&& member(doc, "status_8"@) == Some(status_value(s.status_tss_b))
    &&& member(doc, "status_10"@) == optional_status_value(s.status_for_processor_2)
}

/// Whether a real is one that JSON has a number for.
pub open spec fn writable(x: Real) -> bool {
    is_finite_bits(x.bits)
}

/// Whether an optional real, if it is there, is one that JSON has a number
/// for.
pub open spec fn writable_if_any(x: Option<Real>) -> bool {
    match x {
        Some(r) => writable(r),
        None => true,
    }
}

/// Whether every real of the reading is one that JSON has a number for.
pub open spec fn reals_are_writable(s: LocalSensorDataView) -> bool {
    &&& writable(s.lat)
    &&& writable(s.lon)
    &&& writable(s.adc)
    &&& writable_if_any(s.pressure)
    &&& writable_if_any(s.current_temp_f_680)
    &&& writable_if_any(s.current_humidity_680)
    &&& writable_if_any(s.current_dewpoint_f_680)
    &&& writable_if_any(s.pressure_680)
    &&& writable_if_any(s.gas_680)
    &&& writable_if_any(s.pm2_5_aqi_b)
    &&& writable_if_any(s.pm1_0_cf_1_b)
    &&& writable_if_any(s.p_0_3_um_b)
    &&& writable_if_any(s.pm2_5_cf_1_b)
    &&& writable_if_any(s.p_0_5_um_b)
    &&& writable_if_any(s.pm10_0_cf_1_b)
    &&& writable_if_any(s.p_1_0_um_b)
    &&& writable_if_any(s.pm1_0_atm_b)
    &&& writable_if_any(s.p_2_5_um_b)
    &&& writable_if_any(s.pm2_5_atm_b)
    &&& writable_if_any(s.p_5_0_um_b)
    &&& writable_if_any(s.pm10_0_atm_b)
    &&& writable_if_any(s.p_10_0_um_b)
    &&& writable_if_any(s.pm2_5_aqi)
    &&& writable_if_any(s.pm1_0_cf_1)
    &&& writable_if_any(s.p_0_3_um)
    &&& writable_if_any(s.pm2_5_cf_1)
    &&& writable_if_any(s.p_0_5_um)
    &&& writable_if_any(s.pm10_0_cf_1)
    &&& writable_if_any(s.p_1_0_um)
    &&& writable_if_any(s.pm1_0_atm)
    &&& writable_if_any(s.p_2_5_um)
    &&& writable_if_any(s.pm2_5_atm)
    &&& writable_if_any(s.p_5_0_um)
    &&& writable_if_any(s.pm10_0_atm)
    &&& writable_if_any(s.p_10_0_um)
}

/// How the keys of the schema are spelled.
proof fn lemma_keys_spelled()
    ensures
        "SensorId"@.len() == 8 && "SensorId"@[0] == 'S' && "SensorId"@[1] == 'e' && "SensorId"@[2] == 'n' && "SensorId"@[3] == 's' && "SensorId"@[4] == 'o' && "SensorId"@[5] == 'r' && "SensorId"@[6] == 'I' && "SensorId"@[7] == 'd',
        "DateTime"@.len() == 8 && "DateTime"@[0] == 'D' && "DateTime"@[1] == 'a' && "DateTime"@[2] == 't' && "DateTime"@[3] == 'e' && "DateTime"@[4] == 'T' && "DateTime"@[5] == 'i' && "DateTime"@[6] == 'm' && "DateTime"@[7] == 'e',
        "Geo"@.len() == 3 && "Geo"@[0] == 'G' && "Geo"@[1] == 'e' && "Geo"@[2] == 'o',
        "Mem"@.len() == 3 && "Mem"@[0] == 'M' && "Mem"@[1] == 'e' && "Mem"@[2] == 'm',
        "memfrag"@.len() == 7 && "memfrag"@[0] == 'm' && "memfrag"@[1] == 'e' && "memfrag"@[2] == 'm' && "memfrag"@[3] == 'f' && "memfrag"@[4] == 'r' && "memfrag"@[5] == 'a' && "memfrag"@[6] == 'g',
        "memfb"@.len() == 5 && "memfb"@[0] == 'm' && "memfb"@[1] == 'e' && "memfb"@[2] == 'm' && "memfb"@[3] == 'f' && "memfb"@[4] == 'b',
        "memcs"@.len() == 5 && "memcs"@[0] == 'm' && "memcs"@[1] == 'e' && "memcs"@[2] == 'm' && "memcs"@[3] == 'c' && "memcs"@[4] == 's',
        "Id"@.len() == 2 && "Id"@[0] == 'I' && "Id"@[1] == 'd',
        "lat"@.len() == 3 && "lat"@[0] == 'l' && "lat"@[1] == 'a' && "lat"@[2] == 't',
        "lon"@.len() == 3 && "lon"@[0] == 'l' && "lon"@[1] == 'o' && "lon"@[2] == 'n',
        "loggingrate"@.len() == 11 && "loggingrate"@[0] == 'l' && "loggingrate"@[1] == 'o' && "loggingrate"@[2] == 'g' && "loggingrate"@[3] == 'g' && "loggingrate"@[4] == 'i' && "loggingrate"@[5] == 'n' && "loggingrate"@[6] == 'g' && "loggingrate"@[7] == 'r' && "loggingrate"@[8] == 'a' && "loggingrate"@[9] == 't' && "loggingrate"@[10] == 'e',
        "place"@.len() == 5 && "place"@[0] == 'p' && "place"@[1] == 'l' && "place"@[2] == 'a' && "place"@[3] == 'c' && "place"@[4] == 'e',
        "version"@.len() == 7 && "version"@[0] == 'v' && "version"@[1] == 'e' && "version"@[2] == 'r' && "version"@[3] == 's' && "version"@[4] == 'i' && "version"@[5] == 'o' && "version"@[6] == 'n',
        "uptime"@.len() == 6 && "uptime"@[0] == 'u' && "uptime"@[1] == 'p' && "uptime"@[2] == 't' && "uptime"@[3] == 'i' && "uptime"@[4] == 'm' && "uptime"@[5] == 'e',
        "rssi"@.len() == 4 && "rssi"@[0] == 'r' && "rssi"@[1] == 's' && "rssi"@[2] == 's' && "rssi"@[3] == 'i',
        "period"@.len() == 6 && "period"@[0] == 'p' && "period"@[1] == 'e' && "period"@[2] == 'r' && "period"@[3] == 'i' && "period"@[4] == 'o' && "period"@[5] == 'd',
        "httpsuccess"@.len() == 11 && "httpsuccess"@[0] == 'h' && "httpsuccess"@[1] == 't' && "httpsuccess"@[2] == 't' && "httpsuccess"@[3] == 'p' && "httpsuccess"@[4] == 's' && "httpsuccess"@[5] == 'u' && "httpsuccess"@[6] == 'c' && "httpsuccess"@[7] == 'c' && "httpsuccess"@[8] == 'e' && "httpsuccess"@[9] == 's' && "httpsuccess"@[10] == 's',
        "httpsends"@.len() == 9 && "httpsends"@[0] == 'h' && "httpsends"@[1] == 't' && "httpsends"@[2] == 't' && "httpsends"@[3] == 'p' && "httpsends"@[4] == 's' && "httpsends"@[5] == 'e' && "httpsends"@[6] == 'n' && "httpsends"@[7] == 'd' && "httpsends"@[8] == 's',
        "hardwareversion"@.len() == 15 && "hardwareversion"@[0] == 'h' && "hardwareversion"@[1] == 'a' && "hardwareversion"@[2] == 'r' && "hardwareversion"@[3] == 'd' && "hardwareversion"@[4] == 'w' && "hardwareversion"@[5] == 'a' && "hardwareversion"@[6] == 'r' && "hardwareversion"@[7] == 'e' && "hardwareversion"@[8] == 'v' && "hardwareversion"@[9] == 'e' && "hardwareversion"@[10] == 'r' && "hardwareversion"@[11] == 's' && "hardwareversion"@[12] == 'i' && "hardwareversion"@[13] == 'o' && "hardwareversion"@[14] == 'n',
        "hardwarediscovered"@.len() == 18 && "hardwarediscovered"@[0] == 'h' && "hardwarediscovered"@[1] == 'a' && "hardwarediscovered"@[2] == 'r' && "hardwarediscovered"@[3] == 'd' && "hardwarediscovered"@[4] == 'w' && "hardwarediscovered"@[5] == 'a' && "hardwarediscovered"@[6] == 'r' && "hardwarediscovered"@[7] == 'e' && "hardwarediscovered"@[8] == 'd' && "hardwarediscovered"@[9] == 'i' && "hardwarediscovered"@[10] == 's' && "hardwarediscovered"@[11] == 'c' && "hardwarediscovered"@[12] == 'o' && "hardwarediscovered"@[13] == 'v' && "hardwarediscovered"@[14] == 'e' && "hardwarediscovered"@[15] == 'r' && "hardwarediscovered"@[16] == 'e' && "hardwarediscovered"@[17] == 'd',
        "wlstate"@.len() == 7 && "wlstate"@[0] == 'w' && "wlstate"@[1] == 'l' && "wlstate"@[2] == 's' && "wlstate"@[3] == 't' && "wlstate"@[4] == 'a' && "wlstate"@[5] == 't' && "wlstate"@[6] == 'e',
        "ssid"@.len() == 4 && "ssid"@[0] == 's' && "ssid"@[1] == 's' && "ssid"@[2] == 'i' && "ssid"@[3] == 'd',
        "response"@.len() == 8 && "response"@[0] == 'r' && "response"@[1] == 'e' && "response"@[2] == 's' && "response"@[3] == 'p' && "response"@[4] == 'o' && "response"@[5] == 'n' && "response"@[6] == 's' && "response"@[7] == 'e',
        "response_date"@.len() == 13 && "response_date"@[0] == 'r' && "response_date"@[1] == 'e' && "response_date"@[2] == 's' && "response_date"@[3] == 'p' && "response_date"@[4] == 'o' && "response_date"@[5] == 'n' && "response_date"@[6] == 's' && "response_date"@[7] == 'e' && "response_date"@[8] == '_' && "response_date"@[9] == 'd' && "response_date"@[10] == 'a' && "response_date"@[11] == 't' && "response_date"@[12] == 'e',
        "Adc"@.len() == 3 && "Adc"@[0] == 'A' && "Adc"@[1] == 'd' && "Adc"@[2] == 'c',
        "current_temp_f"@.len() == 14 && "current_temp_f"@[0] == 'c' && "current_temp_f"@[1] == 'u' && "current_temp_f"@[2] == 'r' && "current_temp_f"@[3] == 'r' && "current_temp_f"@[4] == 'e' && "current_temp_f"@[5] == 'n' && "current_temp_f"@[6] == 't' && "current_temp_f"@[7] == '_' && "current_temp_f"@[8] == 't' && "current_temp_f"@[9] == 'e' && "current_temp_f"@[10] == 'm' && "current_temp_f"@[11] == 'p' && "current_temp_f"@[12] == '_' && "current_temp_f"@[13] == 'f',
        "current_humidity"@.len() == 16 && "current_humidity"@[0] == 'c' && "current_humidity"@[1] == 'u' && "current_humidity"@[2] == 'r' && "current_humidity"@[3] == 'r' && "current_humidity"@[4] == 'e' && "current_humidity"@[5] == 'n' && "current_humidity"@[6] == 't' && "current_humidity"@[7] == '_' && "current_humidity"@[8] == 'h' && "current_humidity"@[9] == 'u' && "current_humidity"@[10] == 'm' && "current_humidity"@[11] == 'i' && "current_humidity"@[12] == 'd' && "current_humidity"@[13] == 'i' && "current_humidity"@[14] == 't' && "current_humidity"@[15] == 'y',
        "current_dewpoint_f"@.len() == 18 && "current_dewpoint_f"@[0] == 'c' && "current_dewpoint_f"@[1] == 'u' && "current_dewpoint_f"@[2] == 'r' && "current_dewpoint_f"@[3] == 'r' && "current_dewpoint_f"@[4] == 'e' && "current_dewpoint_f"@[5] == 'n' && "current_dewpoint_f"@[6] == 't' && "current_dewpoint_f"@[7] == '_' && "current_dewpoint_f"@[8] == 'd' && "current_dewpoint_f"@[9] == 'e' && "current_dewpoint_f"@[10] == 'w' && "current_dewpoint_f"@[11] == 'p' && "current_dewpoint_f"@[12] == 'o' && "current_dewpoint_f"@[13] == 'i' && "current_dewpoint_f"@[14] == 'n' && "current_dewpoint_f"@[15] == 't' && "current_dewpoint_f"@[16] == '_' && "current_dewpoint_f"@[17] == 'f',
        "pressure"@.len() == 8 && "pressure"@[0] == 'p' && "pressure"@[1] == 'r' && "pressure"@[2] == 'e' && "pressure"@[3] == 's' && "pressure"@[4] == 's' && "pressure"@[5] == 'u' && "pressure"@[6] == 'r' && "pressure"@[7] == 'e',
        "current_temp_f_680"@.len() == 18 && "current_temp_f_680"@[0] == 'c' && "current_temp_f_680"@[1] == 'u' && "current_temp_f_680"@[2] == 'r' && "current_temp_f_680"@[3] == 'r' && "current_temp_f_680"@[4] == 'e' && "current_temp_f_680"@[5] == 'n' && "current_temp_f_680"@[6] == 't' && "current_temp_f_680"@[7] == '_' && "current_temp_f_680"@[8] == 't' && "current_temp_f_680"@[9] == 'e' && "current_temp_f_680"@[10] == 'm' && "current_temp_f_680"@[11] == 'p' && "current_temp_f_680"@[12] == '_' && "current_temp_f_680"@[13] == 'f' && "current_temp_f_680"@[14] == '_' && "current_temp_f_680"@[15] == '6' && "current_temp_f_680"@[16] == '8' && "current_temp_f_680"@[17] == '0',
        "current_humidity_680"@.len() == 20 && "current_humidity_680"@[0] == 'c' && "current_humidity_680"@[1] == 'u' && "current_humidity_680"@[2] == 'r' && "current_humidity_680"@[3] == 'r' && "current_humidity_680"@[4] == 'e' && "current_humidity_680"@[5] == 'n' && "current_humidity_680"@[6] == 't' && "current_humidity_680"@[7] == '_' && "current_humidity_680"@[8] == 'h' && "current_humidity_680"@[9] == 'u' && "current_humidity_680"@[10] == 'm' && "current_humidity_680"@[11] == 'i' && "current_humidity_680"@[12] == 'd' && "current_humidity_680"@[13] == 'i' && "current_humidity_680"@[14] == 't' && "current_humidity_680"@[15] == 'y' && "current_humidity_680"@[16] == '_' && "current_humidity_680"@[17] == '6' && "current_humidity_680"@[18] == '8' && "current_humidity_680"@[19] == '0',
        "current_dewpoint_f_680"@.len() == 22 && "current_dewpoint_f_680"@[0] == 'c' && "current_dewpoint_f_680"@[1] == 'u' && "current_dewpoint_f_680"@[2] == 'r' && "current_dewpoint_f_680"@[3] == 'r' && "current_dewpoint_f_680"@[4] == 'e' && "current_dewpoint_f_680"@[5] == 'n' && "current_dewpoint_f_680"@[6] == 't' && "current_dewpoint_f_680"@[7] == '_' && "current_dewpoint_f_680"@[8] == 'd' && "current_dewpoint_f_680"@[9] == 'e' && "current_dewpoint_f_680"@[10] == 'w' && "current_dewpoint_f_680"@[11] == 'p' && "current_dewpoint_f_680"@[12] == 'o' && "current_dewpoint_f_680"@[13] == 'i' && "current_dewpoint_f_680"@[14] == 'n' && "current_dewpoint_f_680"@[15] == 't' && "current_dewpoint_f_680"@[16] == '_' && "current_dewpoint_f_680"@[17] == 'f' && "current_dewpoint_f_680"@[18] == '_' && "current_dewpoint_f_680"@[19] == '6' && "current_dewpoint_f_680"@[20] == '8' && "current_dewpoint_f_680"@[21] == '0',
        "pressure_680"@.len() == 12 && "pressure_680"@[0] == 'p' && "pressure_680"@[1] == 'r' && "pressure_680"@[2] == 'e' && "pressure_680"@[3] == 's' && "pressure_680"@[4] == 's' && "pressure_680"@[5] == 'u' && "pressure_680"@[6] == 'r' && "pressure_680"@[7] == 'e' && "pressure_680"@[8] == '_' && "pressure_680"@[9] == '6' && "pressure_680"@[10] == '8' && "pressure_680"@[11] == '0',
        "gas_680"@.len() == 7 && "gas_680"@[0] == 'g' && "gas_680"@[1] == 'a' && "gas_680"@[2] == 's' && "gas_680"@[3] == '_' && "gas_680"@[4] == '6' && "gas_680"@[5] == '8' && "gas_680"@[6] == '0',
        "p25aqic_b"@.len() == 9 && "p25aqic_b"@[0] == 'p' && "p25aqic_b"@[1] == '2' && "p25aqic_b"@[2] == '5' && "p25aqic_b"@[3] == 'a' && "p25aqic_b"@[4] == 'q' && "p25aqic_b"@[5] == 'i' && "p25aqic_b"@[6] == 'c' && "p25aqic_b"@[7] == '_' && "p25aqic_b"@[8] == 'b',
        "pm2.5_aqi_b"@.len() == 11 && "pm2.5_aqi_b"@[0] == 'p' && "pm2.5_aqi_b"@[1] == 'm' && "pm2.5_aqi_b"@[2] == '2' && "pm2.5_aqi_b"@[3] == '.' && "pm2.5_aqi_b"@[4] == '5' && "pm2.5_aqi_b"@[5] == '_' && "pm2.5_aqi_b"@[6] == 'a' && "pm2.5_aqi_b"@[7] == 'q' && "pm2.5_aqi_b"@[8] == 'i' && "pm2.5_aqi_b"@[9] == '_' && "pm2.5_aqi_b"@[10] == 'b',
        "pm1_0_cf_1_b"@.len() == 12 && "pm1_0_cf_1_b"@[0] == 'p' && "pm1_0_cf_1_b"@[1] == 'm' && "pm1_0_cf_1_b"@[2] == '1' && "pm1_0_cf_1_b"@[3] == '_' && "pm1_0_cf_1_b"@[4] == '0' && "pm1_0_cf_1_b"@[5] == '_' && "pm1_0_cf_1_b"@[6] == 'c' && "pm1_0_cf_1_b"@[7] == 'f' && "pm1_0_cf_1_b"@[8] == '_' && "pm1_0_cf_1_b"@[9] == '1' && "pm1_0_cf_1_b"@[10] == '_' && "pm1_0_cf_1_b"@[11] == 'b',
        "p_0_3_um_b"@.len() == 10 && "p_0_3_um_b"@[0] == 'p' && "p_0_3_um_b"@[1] == '_' && "p_0_3_um_b"@[2] == '0' && "p_0_3_um_b"@[3] == '_' && "p_0_3_um_b"@[4] == '3' && "p_0_3_um_b"@[5] == '_' && "p_0_3_um_b"@[6] == 'u' && "p_0_3_um_b"@[7] == 'm' && "p_0_3_um_b"@[8] == '_' && "p_0_3_um_b"@[9] == 'b',
        "pm2_5_cf_1_b"@.len() == 12 && "pm2_5_cf_1_b"@[0] == 'p' && "pm2_5_cf_1_b"@[1] == 'm' && "pm2_5_cf_1_b"@[2] == '2' && "pm2_5_cf_1_b"@[3] == '_' && "pm2_5_cf_1_b"@[4] == '5' && "pm2_5_cf_1_b"@[5] == '_' && "pm2_5_cf_1_b"@[6] == 'c' && "pm2_5_cf_1_b"@[7] == 'f' && "pm2_5_cf_1_b"@[8] == '_' && "pm2_5_cf_1_b"@[9] == '1' && "pm2_5_cf_1_b"@[10] == '_' && "pm2_5_cf_1_b"@[11] == 'b',
        "p_0_5_um_b"@.len() == 10 && "p_0_5_um_b"@[0] == 'p' && "p_0_5_um_b"@[1] == '_' && "p_0_5_um_b"@[2] == '0' && "p_0_5_um_b"@[3] == '_' && "p_0_5_um_b"@[4] == '5' && "p_0_5_um_b"@[5] == '_' && "p_0_5_um_b"@[6] == 'u' && "p_0_5_um_b"@[7] == 'm' && "p_0_5_um_b"@[8] == '_' && "p_0_5_um_b"@[9] == 'b',
        "pm10_0_cf_1_b"@.len() == 13 && "pm10_0_cf_1_b"@[0] == 'p' && "pm10_0_cf_1_b"@[1] == 'm' && "pm10_0_cf_1_b"@[2] == '1' && "pm10_0_cf_1_b"@[3] == '0' && "pm10_0_cf_1_b"@[4] == '_' && "pm10_0_cf_1_b"@[5] == '0' && "pm10_0_cf_1_b"@[6] == '_' && "pm10_0_cf_1_b"@[7] == 'c' && "pm10_0_cf_1_b"@[8] == 'f' && "pm10_0_cf_1_b"@[9] == '_' && "pm10_0_cf_1_b"@[10] == '1' && "pm10_0_cf_1_b"@[11] == '_' && "pm10_0_cf_1_b"@[12] == 'b',
        "p_1_0_um_b"@.len() == 10 && "p_1_0_um_b"@[0] == 'p' && "p_1_0_um_b"@[1] == '_' && "p_1_0_um_b"@[2] == '1' && "p_1_0_um_b"@[3] == '_' && "p_1_0_um_b"@[4] == '0' && "p_1_0_um_b"@[5] == '_' && "p_1_0_um_b"@[6] == 'u' && "p_1_0_um_b"@[7] == 'm' && "p_1_0_um_b"@[8] == '_' && "p_1_0_um_b"@[9] == 'b',
        "pm1_0_atm_b"@.len() == 11 && "pm1_0_atm_b"@[0] == 'p' && "pm1_0_atm_b"@[1] == 'm' && "pm1_0_atm_b"@[2] == '1' && "pm1_0_atm_b"@[3] == '_' && "pm1_0_atm_b"@[4] == '0' && "pm1_0_atm_b"@[5] == '_' && "pm1_0_atm_b"@[6] == 'a' && "pm1_0_atm_b"@[7] == 't' && "pm1_0_atm_b"@[8] == 'm' && "pm1_0_atm_b"@[9] == '_' && "pm1_0_atm_b"@[10] == 'b',
        "p_2_5_um_b"@.len() == 10 && "p_2_5_um_b"@[0] == 'p' && "p_2_5_um_b"@[1] == '_' && "p_2_5_um_b"@[2] == '2' && "p_2_5_um_b"@[3] == '_' && "p_2_5_um_b"@[4] == '5' && "p_2_5_um_b"@[5] == '_' && "p_2_5_um_b"@[6] == 'u' && "p_2_5_um_b"@[7] == 'm' && "p_2_5_um_b"@[8] == '_' && "p_2_5_um_b"@[9] == 'b',
        "pm2_5_atm_b"@.len() == 11 && "pm2_5_atm_b"@[0] == 'p' && "pm2_5_atm_b"@[1] == 'm' && "pm2_5_atm_b"@[2] == '2' && "pm2_5_atm_b"@[3] == '_' && "pm2_5_atm_b"@[4] == '5' && "pm2_5_atm_b"@[5] == '_' && "pm2_5_atm_b"@[6] == 'a' && "pm2_5_atm_b"@[7] == 't' && "pm2_5_atm_b"@[8] == 'm' && "pm2_5_atm_b"@[9] == '_' && "pm2_5_atm_b"@[10] == 'b',
        "p_5_0_um_b"@.len() == 10 && "p_5_0_um_b"@[0] == 'p' && "p_5_0_um_b"@[1] == '_' && "p_5_0_um_b"@[2] == '5' && "p_5_0_um_b"@[3] == '_' && "p_5_0_um_b"@[4] == '0' && "p_5_0_um_b"@[5] == '_' && "p_5_0_um_b"@[6] == 'u' && "p_5_0_um_b"@[7] == 'm' && "p_5_0_um_b"@[8] == '_' && "p_5_0_um_b"@[9] == 'b',
        "pm10_0_atm_b"@.len() == 12 && "pm10_0_atm_b"@[0] == 'p' && "pm10_0_atm_b"@[1] == 'm' && "pm10_0_atm_b"@[2] == '1' && "pm10_0_atm_b"@[3] == '0' && "pm10_0_atm_b"@[4] == '_' && "pm10_0_atm_b"@[5] == '0' && "pm10_0_atm_b"@[6] == '_' && "pm10_0_atm_b"@[7] == 'a' && "pm10_0_atm_b"@[8] == 't' && "pm10_0_atm_b"@[9] == 'm' && "pm10_0_atm_b"@[10] == '_' && "pm10_0_atm_b"@[11] == 'b',
        "p_10_0_um_b"@.len() == 11 && "p_10_0_um_b"@[0] == 'p' && "p_10_0_um_b"@[1] == '_' && "p_10_0_um_b"@[2] == '1' && "p_10_0_um_b"@[3] == '0' && "p_10_0_um_b"@[4] == '_' && "p_10_0_um_b"@[5] == '0' && "p_10_0_um_b"@[6] == '_' && "p_10_0_um_b"@[7] == 'u' && "p_10_0_um_b"@[8] == 'm' && "p_10_0_um_b"@[9] == '_' && "p_10_0_um_b"@[10] == 'b',
        "p25aqic"@.len() == 7 && "p25aqic"@[0] == 'p' && "p25aqic"@[1] == '2' && "p25aqic"@[2] == '5' && "p25aqic"@[3] == 'a' && "p25aqic"@[4] == 'q' && "p25aqic"@[5] == 'i' && "p25aqic"@[6] == 'c',
        "pm2.5_aqi"@.len() == 9 && "pm2.5_aqi"@[0] == 'p' && "pm2.5_aqi"@[1] == 'm' && "pm2.5_aqi"@[2] == '2' && "pm2.5_aqi"@[3] == '.' && "pm2.5_aqi"@[4] == '5' && "pm2.5_aqi"@[5] == '_' && "pm2.5_aqi"@[6] == 'a' && "pm2.5_aqi"@[7] == 'q' && "pm2.5_aqi"@[8] == 'i',
        "pm1_0_cf_1"@.len() == 10 && "pm1_0_cf_1"@[0] == 'p' && "pm1_0_cf_1"@[1] == 'm' && "pm1_0_cf_1"@[2] == '1' && "pm1_0_cf_1"@[3] == '_' && "pm1_0_cf_1"@[4] == '0' && "pm1_0_cf_1"@[5] == '_' && "pm1_0_cf_1"@[6] == 'c' && "pm1_0_cf_1"@[7] == 'f' && "pm1_0_cf_1"@[8] == '_' && "pm1_0_cf_1"@[9] == '1',
        "p_0_3_um"@.len() == 8 && "p_0_3_um"@[0] == 'p' && "p_0_3_um"@[1] == '_' && "p_0_3_um"@[2] == '0' && "p_0_3_um"@[3] == '_' && "p_0_3_um"@[4] == '3' && "p_0_3_um"@[5] == '_' && "p_0_3_um"@[6] == 'u' && "p_0_3_um"@[7] == 'm',
        "pm2_5_cf_1"@.len() == 10 && "pm2_5_cf_1"@[0] == 'p' && "pm2_5_cf_1"@[1] == 'm' && "pm2_5_cf_1"@[2] == '2' && "pm2_5_cf_1"@[3] == '_' && "pm2_5_cf_1"@[4] == '5' && "pm2_5_cf_1"@[5] == '_' && "pm2_5_cf_1"@[6] == 'c' && "pm2_5_cf_1"@[7] == 'f' && "pm2_5_cf_1"@[8] == '_' && "pm2_5_cf_1"@[9] == '1',
        "p_0_5_um"@.len() == 8 && "p_0_5_um"@[0] == 'p' && "p_0_5_um"@[1] == '_' && "p_0_5_um"@[2] == '0' && "p_0_5_um"@[3] == '_' && "p_0_5_um"@[4] == '5' && "p_0_5_um"@[5] == '_' && "p_0_5_um"@[6] == 'u' && "p_0_5_um"@[7] == 'm',
        "pm10_0_cf_1"@.len() == 11 && "pm10_0_cf_1"@[0] == 'p' && "pm10_0_cf_1"@[1] == 'm' && "pm10_0_cf_1"@[2] == '1' && "pm10_0_cf_1"@[3] == '0' && "pm10_0_cf_1"@[4] == '_' && "pm10_0_cf_1"@[5] == '0' && "pm10_0_cf_1"@[6] == '_' && "pm10_0_cf_1"@[7] == 'c' && "pm10_0_cf_1"@[8] == 'f' && "pm10_0_cf_1"@[9] == '_' && "pm10_0_cf_1"@[10] == '1',
        "p_1_0_um"@.len() == 8 && "p_1_0_um"@[0] == 'p' && "p_1_0_um"@[1] == '_' && "p_1_0_um"@[2] == '1' && "p_1_0_um"@[3] == '_' && "p_1_0_um"@[4] == '0' && "p_1_0_um"@[5] == '_' && "p_1_0_um"@[6] == 'u' && "p_1_0_um"@[7] == 'm',
        "pm1_0_atm"@.len() == 9 && "pm1_0_atm"@[0] == 'p' && "pm1_0_atm"@[1] == 'm' && "pm1_0_atm"@[2] == '1' && "pm1_0_atm"@[3] == '_' && "pm1_0_atm"@[4] == '0' && "pm1_0_atm"@[5] == '_' && "pm1_0_atm"@[6] == 'a' && "pm1_0_atm"@[7] == 't' && "pm1_0_atm"@[8] == 'm',
        "p_2_5_um"@.len() == 8 && "p_2_5_um"@[0] == 'p' && "p_2_5_um"@[1] == '_' && "p_2_5_um"@[2] == '2' && "p_2_5_um"@[3] == '_' && "p_2_5_um"@[4] == '5' && "p_2_5_um"@[5] == '_' && "p_2_5_um"@[6] == 'u' && "p_2_5_um"@[7] == 'm',
        "pm2_5_atm"@.len() == 9 && "pm2_5_atm"@[0] == 'p' && "pm2_5_atm"@[1] == 'm' && "pm2_5_atm"@[2] == '2' && "pm2_5_atm"@[3] == '_' && "pm2_5_atm"@[4] == '5' && "pm2_5_atm"@[5] == '_' && "pm2_5_atm"@[6] == 'a' && "pm2_5_atm"@[7] == 't' && "pm2_5_atm"@[8] == 'm',
        "p_5_0_um"@.len() == 8 && "p_5_0_um"@[0] == 'p' && "p_5_0_um"@[1] == '_' && "p_5_0_um"@[2] == '5' && "p_5_0_um"@[3] == '_' && "p_5_0_um"@[4] == '0' && "p_5_0_um"@[5] == '_' && "p_5_0_um"@[6] == 'u' && "p_5_0_um"@[7] == 'm',
        "pm10_0_atm"@.len() == 10 && "pm10_0_atm"@[0] == 'p' && "pm10_0_atm"@[1] == 'm' && "pm10_0_atm"@[2] == '1' && "pm10_0_atm"@[3] == '0' && "pm10_0_atm"@[4] == '_' && "pm10_0_atm"@[5] == '0' && "pm10_0_atm"@[6] == '_' && "pm10_0_atm"@[7] == 'a' && "pm10_0_atm"@[8] == 't' && "pm10_0_atm"@[9] == 'm',
        "p_10_0_um"@.len() == 9 && "p_10_0_um"@[0] == 'p' && "p_10_0_um"@[1] == '_' && "p_10_0_um"@[2] == '1' && "p_10_0_um"@[3] == '0' && "p_10_0_um"@[4] == '_' && "p_10_0_um"@[5] == '0' && "p_10_0_um"@[6] == '_' && "p_10_0_um"@[7] == 'u' && "p_10_0_um"@[8] == 'm',
        "status_0"@.len() == 8 && "status_0"@[0] == 's' && "status_0"@[1] == 't' && "status_0"@[2] == 'a' && "status_0"@[3] == 't' && "status_0"@[4] == 'u' && "status_0"@[5] == 's' && "status_0"@[6] == '_' && "status_0"@[7] == '0',
        "status_1"@.len() == 8 && "status_1"@[0] == 's' && "status_1"@[1] == 't' && "status_1"@[2] == 'a' && "status_1"@[3] == 't' && "status_1"@[4] == 'u' && "status_1"@[5] == 's' && "status_1"@[6] == '_' && "status_1"@[7] == '1',
        "status_2"@.len() == 8 && "status_2"@[0] == 's' && "status_2"@[1] == 't' && "status_2"@[2] == 'a' && "status_2"@[3] == 't' && "status_2"@[4] == 'u' && "status_2"@[5] == 's' && "status_2"@[6] == '_' && "status_2"@[7] == '2',
        "status_3"@.len() == 8 && "status_3"@[0] == 's' && "status_3"@[1] == 't' && "status_3"@[2] == 'a' && "status_3"@[3] == 't' && "status_3"@[4] == 'u' && "status_3"@[5] == 's' && "status_3"@[6] == '_' && "status_3"@[7] == '3',
        "status_4"@.len() == 8 && "status_4"@[0] == 's' && "status_4"@[1] == 't' && "status_4"@[2] == 'a' && "status_4"@[3] == 't' && "status_4"@[4] == 'u' && "status_4"@[5] == 's' && "status_4"@[6] == '_' && "status_4"@[7] == '4',
        "status_5"@.len() == 8 && "status_5"@[0] == 's' && "status_5"@[1] == 't' && "status_5"@[2] == 'a' && "status_5"@[3] == 't' && "status_5"@[4] == 'u' && "status_5"@[5] == 's' && "status_5"@[6] == '_' && "status_5"@[7] == '5',
        "status_6"@.len() == 8 && "status_6"@[0] == 's' && "status_6"@[1] == 't' && "status_6"@[2] == 'a' && "status_6"@[3] == 't' && "status_6"@[4] == 'u' && "status_6"@[5] == 's' && "status_6"@[6] == '_' && "status_6"@[7] == '6',
        "status_7"@.len() == 8 && "status_7"@[0] == 's' && "status_7"@[1] == 't' && "status_7"@[2] == 'a' && "status_7"@[3] == 't' && "status_7"@[4] == 'u' && "status_7"@[5] == 's' && "status_7"@[6] == '_' && "status_7"@[7] == '7',
        "status_8"@.len() == 8 && "status_8"@[0] == 's' && "status_8"@[1] == 't' && "status_8"@[2] == 'a' && "status_8"@[3] == 't' && "status_8"@[4] == 'u' && "status_8"@[5] == 's' && "status_8"@[6] == '_' && "status_8"@[7] == '8',
        "status_10"@.len() == 9 && "status_10"@[0] == 's' && "status_10"@[1] == 't' && "status_10"@[2] == 'a' && "status_10"@[3] == 't' && "status_10"@[4] == 'u' && "status_10"@[5] == 's' && "status_10"@[6] == '_' && "status_10"@[7] == '1' && "status_10"@[8] == '0',
{
    reveal_strlit("SensorId");
    reveal_strlit("DateTime");
    reveal_strlit("Geo");
    reveal_strlit("Mem");
    reveal_strlit("memfrag");
    reveal_strlit("memfb");
    reveal_strlit("memcs");
    reveal_strlit("Id");
    reveal_strlit("lat");
    reveal_strlit("lon");
    reveal_strlit("loggingrate");
    reveal_strlit("place");
    reveal_strlit("version");
    reveal_strlit("uptime");
    reveal_strlit("rssi");
    reveal_strlit("period");
    reveal_strlit("httpsuccess");
    reveal_strlit("httpsends");
    reveal_strlit("hardwareversion");
    reveal_strlit("hardwarediscovered");
    reveal_strlit("wlstate");
    reveal_strlit("ssid");
    reveal_strlit("response");
    reveal_strlit("response_date");
    reveal_strlit("Adc");
    reveal_strlit("current_temp_f");
    reveal_strlit("current_humidity");
    reveal_strlit("current_dewpoint_f");
    reveal_strlit("pressure");
    reveal_strlit("current_temp_f_680");
    reveal_strlit("current_humidity_680");
    reveal_strlit("current_dewpoint_f_680");
    reveal_strlit("pressure_680");
    reveal_strlit("gas_680");
    reveal_strlit("p25aqic_b");
    reveal_strlit("pm2.5_aqi_b");
    reveal_strlit("pm1_0_cf_1_b");
    reveal_strlit("p_0_3_um_b");
    reveal_strlit("pm2_5_cf_1_b");
    reveal_strlit("p_0_5_um_b");
    reveal_strlit("pm10_0_cf_1_b");
    reveal_strlit("p_1_0_um_b");
    reveal_strlit("pm1_0_atm_b");
    reveal_strlit("p_2_5_um_b");
    reveal_strlit("pm2_5_atm_b");
    reveal_strlit("p_5_0_um_b");
    reveal_strlit("pm10_0_atm_b");
    reveal_strlit("p_10_0_um_b");
    reveal_strlit("p25aqic");
    reveal_strlit("pm2.5_aqi");
    reveal_strlit("pm1_0_cf_1");
    reveal_strlit("p_0_3_um");
    reveal_strlit("pm2_5_cf_1");
    reveal_strlit("p_0_5_um");
    reveal_strlit("pm10_0_cf_1");
    reveal_strlit("p_1_0_um");
    reveal_strlit("pm1_0_atm");
    reveal_strlit("p_2_5_um");
    reveal_strlit("pm2_5_atm");
    reveal_strlit("p_5_0_um");
    reveal_strlit("pm10_0_atm");
    reveal_strlit("p_10_0_um");
    reveal_strlit("status_0");
    reveal_strlit("status_1");
    reveal_strlit("status_2");
    reveal_strlit("status_3");
    reveal_strlit("status_4");
    reveal_strlit("status_5");
    reveal_strlit("status_6");
    reveal_strlit("status_7");
    reveal_strlit("status_8");
    reveal_strlit("status_10");
}

/// What the search for a missing mandatory key finds: a mandatory key that
/// the document lacks, or that it lacks none from `from` on.
proof fn lemma_first_missing_from(doc: Members, from: int)
    requires
        0 <= from <= MANDATORY_KEYS@.len(),
    ensures
        match first_missing_from(doc, from) {
            Some(key) => is_mandatory(key) && !doc.contains_key(key),
            None => forall|i: int|
                #![trigger MANDATORY_KEYS@[i]]
                from <= i < MANDATORY_KEYS@.len() ==> doc.contains_key(MANDATORY_KEYS@[i]@),
        },
    decreases MANDATORY_KEYS@.len() - from,
{
    if from < MANDATORY_KEYS@.len() {
        lemma_first_missing_from(doc, from + 1);
    }
}

/// How the mandatory keys are called, one by one.
proof fn lemma_mandatory_key_names(i: int)
    requires
        0 <= i < MANDATORY_KEYS@.len(),
    ensures
        i == 0 ==> MANDATORY_KEYS@[i]@ == "SensorId"@,
        i == 1 ==> MANDATORY_KEYS@[i]@ == "DateTime"@,
        i == 2 ==> MANDATORY_KEYS@[i]@ == "Geo"@,
        i == 3 ==> MANDATORY_KEYS@[i]@ == "Mem"@,
        i == 4 ==> MANDATORY_KEYS@[i]@ == "memfrag"@,
        i == 5 ==> MANDATORY_KEYS@[i]@ == "memfb"@,
        i == 6 ==> MANDATORY_KEYS@[i]@ == "memcs"@,
        i == 7 ==> MANDATORY_KEYS@[i]@ == "Id"@,
        i == 8 ==> MANDATORY_KEYS@[i]@ == "lat"@,
        i == 9 ==> MANDATORY_KEYS@[i]@ == "lon"@,
        i == 10 ==> MANDATORY_KEYS@[i]@ == "loggingrate"@,
        i == 11 ==> MANDATORY_KEYS@[i]@ == "place"@,
        i == 12 ==> MANDATORY_KEYS@[i]@ == "version"@,
        i == 13 ==> MANDATORY_KEYS@[i]@ == "uptime"@,
        i == 14 ==> MANDATORY_KEYS@[i]@ == "rssi"@,
        i == 15 ==> MANDATORY_KEYS@[i]@ == "period"@,
        i == 16 ==> MANDATORY_KEYS@[i]@ == "httpsuccess"@,
        i == 17 ==> MANDATORY_KEYS@[i]@ == "httpsends"@,
        i == 18 ==> MANDATORY_KEYS@[i]@ == "hardwareversion"@,
        i == 19 ==> MANDATORY_KEYS@[i]@ == "hardwarediscovered"@,
        i == 20 ==> MANDATORY_KEYS@[i]@ == "wlstate"@,
        i == 21 ==> MANDATORY_KEYS@[i]@ == "ssid"@,
        i == 22 ==> MANDATORY_KEYS@[i]@ == "Adc"@,
        i == 23 ==> MANDATORY_KEYS@[i]@ == "status_0"@,
        i == 24 ==> MANDATORY_KEYS@[i]@ == "status_1"@,
        i == 25 ==> MANDATORY_KEYS@[i]@ == "status_2"@,
        i == 26 ==> MANDATORY_KEYS@[i]@ == "status_3"@,
        i == 27 ==> MANDATORY_KEYS@[i]@ == "status_4"@,
        i == 28 ==> MANDATORY_KEYS@[i]@ == "status_5"@,
        i == 29 ==> MANDATORY_KEYS@[i]@ == "status_7"@,
        i == 30 ==> MANDATORY_KEYS@[i]@ == "status_8"@,
{
}

/// Every mandatory key is a key of the schema, and none belongs to a
/// particulate-matter channel.
pub proof fn lemma_mandatory_keys_are_schema_keys(key: Seq<char>)
    requires
        is_mandatory(key),
    ensures
        is_schema_key(key),
        !is_channel_key(key),
{
    lemma_keys_spelled();
    let i = choose|i: int|
        #![trigger MANDATORY_KEYS@[i]]
        0 <= i < MANDATORY_KEYS@.len() && MANDATORY_KEYS@[i]@ == key;
    lemma_mandatory_key_names(i);
}

/// A document that has every mandatory key has each of them under its name.
proof fn lemma_all_mandatory_present(doc: Members)
    requires
        first_missing(doc).is_none(),
    ensures
        doc.contains_key("SensorId"@),
        doc.contains_key("DateTime"@),
        doc.contains_key("Geo"@),
        doc.contains_key("Mem"@),
        doc.contains_key("memfrag"@),
        doc.contains_key("memfb"@),
        doc.contains_key("memcs"@),
        doc.contains_key("Id"@),
        doc.contains_key("lat"@),
        doc.contains_key("lon"@),
        doc.contains_key("loggingrate"@),
        doc.contains_key("place"@),
        doc.contains_key("version"@),
        doc.contains_key("uptime"@),
        doc.contains_key("rssi"@),
        doc.contains_key("period"@),
        doc.contains_key("httpsuccess"@),
        doc.contains_key("httpsends"@),
        doc.contains_key("hardwareversion"@),
        doc.contains_key("hardwarediscovered"@),
        doc.contains_key("wlstate"@),
        doc.contains_key("ssid"@),
        doc.contains_key("Adc"@),
        doc.contains_key("status_0"@),
        doc.contains_key("status_1"@),
        doc.contains_key("status_2"@),
        doc.contains_key("status_3"@),
        doc.contains_key("status_4"@),
        doc.contains_key("status_5"@),
        doc.contains_key("status_7"@),
        doc.contains_key("status_8"@),
{
    lemma_first_missing_from(doc, 0);
    lemma_mandatory_key_names(0);
    lemma_mandatory_key_names(1);
    lemma_mandatory_key_names(2);
    lemma_mandatory_key_names(3);
    lemma_mandatory_key_names(4);
    lemma_mandatory_key_names(5);
    lemma_mandatory_key_names(6);
    lemma_mandatory_key_names(7);
    lemma_mandatory_key_names(8);
    lemma_mandatory_key_names(9);
    lemma_mandatory_key_names(10);
    lemma_mandatory_key_names(11);
    lemma_mandatory_key_names(12);
    lemma_mandatory_key_names(13);
    lemma_mandatory_key_names(14);
    lemma_mandatory_key_names(15);
    lemma_mandatory_key_names(16);
    lemma_mandatory_key_names(17);
    lemma_mandatory_key_names(18);
    lemma_mandatory_key_names(19);
    lemma_mandatory_key_names(20);
    lemma_mandatory_key_names(21);
    lemma_mandatory_key_names(22);
    lemma_mandatory_key_names(23);
    lemma_mandatory_key_names(24);
    lemma_mandatory_key_names(25);
    lemma_mandatory_key_names(26);
    lemma_mandatory_key_names(27);
    lemma_mandatory_key_names(28);
    lemma_mandatory_key_names(29);
    lemma_mandatory_key_names(30);
}

/// A document that has each mandatory key under its name lacks none.
proof fn lemma_no_mandatory_missing(doc: Members)
    requires
        doc.contains_key("SensorId"@),
        doc.contains_key("DateTime"@),
        doc.contains_key("Geo"@),
        doc.contains_key("Mem"@),
        doc.contains_key("memfrag"@),
        doc.contains_key("memfb"@),
        doc.contains_key("memcs"@),
        doc.contains_key("Id"@),
        doc.contains_key("lat"@),
        doc.contains_key("lon"@),
        doc.contains_key("loggingrate"@),
        doc.contains_key("place"@),
        doc.contains_key("version"@),
        doc.contains_key("uptime"@),
        doc.contains_key("rssi"@),
        doc.contains_key("period"@),
        doc.contains_key("httpsuccess"@),
        doc.contains_key("httpsends"@),
        doc.contains_key("hardwareversion"@),
        doc.contains_key("hardwarediscovered"@),
        doc.contains_key("wlstate"@),
        doc.contains_key("ssid"@),
        doc.contains_key("Adc"@),
        doc.contains_key("status_0"@),
        doc.contains_key("status_1"@),
        doc.contains_key("status_2"@),
        doc.contains_key("status_3"@),
        doc.contains_key("status_4"@),
        doc.contains_key("status_5"@),
        doc.contains_key("status_7"@),
        doc.contains_key("status_8"@),
    ensures
        first_missing(doc).is_none(),
{
    lemma_first_missing_from(doc, 0);
    if let Some(key) = first_missing(doc) {
        let i = choose|i: int|
            #![trigger MANDATORY_KEYS@[i]]
            0 <= i < MANDATORY_KEYS@.len() && MANDATORY_KEYS@[i]@ == key;
        lemma_mandatory_key_names(i);
    }
}

/// A document that lacks a mandatory key does not decode: it fails with a
/// schema violation that names a mandatory key that is missing.
pub proof fn lemma_missing_mandatory_key(doc: Members, key: Seq<char>)
    requires
        is_mandatory(key),
        !doc.contains_key(key),
    ensures
        decoded_document(doc) matches Err(SensorErrorView::SchemaViolation { field, reason })
            && reason == Reason::Missing && is_mandatory(field) && !doc.contains_key(field),
{
    lemma_first_missing_from(doc, 0);
}

/// Decoding says that a field is missing only of a mandatory key that the
/// document lacks.
pub proof fn lemma_missing_means_missing(doc: Members, field: Seq<char>)
    requires
        decoded_document(doc) == Err::<LocalSensorDataView, _>(
            SensorErrorView::SchemaViolation { field, reason: Reason::Missing },
        ),
    ensures
        is_mandatory(field),
        !doc.contains_key(field),
{
    lemma_first_missing_from(doc, 0);
    if first_missing(doc).is_none() {
        lemma_all_mandatory_present(doc);
    }
}

/// Two documents that have the same mandatory keys lack the same first
/// one.
proof fn lemma_first_missing_agrees(a: Members, b: Members, from: int)
    requires
        0 <= from <= MANDATORY_KEYS@.len(),
        forall|i: int|
            #![trigger MANDATORY_KEYS@[i]]
            0 <= i < MANDATORY_KEYS@.len() ==> a.contains_key(MANDATORY_KEYS@[i]@)
                == b.contains_key(MANDATORY_KEYS@[i]@),
    ensures
        first_missing_from(a, from) == first_missing_from(b, from),
    decreases MANDATORY_KEYS@.len() - from,
{
    if from < MANDATORY_KEYS@.len() {
        lemma_first_missing_agrees(a, b, from + 1);
    }
}

/// Two documents that agree on the schema lack the same first mandatory
/// key.
proof fn lemma_agreeing_documents_miss_alike(a: Members, b: Members)
    requires
        agree_on_schema(a, b),
    ensures
        first_missing(a) == first_missing(b),
{
    assert forall|i: int| 0 <= i < MANDATORY_KEYS@.len() implies a.contains_key(
        #[trigger] MANDATORY_KEYS@[i]@,
    ) == b.contains_key(MANDATORY_KEYS@[i]@) by {
        lemma_mandatory_key_names(i);
        assert(member(a, MANDATORY_KEYS@[i]@) == member(b, MANDATORY_KEYS@[i]@));
    }
    lemma_first_missing_agrees(a, b, 0);
}

/// Whether reading each field gives the same of both documents.
spec fn read_alike(a: Members, b: Members) -> bool {
    &&& required_text(a, "SensorId"@) == required_text(b, "SensorId"@)
    &&& required_timestamp(a, "DateTime"@) == required_timestamp(b, "DateTime"@)
    &&& required_text(a, "Geo"@) == required_text(b, "Geo"@)
    &&& required_unsigned(a, "Mem"@) == required_unsigned(b, "Mem"@)
    &&& required_unsigned(a, "memfrag"@) == required_unsigned(b, "memfrag"@)
    &&& required_unsigned(a, "memfb"@) == required_unsigned(b, "memfb"@)
    &&& required_unsigned(a, "memcs"@) == required_unsigned(b, "memcs"@)
    &&& required_unsigned(a, "Id"@) == required_unsigned(b, "Id"@)
    &&& required_real(a, "lat"@) == required_real(b, "lat"@)
    &&& required_real(a, "lon"@) == required_real(b, "lon"@)
    &&& required_unsigned(a, "loggingrate"@) == required_unsigned(b, "loggingrate"@)
    &&& required_text(a, "place"@) == required_text(b, "place"@)
    &&& required_text(a, "version"@) == required_text(b, "version"@)
    &&& required_unsigned(a, "uptime"@) == required_unsigned(b, "uptime"@)
    &&& required_signed(a, "rssi"@) == required_signed(b, "rssi"@)
    &&& required_count(a, "period"@) == required_count(b, "period"@)
    &&& required_unsigned(a, "httpsuccess"@) == required_unsigned(b, "httpsuccess"@)
    &&& required_unsigned(a, "httpsends"@) == required_unsigned(b, "httpsends"@)
    &&& required_text(a, "hardwareversion"@) == required_text(b, "hardwareversion"@)
    &&& required_text(a, "hardwarediscovered"@) == required_text(b, "hardwarediscovered"@)
    &&& required_text(a, "wlstate"@) == required_text(b, "wlstate"@)
    &&& required_text(a, "ssid"@) == required_text(b, "ssid"@)
    &&& optional_text(a, "response"@) == optional_text(b, "response"@)
    &&& optional_text(a, "response_date"@) == optional_text(b, "response_date"@)
    &&& required_real(a, "Adc"@) == required_real(b, "Adc"@)
    &&& optional_unsigned(a, "current_temp_f"@) == optional_unsigned(b, "current_temp_f"@)
    &&& optional_unsigned(a, "current_humidity"@) == optional_unsigned(b, "current_humidity"@)
    &&& optional_unsigned(a, "current_dewpoint_f"@) == optional_unsigned(b, "current_dewpoint_f"@)
    &&& optional_real(a, "pressure"@) == optional_real(b, "pressure"@)
    &&& optional_real(a, "current_temp_f_680"@) == optional_real(b, "current_temp_f_680"@)
    &&& optional_real(a, "current_humidity_680"@) == optional_real(b, "current_humidity_680"@)
    &&& optional_real(a, "current_dewpoint_f_680"@) == optional_real(b, "current_dewpoint_f_680"@)
    &&& optional_real(a, "pressure_680"@) == optional_real(b, "pressure_680"@)
    &&& optional_real(a, "gas_680"@) == optional_real(b, "gas_680"@)
    &&& optional_text(a, "p25aqic_b"@) == optional_text(b, "p25aqic_b"@)
    &&& optional_real(a, "pm2.5_aqi_b"@) == optional_real(b, "pm2.5_aqi_b"@)
    &&& optional_real(a, "pm1_0_cf_1_b"@) == optional_real(b, "pm1_0_cf_1_b"@)
    &&& optional_real(a, "p_0_3_um_b"@) == optional_real(b, "p_0_3_um_b"@)
    &&& optional_real(a, "pm2_5_cf_1_b"@) == optional_real(b, "pm2_5_cf_1_b"@)
    &&& optional_real(a, "p_0_5_um_b"@) == optional_real(b, "p_0_5_um_b"@)
    &&& optional_real(a, "pm10_0_cf_1_b"@) == optional_real(b, "pm10_0_cf_1_b"@)
    &&& optional_real(a, "p_1_0_um_b"@) == optional_real(b, "p_1_0_um_b"@)
    &&& optional_real(a, "pm1_0_atm_b"@) == optional_real(b, "pm1_0_atm_b"@)
    &&& optional_real(a, "p_2_5_um_b"@) == optional_real(b, "p_2_5_um_b"@)
    &&& optional_real(a, "pm2_5_atm_b"@) == optional_real(b, "pm2_5_atm_b"@)
    &&& optional_real(a, "p_5_0_um_b"@) == optional_real(b, "p_5_0_um_b"@)
    &&& optional_real(a, "pm10_0_atm_b"@) == optional_real(b, "pm10_0_atm_b"@)
    &&& optional_real(a, "p_10_0_um_b"@) == optional_real(b, "p_10_0_um_b"@)
    &&& optional_text(a, "p25aqic"@) == optional_text(b, "p25aqic"@)
    &&& optional_real(a, "pm2.5_aqi"@) == optional_real(b, "pm2.5_aqi"@)
    &&& optional_real(a, "pm1_0_cf_1"@) == optional_real(b, "pm1_0_cf_1"@)
    &&& optional_real(a, "p_0_3_um"@) == optional_real(b, "p_0_3_um"@)
    &&& optional_real(a, "pm2_5_cf_1"@) == optional_real(b, "pm2_5_cf_1"@)
    &&& optional_real(a, "p_0_5_um"@) == optional_real(b, "p_0_5_um"@)
    &&& optional_real(a, "pm10_0_cf_1"@) == optional_real(b, "pm10_0_cf_1"@)
    &&& optional_real(a, "p_1_0_um"@) == optional_real(b, "p_1_0_um"@)
    &&& optional_real(a, "pm1_0_atm"@) == optional_real(b, "pm1_0_atm"@)
    &&& optional_real(a, "p_2_5_um"@) == optional_real(b, "p_2_5_um"@)
    &&& optional_real(a, "pm2_5_atm"@) == optional_real(b, "pm2_5_atm"@)
    &&& optional_real(a, "p_5_0_um"@) == optional_real(b, "p_5_0_um"@)
    &&& optional_real(a, "pm10_0_atm"@) == optional_real(b, "pm10_0_atm"@)
    &&& optional_real(a, "p_10_0_um"@) == optional_real(b, "p_10_0_um"@)
    &&& required_status(a, "status_0"@) == required_status(b, "status_0"@)
    &&& required_status(a, "status_1"@) == required_status(b, "status_1"@)
    &&& required_status(a, "status_2"@) == required_status(b, "status_2"@)
    &&& required_status(a, "status_3"@) == required_status(b, "status_3"@)
    &&& required_status(a, "status_4"@) == required_status(b, "status_4"@)
    &&& required_status(a, "status_5"@) == required_status(b, "status_5"@)
    &&& optional_status(a, "status_6"@) == optional_status(b, "status_6"@)
    &&& required_status(a, "status_7"@) == required_status(b, "status_7"@)
    &&& required_status(a, "status_8"@) == required_status(b, "status_8"@)
    &&& optional_status(a, "status_10"@) == optional_status(b, "status_10"@)
}

/// Two documents that hold the same under one key read alike there,
/// whatever the field is read as.
proof fn lemma_reads_alike_at(a: Members, b: Members, key: Seq<char>)
    requires
        member(a, key) == member(b, key),
    ensures
        required_text(a, key) == required_text(b, key),
        optional_text(a, key) == optional_text(b, key),
        required_unsigned(a, key) == required_unsigned(b, key),
        optional_unsigned(a, key) == optional_unsigned(b, key),
        required_count(a, key) == required_count(b, key),
        required_signed(a, key) == required_signed(b, key),
        required_real(a, key) == required_real(b, key),
        optional_real(a, key) == optional_real(b, key),
        required_status(a, key) == required_status(b, key),
        optional_status(a, key) == optional_status(b, key),
        required_timestamp(a, key) == required_timestamp(b, key),
{
}

/// Two documents that agree on the schema read alike, field by field.
proof fn lemma_agreeing_documents_read_alike(a: Members, b: Members)
    requires
        agree_on_schema(a, b),
    ensures
        read_alike(a, b),
{
    lemma_reads_alike_at(a, b, "SensorId"@);
    lemma_reads_alike_at(a, b, "DateTime"@);
    lemma_reads_alike_at(a, b, "Geo"@);
    lemma_reads_alike_at(a, b, "Mem"@);
    lemma_reads_alike_at(a, b, "memfrag"@);
    lemma_reads_alike_at(a, b, "memfb"@);
    lemma_reads_alike_at(a, b, "memcs"@);
    lemma_reads_alike_at(a, b, "Id"@);
    lemma_reads_alike_at(a, b, "lat"@);
    lemma_reads_alike_at(a, b, "lon"@);
    lemma_reads_alike_at(a, b, "loggingrate"@);
    lemma_reads_alike_at(a, b, "place"@);
    lemma_reads_alike_at(a, b, "version"@);
    lemma_reads_alike_at(a, b, "uptime"@);
    lemma_reads_alike_at(a, b, "rssi"@);
    lemma_reads_alike_at(a, b, "period"@);
    lemma_reads_alike_at(a, b, "httpsuccess"@);
    lemma_reads_alike_at(a, b, "httpsends"@);
    lemma_reads_alike_at(a, b, "hardwareversion"@);
    lemma_reads_alike_at(a, b, "hardwarediscovered"@);
    lemma_reads_alike_at(a, b, "wlstate"@);
    lemma_reads_alike_at(a, b, "ssid"@);
    lemma_reads_alike_at(a, b, "response"@);
    lemma_reads_alike_at(a, b, "response_date"@);
    lemma_reads_alike_at(a, b, "Adc"@);
    lemma_reads_alike_at(a, b, "current_temp_f"@);
    lemma_reads_alike_at(a, b, "current_humidity"@);
    lemma_reads_alike_at(a, b, "current_dewpoint_f"@);
    lemma_reads_alike_at(a, b, "pressure"@);
    lemma_reads_alike_at(a, b, "current_temp_f_680"@);
    lemma_reads_alike_at(a, b, "current_humidity_680"@);
    lemma_reads_alike_at(a, b, "current_dewpoint_f_680"@);
    lemma_reads_alike_at(a, b, "pressure_680"@);
    lemma_reads_alike_at(a, b, "gas_680"@);
    lemma_reads_alike_at(a, b, "p25aqic_b"@);
    lemma_reads_alike_at(a, b, "pm2.5_aqi_b"@);
    lemma_reads_alike_at(a, b, "pm1_0_cf_1_b"@);
    lemma_reads_alike_at(a, b, "p_0_3_um_b"@);
    lemma_reads_alike_at(a, b, "pm2_5_cf_1_b"@);
    lemma_reads_alike_at(a, b, "p_0_5_um_b"@);
    lemma_reads_alike_at(a, b, "pm10_0_cf_1_b"@);
    lemma_reads_alike_at(a, b, "p_1_0_um_b"@);
    lemma_reads_alike_at(a, b, "pm1_0_atm_b"@);
    lemma_reads_alike_at(a, b, "p_2_5_um_b"@);
    lemma_reads_alike_at(a, b, "pm2_5_atm_b"@);
    lemma_reads_alike_at(a, b, "p_5_0_um_b"@);
    lemma_reads_alike_at(a, b, "pm10_0_atm_b"@);
    lemma_reads_alike_at(a, b, "p_10_0_um_b"@);
    lemma_reads_alike_at(a, b, "p25aqic"@);
    lemma_reads_alike_at(a, b, "pm2.5_aqi"@);
    lemma_reads_alike_at(a, b, "pm1_0_cf_1"@);
    lemma_reads_alike_at(a, b, "p_0_3_um"@);
    lemma_reads_alike_at(a, b, "pm2_5_cf_1"@);
    lemma_reads_alike_at(a, b, "p_0_5_um"@);
    lemma_reads_alike_at(a, b, "pm10_0_cf_1"@);
    lemma_reads_alike_at(a, b, "p_1_0_um"@);
    lemma_reads_alike_at(a, b, "pm1_0_atm"@);
    lemma_reads_alike_at(a, b, "p_2_5_um"@);
    lemma_reads_alike_at(a, b, "pm2_5_atm"@);
    lemma_reads_alike_at(a, b, "p_5_0_um"@);
    lemma_reads_alike_at(a, b, "pm10_0_atm"@);
    lemma_reads_alike_at(a, b, "p_10_0_um"@);
    lemma_reads_alike_at(a, b, "status_0"@);
    lemma_reads_alike_at(a, b, "status_1"@);
    lemma_reads_alike_at(a, b, "status_2"@);
    lemma_reads_alike_at(a, b, "status_3"@);
    lemma_reads_alike_at(a, b, "status_4"@);
    lemma_reads_alike_at(a, b, "status_5"@);
    lemma_reads_alike_at(a, b, "status_6"@);
    lemma_reads_alike_at(a, b, "status_7"@);
    lemma_reads_alike_at(a, b, "status_8"@);
    lemma_reads_alike_at(a, b, "status_10"@);
}

/// Two documents that read alike have the same first fault.
proof fn lemma_alike_documents_fail_alike(a: Members, b: Members)
    requires
        read_alike(a, b),
    ensures
        first_fault(a) == first_fault(b),
{
    if let Err(e) = required_text(a, "SensorId"@) {
        assert(first_fault(a) == Some(e));
        assert(first_fault(b) == Some(e));
    } else if let Err(e) = required_timestamp(a, "DateTime"@) {
        assert(first_fault(a) == Some(e));
        assert(first_fault(b) == Some(e));
    } else if let Err(e) = required_text(a, "Geo"@) {
        assert(first_fault(a) == Some(e));
        assert(first_fault(b) == Some(e));
    } else if let Err(e) = required_unsigned(a, "Mem"@) {
        assert(first_fault(a) == Some(e));
        assert(first_fault(b) == Some(e));
    } else if let Err(e) = required_unsigned(a, "memfrag"@) {
        assert(first_fault(a) == Some(e));
        assert(first_fault(b) == Some(e));
    } else if let Err(e) = required_unsigned(a, "memfb"@) {
        assert(first_fault(a) == Some(e));
        assert(first_fault(b) == Some(e));
    } else if let Err(e) = required_unsigned(a, "memcs"@) {
        assert(first_fault(a) == Some(e));
        assert(first_fault(b) == Some(e));
    } else if let Err(e) = required_unsigned(a, "Id"@) {
        assert(first_fault(a) == Some(e));
        assert(first_fault(b) == Some(e));
    } else if let Err(e) = required_real(a, "lat"@) {
        assert(first_fault(a) == Some(e));
        assert(first_fault(b) == Some(e));
    } else if let Err(e) = required_real(a, "lon"@) {
        assert(first_fault(a) == Some(e));
        assert(first_fault(b) == Some(e));
    } else if let Err(e) = required_unsigned(a, "loggingrate"@) {
        assert(first_fault(a) == Some(e));
        assert(first_fault(b) == Some(e));
    } else if let Err(e) = required_text(a, "place"@) {
        assert(first_fault(a) == Some(e));
        assert(first_fault(b) == Some(e));
    } else if let Err(e) = required_text(a, "version"@) {
        assert(first_fault(a) == Some(e));
        assert(first_fault(b) == Some(e));
    } else if let Err(e) = required_unsigned(a, "uptime"@) {
        assert(first_fault(a) == Some(e));
        assert(first_fault(b) == Some(e));
    } else if let Err(e) = required_signed(a, "rssi"@) {
        assert(first_fault(a) == Some(e));
        assert(first_fault(b) == Some(e));
    } else if let Err(e) = required_count(a, "period"@) {
        assert(first_fault(a) == Some(e));
        assert(first_fault(b) == Some(e));
    } else if let Err(e) = required_unsigned(a, "httpsuccess"@) {
        assert(first_fault(a) == Some(e));
        assert(first_fault(b) == Some(e));
    } else if let Err(e) = required_unsigned(a, "httpsends"@) {
        assert(first_fault(a) == Some(e));
        assert(first_fault(b) == Some(e));
    } else if let Err(e) = required_text(a, "hardwareversion"@) {
        assert(first_fault(a) == Some(e));
        assert(first_fault(b) == Some(e));
    } else if let Err(e) = required_text(a, "hardwarediscovered"@) {
        assert(first_fault(a) == Some(e));
        assert(first_fault(b) == Some(e));
    } else if let Err(e) = required_text(a, "wlstate"@) {
        assert(first_fault(a) == Some(e));
        assert(first_fault(b) == Some(e));
    } else if let Err(e) = required_text(a, "ssid"@) {
        assert(first_fault(a) == Some(e));
        assert(first_fault(b) == Some(e));
    } else if let Err(e) = optional_text(a, "response"@) {
        assert(first_fault(a) == Some(e));
        assert(first_fault(b) == Some(e));
    } else if let Err(e) = optional_text(a, "response_date"@) {
        assert(first_fault(a) == Some(e));
        assert(first_fault(b) == Some(e));
    } else if let Err(e) = required_real(a, "Adc"@) {
        assert(first_fault(a) == Some(e));
        assert(first_fault(b) == Some(e));
    } else if let Err(e) = optional_unsigned(a, "current_temp_f"@) {
        assert(first_fault(a) == Some(e));
        assert(first_fault(b) == Some(e));
    } else if let Err(e) = optional_unsigned(a, "current_humidity"@) {
        assert(first_fault(a) == Some(e));
        assert(first_fault(b) == Some(e));
    } else if let Err(e) = optional_unsigned(a, "current_dewpoint_f"@) {
        assert(first_fault(a) == Some(e));
        assert(first_fault(b) == Some(e));
    } else if let Err(e) = optional_real(a, "pressure"@) {
        assert(first_fault(a) == Some(e));
        assert(first_fault(b) == Some(e));
    } else if let Err(e) = optional_real(a, "current_temp_f_680"@) {
        assert(first_fault(a) == Some(e));
        assert(first_fault(b) == Some(e));
    } else if let Err(e) = optional_real(a, "current_humidity_680"@) {
        assert(first_fault(a) == Some(e));
        assert(first_fault(b) == Some(e));
    } else if let Err(e) = optional_real(a, "current_dewpoint_f_680"@) {
        assert(first_fault(a) == Some(e));
        assert(first_fault(b) == Some(e));
    } else if let Err(e) = optional_real(a, "pressure_680"@) {
        assert(first_fault(a) == Some(e));
        assert(first_fault(b) == Some(e));
    } else if let Err(e) = optional_real(a, "gas_680"@) {
        assert(first_fault(a) == Some(e));
        assert(first_fault(b) == Some(e));
    } else if let Err(e) = optional_text(a, "p25aqic_b"@) {
        assert(first_fault(a) == Some(e));
        assert(first_fault(b) == Some(e));
    } else if let Err(e) = optional_real(a, "pm2.5_aqi_b"@) {
        assert(first_fault(a) == Some(e));
        assert(first_fault(b) == Some(e));
    } else if let Err(e) = optional_real(a, "pm1_0_cf_1_b"@) {
        assert(first_fault(a) == Some(e));
        assert(first_fault(b) == Some(e));
    } else if let Err(e) = optional_real(a, "p_0_3_um_b"@) {
        assert(first_fault(a) == Some(e));
        assert(first_fault(b) == Some(e));
    } else if let Err(e) = optional_real(a, "pm2_5_cf_1_b"@) {
        assert(first_fault(a) == Some(e));
        assert(first_fault(b) == Some(e));
    } else if let Err(e) = optional_real(a, "p_0_5_um_b"@) {
        assert(first_fault(a) == Some(e));
        assert(first_fault(b) == Some(e));
    } else if let Err(e) = optional_real(a, "pm10_0_cf_1_b"@) {
        assert(first_fault(a) == Some(e));
        assert(first_fault(b) == Some(e));
    } else if let Err(e) = optional_real(a, "p_1_0_um_b"@) {
        assert(first_fault(a) == Some(e));
        assert(first_fault(b) == Some(e));
    } else if let Err(e) = optional_real(a, "pm1_0_atm_b"@) {
        assert(first_fault(a) == Some(e));
        assert(first_fault(b) == Some(e));
    } else if let Err(e) = optional_real(a, "p_2_5_um_b"@) {
        assert(first_fault(a) == Some(e));
        assert(first_fault(b) == Some(e));
    } else if let Err(e) = optional_real(a, "pm2_5_atm_b"@) {
        assert(first_fault(a) == Some(e));
        assert(first_fault(b) == Some(e));
    } else if let Err(e) = optional_real(a, "p_5_0_um_b"@) {
        assert(first_fault(a) == Some(e));
        assert(first_fault(b) == Some(e));
    } else if let Err(e) = optional_real(a, "pm10_0_atm_b"@) {
        assert(first_fault(a) == Some(e));
        assert(first_fault(b) == Some(e));
    } else if let Err(e) = optional_real(a, "p_10_0_um_b"@) {
        assert(first_fault(a) == Some(e));
        assert(first_fault(b) == Some(e));
    } else if let Err(e) = optional_text(a, "p25aqic"@) {
        assert(first_fault(a) == Some(e));
        assert(first_fault(b) == Some(e));
    } else if let Err(e) = optional_real(a, "pm2.5_aqi"@) {
        assert(first_fault(a) == Some(e));
        assert(first_fault(b) == Some(e));
    } else if let Err(e) = optional_real(a, "pm1_0_cf_1"@) {
        assert(first_fault(a) == Some(e));
        assert(first_fault(b) == Some(e));
    } else if let Err(e) = optional_real(a, "p_0_3_um"@) {
        assert(first_fault(a) == Some(e));
        assert(first_fault(b) == Some(e));
    } else if let Err(e) = optional_real(a, "pm2_5_cf_1"@) {
        assert(first_fault(a) == Some(e));
        assert(first_fault(b) == Some(e));
    } else if let Err(e) = optional_real(a, "p_0_5_um"@) {
        assert(first_fault(a) == Some(e));
        assert(first_fault(b) == Some(e));
    } else if let Err(e) = optional_real(a, "pm10_0_cf_1"@) {
        assert(first_fault(a) == Some(e));
        assert(first_fault(b) == Some(e));
    } else if let Err(e) = optional_real(a, "p_1_0_um"@) {
        assert(first_fault(a) == Some(e));
        assert(first_fault(b) == Some(e));
    } else if let Err(e) = optional_real(a, "pm1_0_atm"@) {
        assert(first_fault(a) == Some(e));
        assert(first_fault(b) == Some(e));
    } else if let Err(e) = optional_real(a, "p_2_5_um"@) {
        assert(first_fault(a) == Some(e));
        assert(first_fault(b) == Some(e));
    } else if let Err(e) = optional_real(a, "pm2_5_atm"@) {
        assert(first_fault(a) == Some(e));
        assert(first_fault(b) == Some(e));
    } else if let Err(e) = optional_real(a, "p_5_0_um"@) {
        assert(first_fault(a) == Some(e));
        assert(first_fault(b) == Some(e));
    } else if let Err(e) = optional_real(a, "pm10_0_atm"@) {
        assert(first_fault(a) == Some(e));
        assert(first_fault(b) == Some(e));
    } else if let Err(e) = optional_real(a, "p_10_0_um"@) {
        assert(first_fault(a) == Some(e));
        assert(first_fault(b) == Some(e));
    } else if let Err(e) = required_status(a, "status_0"@) {
        assert(first_fault(a) == Some(e));
        assert(first_fault(b) == Some(e));
    } else if let Err(e) = required_status(a, "status_1"@) {
        assert(first_fault(a) == Some(e));
        assert(first_fault(b) == Some(e));
    } else if let Err(e) = required_status(a, "status_2"@) {
        assert(first_fault(a) == Some(e));
        assert(first_fault(b) == Some(e));
    } else if let Err(e) = required_status(a, "status_3"@) {
        assert(first_fault(a) == Some(e));
        assert(first_fault(b) == Some(e));
    } else if let Err(e) = required_status(a, "status_4"@) {
        assert(first_fault(a) == Some(e));
        assert(first_fault(b) == Some(e));
    } else if let Err(e) = required_status(a, "status_5"@) {
        assert(first_fault(a) == Some(e));
        assert(first_fault(b) == Some(e));
    } else if let Err(e) = optional_status(a, "status_6"@) {
        assert(first_fault(a) == Some(e));
        assert(first_fault(b) == Some(e));
    } else if let Err(e) = required_status(a, "status_7"@) {
        assert(first_fault(a) == Some(e));
        assert(first_fault(b) == Some(e));
    } else if let Err(e) = required_status(a, "status_8"@) {
        assert(first_fault(a) == Some(e));
        assert(first_fault(b) == Some(e));
    } else if let Err(e) = optional_status(a, "status_10"@) {
        assert(first_fault(a) == Some(e));
        assert(first_fault(b) == Some(e));
    } else {
        assert(first_fault(a).is_none());
        assert(first_fault(b).is_none());
    }
}

/// Decoding looks at the keys of the schema and at no other: two documents
/// that hold the same under each of them decode alike.
pub proof fn lemma_decoding_reads_only_the_schema(a: Members, b: Members)
    requires
        agree_on_schema(a, b),
    ensures
        decoded_document(a) == decoded_document(b),
{
    lemma_agreeing_documents_miss_alike(a, b);
    lemma_agreeing_documents_read_alike(a, b);
    lemma_alike_documents_fail_alike(a, b);
    assert(assemble(a) == assemble(b));
}

/// A key that the schema does not know is ignored: with it or without it,
/// whatever it holds, the document decodes to the same.
pub proof fn lemma_unknown_key_is_ignored(doc: Members, key: Seq<char>, value: JsonValue)
    requires
        !is_schema_key(key),
    ensures
        decoded_document(doc.insert(key, value)) == decoded_document(doc),
        decoded_document(doc.remove(key)) == decoded_document(doc),
{
    assert(agree_on_schema(doc.insert(key, value), doc));
    lemma_decoding_reads_only_the_schema(doc.insert(key, value), doc);
    assert(agree_on_schema(doc.remove(key), doc));
    lemma_decoding_reads_only_the_schema(doc.remove(key), doc);
}

/// What is left under each key of the schema once the keys of the channels
/// are taken out: nothing under theirs, and under every other what was
/// there.
proof fn lemma_members_without_channels(doc: Members)
    ensures
        member(doc.remove_keys(channel_keys()), "SensorId"@) == member(doc, "SensorId"@),
        member(doc.remove_keys(channel_keys()), "DateTime"@) == member(doc, "DateTime"@),
        member(doc.remove_keys(channel_keys()), "Geo"@) == member(doc, "Geo"@),
        member(doc.remove_keys(channel_keys()), "Mem"@) == member(doc, "Mem"@),
        member(doc.remove_keys(channel_keys()), "memfrag"@) == member(doc, "memfrag"@),
        member(doc.remove_keys(channel_keys()), "memfb"@) == member(doc, "memfb"@),
        member(doc.remove_keys(channel_keys()), "memcs"@) == member(doc, "memcs"@),
        member(doc.remove_keys(channel_keys()), "Id"@) == member(doc, "Id"@),
        member(doc.remove_keys(channel_keys()), "lat"@) == member(doc, "lat"@),
        member(doc.remove_keys(channel_keys()), "lon"@) == member(doc, "lon"@),
        member(doc.remove_keys(channel_keys()), "loggingrate"@) == member(doc, "loggingrate"@),
        member(doc.remove_keys(channel_keys()), "place"@) == member(doc, "place"@),
        member(doc.remove_keys(channel_keys()), "version"@) == member(doc, "version"@),
        member(doc.remove_keys(channel_keys()), "uptime"@) == member(doc, "uptime"@),
        member(doc.remove_keys(channel_keys()), "rssi"@) == member(doc, "rssi"@),
        member(doc.remove_keys(channel_keys()), "period"@) == member(doc, "period"@),
        member(doc.remove_keys(channel_keys()), "httpsuccess"@) == member(doc, "httpsuccess"@),
        member(doc.remove_keys(channel_keys()), "httpsends"@) == member(doc, "httpsends"@),
        member(doc.remove_keys(channel_keys()), "hardwareversion"@) == member(doc, "hardwareversion"@),
        member(doc.remove_keys(channel_keys()), "hardwarediscovered"@) == member(doc, "hardwarediscovered"@),
        member(doc.remove_keys(channel_keys()), "wlstate"@) == member(doc, "wlstate"@),
        member(doc.remove_keys(channel_keys()), "ssid"@) == member(doc, "ssid"@),
        member(doc.remove_keys(channel_keys()), "response"@) == member(doc, "response"@),
        member(doc.remove_keys(channel_keys()), "response_date"@) == member(doc, "response_date"@),
        member(doc.remove_keys(channel_keys()), "Adc"@) == member(doc, "Adc"@),
        member(doc.remove_keys(channel_keys()), "current_temp_f"@) == member(doc, "current_temp_f"@),
        member(doc.remove_keys(channel_keys()), "current_humidity"@) == member(doc, "current_humidity"@),
        member(doc.remove_keys(channel_keys()), "current_dewpoint_f"@) == member(doc, "current_dewpoint_f"@),
        member(doc.remove_keys(channel_keys()), "pressure"@) == member(doc, "pressure"@),
        member(doc.remove_keys(channel_keys()), "current_temp_f_680"@) == member(doc, "current_temp_f_680"@),
        member(doc.remove_keys(channel_keys()), "current_humidity_680"@) == member(doc, "current_humidity_680"@),
        member(doc.remove_keys(channel_keys()), "current_dewpoint_f_680"@) == member(doc, "current_dewpoint_f_680"@),
        member(doc.remove_keys(channel_keys()), "pressure_680"@) == member(doc, "pressure_680"@),
        member(doc.remove_keys(channel_keys()), "gas_680"@) == member(doc, "gas_680"@),
        member(doc.remove_keys(channel_keys()), "p25aqic_b"@).is_none(),
        member(doc.remove_keys(channel_keys()), "pm2.5_aqi_b"@).is_none(),
        member(doc.remove_keys(channel_keys()), "pm1_0_cf_1_b"@).is_none(),
        member(doc.remove_keys(channel_keys()), "p_0_3_um_b"@).is_none(),
        member(doc.remove_keys(channel_keys()), "pm2_5_cf_1_b"@).is_none(),
        member(doc.remove_keys(channel_keys()), "p_0_5_um_b"@).is_none(),
        member(doc.remove_keys(channel_keys()), "pm10_0_cf_1_b"@).is_none(),
        member(doc.remove_keys(channel_keys()), "p_1_0_um_b"@).is_none(),
        member(doc.remove_keys(channel_keys()), "pm1_0_atm_b"@).is_none(),
        member(doc.remove_keys(channel_keys()), "p_2_5_um_b"@).is_none(),
        member(doc.remove_keys(channel_keys()), "pm2_5_atm_b"@).is_none(),
        member(doc.remove_keys(channel_keys()), "p_5_0_um_b"@).is_none(),
        member(doc.remove_keys(channel_keys()), "pm10_0_atm_b"@).is_none(),
        member(doc.remove_keys(channel_keys()), "p_10_0_um_b"@).is_none(),
        member(doc.remove_keys(channel_keys()), "p25aqic"@).is_none(),
        member(doc.remove_keys(channel_keys()), "pm2.5_aqi"@).is_none(),
        member(doc.remove_keys(channel_keys()), "pm1_0_cf_1"@).is_none(),
        member(doc.remove_keys(channel_keys()), "p_0_3_um"@).is_none(),
        member(doc.remove_keys(channel_keys()), "pm2_5_cf_1"@).is_none(),
        member(doc.remove_keys(channel_keys()), "p_0_5_um"@).is_none(),
        member(doc.remove_keys(channel_keys()), "pm10_0_cf_1"@).is_none(),
        member(doc.remove_keys(channel_keys()), "p_1_0_um"@).is_none(),
        member(doc.remove_keys(channel_keys()), "pm1_0_atm"@).is_none(),
        member(doc.remove_keys(channel_keys()), "p_2_5_um"@).is_none(),
        member(doc.remove_keys(channel_keys()), "pm2_5_atm"@).is_none(),
        member(doc.remove_keys(channel_keys()), "p_5_0_um"@).is_none(),
        member(doc.remove_keys(channel_keys()), "pm10_0_atm"@).is_none(),
        member(doc.remove_keys(channel_keys()), "p_10_0_um"@).is_none(),
        member(doc.remove_keys(channel_keys()), "status_0"@) == member(doc, "status_0"@),
        member(doc.remove_keys(channel_keys()), "status_1"@) == member(doc, "status_1"@),
        member(doc.remove_keys(channel_keys()), "status_2"@) == member(doc, "status_2"@),
        member(doc.remove_keys(channel_keys()), "status_3"@) == member(doc, "status_3"@),
        member(doc.remove_keys(channel_keys()), "status_4"@) == member(doc, "status_4"@),
        member(doc.remove_keys(channel_keys()), "status_5"@) == member(doc, "status_5"@),
        member(doc.remove_keys(channel_keys()), "status_6"@) == member(doc, "status_6"@),
        member(doc.remove_keys(channel_keys()), "status_7"@) == member(doc, "status_7"@),
        member(doc.remove_keys(channel_keys()), "status_8"@) == member(doc, "status_8"@),
        member(doc.remove_keys(channel_keys()), "status_10"@) == member(doc, "status_10"@),
{
    lemma_keys_spelled();
    assert(!is_channel_key("SensorId"@));
    assert(!is_channel_key("DateTime"@));
    assert(!is_channel_key("Geo"@));
    assert(!is_channel_key("Mem"@));
    assert(!is_channel_key("memfrag"@));
    assert(!is_channel_key("memfb"@));
    assert(!is_channel_key("memcs"@));
    assert(!is_channel_key("Id"@));
    assert(!is_channel_key("lat"@));
    assert(!is_channel_key("lon"@));
    assert(!is_channel_key("loggingrate"@));
    assert(!is_channel_key("place"@));
    assert(!is_channel_key("version"@));
    assert(!is_channel_key("uptime"@));
    assert(!is_channel_key("rssi"@));
    assert(!is_channel_key("period"@));
    assert(!is_channel_key("httpsuccess"@));
    assert(!is_channel_key("httpsends"@));
    assert(!is_channel_key("hardwareversion"@));
    assert(!is_channel_key("hardwarediscovered"@));
    assert(!is_channel_key("wlstate"@));
    assert(!is_channel_key("ssid"@));
    assert(!is_channel_key("response"@));
    assert(!is_channel_key("response_date"@));
    assert(!is_channel_key("Adc"@));
    assert(!is_channel_key("current_temp_f"@));
    assert(!is_channel_key("current_humidity"@));
    assert(!is_channel_key("current_dewpoint_f"@));
    assert(!is_channel_key("pressure"@));
    assert(!is_channel_key("current_temp_f_680"@));
    assert(!is_channel_key("current_humidity_680"@));
    assert(!is_channel_key("current_dewpoint_f_680"@));
    assert(!is_channel_key("pressure_680"@));
    assert(!is_channel_key("gas_680"@));
    assert(is_channel_key("p25aqic_b"@));
    assert(is_channel_key("pm2.5_aqi_b"@));
    assert(is_channel_key("pm1_0_cf_1_b"@));
    assert(is_channel_key("p_0_3_um_b"@));
    assert(is_channel_key("pm2_5_cf_1_b"@));
    assert(is_channel_key("p_0_5_um_b"@));
    assert(is_channel_key("pm10_0_cf_1_b"@));
    assert(is_channel_key("p_1_0_um_b"@));
    assert(is_channel_key("pm1_0_atm_b"@));
    assert(is_channel_key("p_2_5_um_b"@));
    assert(is_channel_key("pm2_5_atm_b"@));
    assert(is_channel_key("p_5_0_um_b"@));
    assert(is_channel_key("pm10_0_atm_b"@));
    assert(is_channel_key("p_10_0_um_b"@));
    assert(is_channel_key("p25aqic"@));
    assert(is_channel_key("pm2.5_aqi"@));
    assert(is_channel_key("pm1_0_cf_1"@));
    assert(is_channel_key("p_0_3_um"@));
    assert(is_channel_key("pm2_5_cf_1"@));
    assert(is_channel_key("p_0_5_um"@));
    assert(is_channel_key("pm10_0_cf_1"@));
    assert(is_channel_key("p_1_0_um"@));
    assert(is_channel_key("pm1_0_atm"@));
    assert(is_channel_key("p_2_5_um"@));
    assert(is_channel_key("pm2_5_atm"@));
    assert(is_channel_key("p_5_0_um"@));
    assert(is_channel_key("pm10_0_atm"@));
    assert(is_channel_key("p_10_0_um"@));
    assert(!is_channel_key("status_0"@));
    assert(!is_channel_key("status_1"@));
    assert(!is_channel_key("status_2"@));
    assert(!is_channel_key("status_3"@));
    assert(!is_channel_key("status_4"@));
    assert(!is_channel_key("status_5"@));
    assert(!is_channel_key("status_6"@));
    assert(!is_channel_key("status_7"@));
    assert(!is_channel_key("status_8"@));
    assert(!is_channel_key("status_10"@));
}

/// The fields of the two particulate-matter channels are optional, all of
/// them at once: a document that decodes still decodes when every one of
/// their keys is taken out, and to the same reading with those fields
/// empty.
pub proof fn lemma_channels_are_optional(doc: Members)
    requires
        decoded_document(doc).is_ok(),
    ensures
        decoded_document(doc.remove_keys(channel_keys())) == Ok::<_, SensorErrorView>(
            without_channels(decoded_document(doc)->Ok_0),
        ),
{
    let bare = doc.remove_keys(channel_keys());
    lemma_members_without_channels(doc);
    lemma_all_mandatory_present(doc);
    lemma_no_mandatory_missing(bare);
    assert(first_fault(doc).is_none());
    assert(required_text(bare, "SensorId"@) == required_text(doc, "SensorId"@));
    assert(required_timestamp(bare, "DateTime"@) == required_timestamp(doc, "DateTime"@));
    assert(required_text(bare, "Geo"@) == required_text(doc, "Geo"@));
    assert(required_unsigned(bare, "Mem"@) == required_unsigned(doc, "Mem"@));
    assert(required_unsigned(bare, "memfrag"@) == required_unsigned(doc, "memfrag"@));
    assert(required_unsigned(bare, "memfb"@) == required_unsigned(doc, "memfb"@));
    assert(required_unsigned(bare, "memcs"@) == required_unsigned(doc, "memcs"@));
    assert(required_unsigned(bare, "Id"@) == required_unsigned(doc, "Id"@));
    assert(required_real(bare, "lat"@) == required_real(doc, "lat"@));
    assert(required_real(bare, "lon"@) == required_real(doc, "lon"@));
    assert(required_unsigned(bare, "loggingrate"@) == required_unsigned(doc, "loggingrate"@));
    assert(required_text(bare, "place"@) == required_text(doc, "place"@));
    assert(required_text(bare, "version"@) == required_text(doc, "version"@));
    assert(required_unsigned(bare, "uptime"@) == required_unsigned(doc, "uptime"@));
    assert(required_signed(bare, "rssi"@) == required_signed(doc, "rssi"@));
    assert(required_count(bare, "period"@) == required_count(doc, "period"@));
    assert(required_unsigned(bare, "httpsuccess"@) == required_unsigned(doc, "httpsuccess"@));
    assert(required_unsigned(bare, "httpsends"@) == required_unsigned(doc, "httpsends"@));
    assert(required_text(bare, "hardwareversion"@) == required_text(doc, "hardwareversion"@));
    assert(required_text(bare, "hardwarediscovered"@) == required_text(doc, "hardwarediscovered"@));
    assert(required_text(bare, "wlstate"@) == required_text(doc, "wlstate"@));
    assert(required_text(bare, "ssid"@) == required_text(doc, "ssid"@));
    assert(optional_text(bare, "response"@) == optional_text(doc, "response"@));
    assert(optional_text(bare, "response_date"@) == optional_text(doc, "response_date"@));
    assert(required_real(bare, "Adc"@) == required_real(doc, "Adc"@));
    assert(optional_unsigned(bare, "current_temp_f"@) == optional_unsigned(doc, "current_temp_f"@));
    assert(optional_unsigned(bare, "current_humidity"@) == optional_unsigned(doc, "current_humidity"@));
    assert(optional_unsigned(bare, "current_dewpoint_f"@) == optional_unsigned(doc, "current_dewpoint_f"@));
    assert(optional_real(bare, "pressure"@) == optional_real(doc, "pressure"@));
    assert(optional_real(bare, "current_temp_f_680"@) == optional_real(doc, "current_temp_f_680"@));
    assert(optional_real(bare, "current_humidity_680"@) == optional_real(doc, "current_humidity_680"@));
    assert(optional_real(bare, "current_dewpoint_f_680"@) == optional_real(doc, "current_dewpoint_f_680"@));
    assert(optional_real(bare, "pressure_680"@) == optional_real(doc, "pressure_680"@));
    assert(optional_real(bare, "gas_680"@) == optional_real(doc, "gas_680"@));
    assert(optional_text(bare, "p25aqic_b"@) == Ok::<Option<Seq<char>>, SensorErrorView>(None));
    assert(optional_real(bare, "pm2.5_aqi_b"@) == Ok::<Option<Real>, SensorErrorView>(None));
    assert(optional_real(bare, "pm1_0_cf_1_b"@) == Ok::<Option<Real>, SensorErrorView>(None));
    assert(optional_real(bare, "p_0_3_um_b"@) == Ok::<Option<Real>, SensorErrorView>(None));
    assert(optional_real(bare, "pm2_5_cf_1_b"@) == Ok::<Option<Real>, SensorErrorView>(None));
    assert(optional_real(bare, "p_0_5_um_b"@) == Ok::<Option<Real>, SensorErrorView>(None));
    assert(optional_real(bare, "pm10_0_cf_1_b"@) == Ok::<Option<Real>, SensorErrorView>(None));
    assert(optional_real(bare, "p_1_0_um_b"@) == Ok::<Option<Real>, SensorErrorView>(None));
    assert(optional_real(bare, "pm1_0_atm_b"@) == Ok::<Option<Real>, SensorErrorView>(None));
    assert(optional_real(bare, "p_2_5_um_b"@) == Ok::<Option<Real>, SensorErrorView>(None));
    assert(optional_real(bare, "pm2_5_atm_b"@) == Ok::<Option<Real>, SensorErrorView>(None));
    assert(optional_real(bare, "p_5_0_um_b"@) == Ok::<Option<Real>, SensorErrorView>(None));
    assert(optional_real(bare, "pm10_0_atm_b"@) == Ok::<Option<Real>, SensorErrorView>(None));
    assert(optional_real(bare, "p_10_0_um_b"@) == Ok::<Option<Real>, SensorErrorView>(None));
    assert(optional_text(bare, "p25aqic"@) == Ok::<Option<Seq<char>>, SensorErrorView>(None));
    assert(optional_real(bare, "pm2.5_aqi"@) == Ok::<Option<Real>, SensorErrorView>(None));
    assert(optional_real(bare, "pm1_0_cf_1"@) == Ok::<Option<Real>, SensorErrorView>(None));
    assert(optional_real(bare, "p_0_3_um"@) == Ok::<Option<Real>, SensorErrorView>(None));
    assert(optional_real(bare, "pm2_5_cf_1"@) == Ok::<Option<Real>, SensorErrorView>(None));
    assert(optional_real(bare, "p_0_5_um"@) == Ok::<Option<Real>, SensorErrorView>(None));
    assert(optional_real(bare, "pm10_0_cf_1"@) == Ok::<Option<Real>, SensorErrorView>(None));
    assert(optional_real(bare, "p_1_0_um"@) == Ok::<Option<Real>, SensorErrorView>(None));
    assert(optional_real(bare, "pm1_0_atm"@) == Ok::<Option<Real>, SensorErrorView>(None));
    assert(optional_real(bare, "p_2_5_um"@) == Ok::<Option<Real>, SensorErrorView>(None));
    assert(optional_real(bare, "pm2_5_atm"@) == Ok::<Option<Real>, SensorErrorView>(None));
    assert(optional_real(bare, "p_5_0_um"@) == Ok::<Option<Real>, SensorErrorView>(None));
    assert(optional_real(bare, "pm10_0_atm"@) == Ok::<Option<Real>, SensorErrorView>(None));
    assert(optional_real(bare, "p_10_0_um"@) == Ok::<Option<Real>, SensorErrorView>(None));
    assert(required_status(bare, "status_0"@) == required_status(doc, "status_0"@));
    assert(required_status(bare, "status_1"@) == required_status(doc, "status_1"@));
    assert(required_status(bare, "status_2"@) == required_status(doc, "status_2"@));
    assert(required_status(bare, "status_3"@) == required_status(doc, "status_3"@));
    assert(required_status(bare, "status_4"@) == required_status(doc, "status_4"@));
    assert(required_status(bare, "status_5"@) == required_status(doc, "status_5"@));
    assert(optional_status(bare, "status_6"@) == optional_status(doc, "status_6"@));
    assert(required_status(bare, "status_7"@) == required_status(doc, "status_7"@));
    assert(required_status(bare, "status_8"@) == required_status(doc, "status_8"@));
    assert(optional_status(bare, "status_10"@) == optional_status(doc, "status_10"@));
    assert(first_fault(bare).is_none());
    assert(assemble(bare) == without_channels(assemble(doc)));
}

/// What `with` does to the members of a document.
proof fn lemma_with(doc: Members, key: Seq<char>, value: Option<JsonValue>, other: Seq<char>)
    ensures
        member(with(doc, key, value), other) == if other == key && value.is_some() {
            value
        } else {
            member(doc, other)
        },
{
    reveal(with);
}

/// What the document that spells a reading holds under `key`: what the last
/// field with that key and with something to write put there.
spec fn wire_member(s: LocalSensorDataView, stamp: Seq<char>, key: Seq<char>) -> Option<JsonValue> {
    if key == "status_10"@ && optional_status_value(s.status_for_processor_2).is_some() {
        optional_status_value(s.status_for_processor_2)
    } else if key == "status_8"@ {
        Some(status_value(s.status_tss_b))
    } else if key == "status_7"@ {
        Some(status_value(s.status_tsb))
    } else if key == "status_6"@ && optional_status_value(s.status_for_processor_1).is_some() {
        optional_status_value(s.status_for_processor_1)
    } else if key == "status_5"@ {
        Some(status_value(s.status_tss_a))
    } else if key == "status_4"@ {
        Some(status_value(s.status_tsa))
    } else if key == "status_3"@ {
        Some(status_value(s.status_paa))
    } else if key == "status_2"@ {
        Some(status_value(s.status_upd))
    } else if key == "status_1"@ {
        Some(status_value(s.status_loc))
    } else if key == "status_0"@ {
        Some(status_value(s.status_ntp))
    } else if key == "p_10_0_um"@ && optional_real_value(s.p_10_0_um).is_some() {
        optional_real_value(s.p_10_0_um)
    } else if key == "pm10_0_atm"@ && optional_real_value(s.pm10_0_atm).is_some() {
        optional_real_value(s.pm10_0_atm)
    } else if key == "p_5_0_um"@ && optional_real_value(s.p_5_0_um).is_some() {
        optional_real_value(s.p_5_0_um)
    } else if key == "pm2_5_atm"@ && optional_real_value(s.pm2_5_atm).is_some() {
        optional_real_value(s.pm2_5_atm)
    } else if key == "p_2_5_um"@ && optional_real_value(s.p_2_5_um).is_some() {
        optional_real_value(s.p_2_5_um)
    } else if key == "pm1_0_atm"@ && optional_real_value(s.pm1_0_atm).is_some() {
        optional_real_value(s.pm1_0_atm)
    } else if key == "p_1_0_um"@ && optional_real_value(s.p_1_0_um).is_some() {
        optional_real_value(s.p_1_0_um)
    } else if key == "pm10_0_cf_1"@ && optional_real_value(s.pm10_0_cf_1).is_some() {
        optional_real_value(s.pm10_0_cf_1)
    } else if key == "p_0_5_um"@ && optional_real_value(s.p_0_5_um).is_some() {
        optional_real_value(s.p_0_5_um)
    } else if key == "pm2_5_cf_1"@ && optional_real_value(s.pm2_5_cf_1).is_some() {
        optional_real_value(s.pm2_5_cf_1)
    } else if key == "p_0_3_um"@ && optional_real_value(s.p_0_3_um).is_some() {
        optional_real_value(s.p_0_3_um)
    } else if key == "pm1_0_cf_1"@ && optional_real_value(s.pm1_0_cf_1).is_some() {
        optional_real_value(s.pm1_0_cf_1)
    } else if key == "pm2.5_aqi"@ && optional_real_value(s.pm2_5_aqi).is_some() {
        optional_real_value(s.pm2_5_aqi)
    } else if key == "p25aqic"@ && optional_text_value(s.p25aqic).is_some() {
        optional_text_value(s.p25aqic)
    } else if key == "p_10_0_um_b"@ && optional_real_value(s.p_10_0_um_b).is_some() {
        optional_real_value(s.p_10_0_um_b)
    } else if key == "pm10_0_atm_b"@ && optional_real_value(s.pm10_0_atm_b).is_some() {
        optional_real_value(s.pm10_0_atm_b)
    } else if key == "p_5_0_um_b"@ && optional_real_value(s.p_5_0_um_b).is_some() {
        optional_real_value(s.p_5_0_um_b)
    } else if key == "pm2_5_atm_b"@ && optional_real_value(s.pm2_5_atm_b).is_some() {
        optional_real_value(s.pm2_5_atm_b)
    } else if key == "p_2_5_um_b"@ && optional_real_value(s.p_2_5_um_b).is_some() {
        optional_real_value(s.p_2_5_um_b)
    } else if key == "pm1_0_atm_b"@ && optional_real_value(s.pm1_0_atm_b).is_some() {
        optional_real_value(s.pm1_0_atm_b)
    } else if key == "p_1_0_um_b"@ && optional_real_value(s.p_1_0_um_b).is_some() {
        optional_real_value(s.p_1_0_um_b)
    } else if key == "pm10_0_cf_1_b"@ && optional_real_value(s.pm10_0_cf_1_b).is_some() {
        optional_real_value(s.pm10_0_cf_1_b)
    } else if key == "p_0_5_um_b"@ && optional_real_value(s.p_0_5_um_b).is_some() {
        optional_real_value(s.p_0_5_um_b)
    } else if key == "pm2_5_cf_1_b"@ && optional_real_value(s.pm2_5_cf_1_b).is_some() {
        optional_real_value(s.pm2_5_cf_1_b)
    } else if key == "p_0_3_um_b"@ && optional_real_value(s.p_0_3_um_b).is_some() {
        optional_real_value(s.p_0_3_um_b)
    } else if key == "pm1_0_cf_1_b"@ && optional_real_value(s.pm1_0_cf_1_b).is_some() {
        optional_real_value(s.pm1_0_cf_1_b)
    } else if key == "pm2.5_aqi_b"@ && optional_real_value(s.pm2_5_aqi_b).is_some() {
        optional_real_value(s.pm2_5_aqi_b)
    } else if key == "p25aqic_b"@ && optional_text_value(s.p25aqic_b).is_some() {
        optional_text_value(s.p25aqic_b)
    } else if key == "gas_680"@ && optional_real_value(s.gas_680).is_some() {
        optional_real_value(s.gas_680)
    } else if key == "pressure_680"@ && optional_real_value(s.pressure_680).is_some() {
        optional_real_value(s.pressure_680)
    } else if key == "current_dewpoint_f_680"@ && optional_real_value(s.current_dewpoint_f_680).is_some() {
        optional_real_value(s.current_dewpoint_f_680)
    } else if key == "current_humidity_680"@ && optional_real_value(s.current_humidity_680).is_some() {
        optional_real_value(s.current_humidity_680)
    } else if key == "current_temp_f_680"@ && optional_real_value(s.current_temp_f_680).is_some() {
        optional_real_value(s.current_temp_f_680)
    } else if key == "pressure"@ && optional_real_value(s.pressure).is_some() {
        optional_real_value(s.pressure)
    } else if key == "current_dewpoint_f"@ && optional_unsigned_value(s.current_dewpoint_f).is_some() {
        optional_unsigned_value(s.current_dewpoint_f)
    } else if key == "current_humidity"@ && optional_unsigned_value(s.current_humidity).is_some() {
        optional_unsigned_value(s.current_humidity)
    } else if key == "current_temp_f"@ && optional_unsigned_value(s.current_temp_f).is_some() {
        optional_unsigned_value(s.current_temp_f)
    } else if key == "Adc"@ {
        Some(real_value(s.adc))
    } else if key == "response_date"@ && optional_text_value(s.response_date).is_some() {
        optional_text_value(s.response_date)
    } else if key == "response"@ && optional_text_value(s.response).is_some() {
        optional_text_value(s.response)
    } else if key == "ssid"@ {
        Some(JsonValue::Text(s.ssid))
    } else if key == "wlstate"@ {
        Some(JsonValue::Text(s.wl_state))
    } else if key == "hardwarediscovered"@ {
        Some(JsonValue::Text(s.hardware_discovered))
    } else if key == "hardwareversion"@ {
        Some(JsonValue::Text(s.hardware_version))
    } else if key == "httpsends"@ {
        Some(unsigned_value(s.http_sends))
    } else if key == "httpsuccess"@ {
        Some(unsigned_value(s.http_success))
    } else if key == "period"@ {
        Some(unsigned_value(s.period as u64))
    } else if key == "rssi"@ {
        Some(signed_value(s.rssi))
    } else if key == "uptime"@ {
        Some(unsigned_value(s.uptime))
    } else if key == "version"@ {
        Some(JsonValue::Text(s.version))
    } else if key == "place"@ {
        Some(JsonValue::Text(s.place))
    } else if key == "loggingrate"@ {
        Some(unsigned_value(s.logging_rate))
    } else if key == "lon"@ {
        Some(real_value(s.lon))
    } else if key == "lat"@ {
        Some(real_value(s.lat))
    } else if key == "Id"@ {
        Some(unsigned_value(s.id))
    } else if key == "memcs"@ {
        Some(unsigned_value(s.memcs))
    } else if key == "memfb"@ {
        Some(unsigned_value(s.memfb))
    } else if key == "memfrag"@ {
        Some(unsigned_value(s.memfrag))
    } else if key == "Mem"@ {
        Some(unsigned_value(s.mem))
    } else if key == "Geo"@ {
        Some(JsonValue::Text(s.geo))
    } else if key == "DateTime"@ {
        Some(JsonValue::Text(stamp))
    } else if key == "SensorId"@ {
        Some(JsonValue::Text(s.sensor_id))
    } else {
        None
    }
}

/// The document that spells a reading, looked up under any key.
proof fn lemma_wire_member(s: LocalSensorDataView, stamp: Seq<char>, key: Seq<char>)
    ensures
        member(wire_document(s, stamp), key) == wire_member(s, stamp, key),
{
    let d0 = Map::<Seq<char>, JsonValue>::empty();
    assert(member(d0, key).is_none());
    let d1 = with(d0, "SensorId"@, Some(JsonValue::Text(s.sensor_id)));
    lemma_with(d0, "SensorId"@, Some(JsonValue::Text(s.sensor_id)), key);
    let d2 = with(d1, "DateTime"@, Some(JsonValue::Text(stamp)));
    lemma_with(d1, "DateTime"@, Some(JsonValue::Text(stamp)), key);
    let d3 = with(d2, "Geo"@, Some(JsonValue::Text(s.geo)));
    lemma_with(d2, "Geo"@, Some(JsonValue::Text(s.geo)), key);
    let d4 = with(d3, "Mem"@, Some(unsigned_value(s.mem)));
    lemma_with(d3, "Mem"@, Some(unsigned_value(s.mem)), key);
    let d5 = with(d4, "memfrag"@, Some(unsigned_value(s.memfrag)));
    lemma_with(d4, "memfrag"@, Some(unsigned_value(s.memfrag)), key);
    let d6 = with(d5, "memfb"@, Some(unsigned_value(s.memfb)));
    lemma_with(d5, "memfb"@, Some(unsigned_value(s.memfb)), key);
    let d7 = with(d6, "memcs"@, Some(unsigned_value(s.memcs)));
    lemma_with(d6, "memcs"@, Some(unsigned_value(s.memcs)), key);
    let d8 = with(d7, "Id"@, Some(unsigned_value(s.id)));
    lemma_with(d7, "Id"@, Some(unsigned_value(s.id)), key);
    let d9 = with(d8, "lat"@, Some(real_value(s.lat)));
    lemma_with(d8, "lat"@, Some(real_value(s.lat)), key);
    let d10 = with(d9, "lon"@, Some(real_value(s.lon)));
    lemma_with(d9, "lon"@, Some(real_value(s.lon)), key);
    let d11 = with(d10, "loggingrate"@, Some(unsigned_value(s.logging_rate)));
    lemma_with(d10, "loggingrate"@, Some(unsigned_value(s.logging_rate)), key);
    let d12 = with(d11, "place"@, Some(JsonValue::Text(s.place)));
    lemma_with(d11, "place"@, Some(JsonValue::Text(s.place)), key);
    let d13 = with(d12, "version"@, Some(JsonValue::Text(s.version)));
    lemma_with(d12, "version"@, Some(JsonValue::Text(s.version)), key);
    let d14 = with(d13, "uptime"@, Some(unsigned_value(s.uptime)));
    lemma_with(d13, "uptime"@, Some(unsigned_value(s.uptime)), key);
    let d15 = with(d14, "rssi"@, Some(signed_value(s.rssi)));
    lemma_with(d14, "rssi"@, Some(signed_value(s.rssi)), key);
    let d16 = with(d15, "period"@, Some(unsigned_value(s.period as u64)));
    lemma_with(d15, "period"@, Some(unsigned_value(s.period as u64)), key);
    let d17 = with(d16, "httpsuccess"@, Some(unsigned_value(s.http_success)));
    lemma_with(d16, "httpsuccess"@, Some(unsigned_value(s.http_success)), key);
    let d18 = with(d17, "httpsends"@, Some(unsigned_value(s.http_sends)));
    lemma_with(d17, "httpsends"@, Some(unsigned_value(s.http_sends)), key);
    let d19 = with(d18, "hardwareversion"@, Some(JsonValue::Text(s.hardware_version)));
    lemma_with(d18, "hardwareversion"@, Some(JsonValue::Text(s.hardware_version)), key);
    let d20 = with(d19, "hardwarediscovered"@, Some(JsonValue::Text(s.hardware_discovered)));
    lemma_with(d19, "hardwarediscovered"@, Some(JsonValue::Text(s.hardware_discovered)), key);
    let d21 = with(d20, "wlstate"@, Some(JsonValue::Text(s.wl_state)));
    lemma_with(d20, "wlstate"@, Some(JsonValue::Text(s.wl_state)), key);
    let d22 = with(d21, "ssid"@, Some(JsonValue::Text(s.ssid)));
    lemma_with(d21, "ssid"@, Some(JsonValue::Text(s.ssid)), key);
    let d23 = with(d22, "response"@, optional_text_value(s.response));
    lemma_with(d22, "response"@, optional_text_value(s.response), key);
    let d24 = with(d23, "response_date"@, optional_text_value(s.response_date));
    lemma_with(d23, "response_date"@, optional_text_value(s.response_date), key);
    let d25 = with(d24, "Adc"@, Some(real_value(s.adc)));
    lemma_with(d24, "Adc"@, Some(real_value(s.adc)), key);
    let d26 = with(d25, "current_temp_f"@, optional_unsigned_value(s.current_temp_f));
    lemma_with(d25, "current_temp_f"@, optional_unsigned_value(s.current_temp_f), key);
    let d27 = with(d26, "current_humidity"@, optional_unsigned_value(s.current_humidity));
    lemma_with(d26, "current_humidity"@, optional_unsigned_value(s.current_humidity), key);
    let d28 = with(d27, "current_dewpoint_f"@, optional_unsigned_value(s.current_dewpoint_f));
    lemma_with(d27, "current_dewpoint_f"@, optional_unsigned_value(s.current_dewpoint_f), key);
    let d29 = with(d28, "pressure"@, optional_real_value(s.pressure));
    lemma_with(d28, "pressure"@, optional_real_value(s.pressure), key);
    let d30 = with(d29, "current_temp_f_680"@, optional_real_value(s.current_temp_f_680));
    lemma_with(d29, "current_temp_f_680"@, optional_real_value(s.current_temp_f_680), key);
    let d31 = with(d30, "current_humidity_680"@, optional_real_value(s.current_humidity_680));
    lemma_with(d30, "current_humidity_680"@, optional_real_value(s.current_humidity_680), key);
    let d32 = with(d31, "current_dewpoint_f_680"@, optional_real_value(s.current_dewpoint_f_680));
    lemma_with(d31, "current_dewpoint_f_680"@, optional_real_value(s.current_dewpoint_f_680), key);
    let d33 = with(d32, "pressure_680"@, optional_real_value(s.pressure_680));
    lemma_with(d32, "pressure_680"@, optional_real_value(s.pressure_680), key);
    let d34 = with(d33, "gas_680"@, optional_real_value(s.gas_680));
    lemma_with(d33, "gas_680"@, optional_real_value(s.gas_680), key);
    let d35 = with(d34, "p25aqic_b"@, optional_text_value(s.p25aqic_b));
    lemma_with(d34, "p25aqic_b"@, optional_text_value(s.p25aqic_b), key);
    let d36 = with(d35, "pm2.5_aqi_b"@, optional_real_value(s.pm2_5_aqi_b));
    lemma_with(d35, "pm2.5_aqi_b"@, optional_real_value(s.pm2_5_aqi_b), key);
    let d37 = with(d36, "pm1_0_cf_1_b"@, optional_real_value(s.pm1_0_cf_1_b));
    lemma_with(d36, "pm1_0_cf_1_b"@, optional_real_value(s.pm1_0_cf_1_b), key);
    let d38 = with(d37, "p_0_3_um_b"@, optional_real_value(s.p_0_3_um_b));
    lemma_with(d37, "p_0_3_um_b"@, optional_real_value(s.p_0_3_um_b), key);
    let d39 = with(d38, "pm2_5_cf_1_b"@, optional_real_value(s.pm2_5_cf_1_b));
    lemma_with(d38, "pm2_5_cf_1_b"@, optional_real_value(s.pm2_5_cf_1_b), key);
    let d40 = with(d39, "p_0_5_um_b"@, optional_real_value(s.p_0_5_um_b));
    lemma_with(d39, "p_0_5_um_b"@, optional_real_value(s.p_0_5_um_b), key);
    let d41 = with(d40, "pm10_0_cf_1_b"@, optional_real_value(s.pm10_0_cf_1_b));
    lemma_with(d40, "pm10_0_cf_1_b"@, optional_real_value(s.pm10_0_cf_1_b), key);
    let d42 = with(d41, "p_1_0_um_b"@, optional_real_value(s.p_1_0_um_b));
    lemma_with(d41, "p_1_0_um_b"@, optional_real_value(s.p_1_0_um_b), key);
    let d43 = with(d42, "pm1_0_atm_b"@, optional_real_value(s.pm1_0_atm_b));
    lemma_with(d42, "pm1_0_atm_b"@, optional_real_value(s.pm1_0_atm_b), key);
    let d44 = with(d43, "p_2_5_um_b"@, optional_real_value(s.p_2_5_um_b));
    lemma_with(d43, "p_2_5_um_b"@, optional_real_value(s.p_2_5_um_b), key);
    let d45 = with(d44, "pm2_5_atm_b"@, optional_real_value(s.pm2_5_atm_b));
    lemma_with(d44, "pm2_5_atm_b"@, optional_real_value(s.pm2_5_atm_b), key);
    let d46 = with(d45, "p_5_0_um_b"@, optional_real_value(s.p_5_0_um_b));
    lemma_with(d45, "p_5_0_um_b"@, optional_real_value(s.p_5_0_um_b), key);
    let d47 = with(d46, "pm10_0_atm_b"@, optional_real_value(s.pm10_0_atm_b));
    lemma_with(d46, "pm10_0_atm_b"@, optional_real_value(s.pm10_0_atm_b), key);
    let d48 = with(d47, "p_10_0_um_b"@, optional_real_value(s.p_10_0_um_b));
    lemma_with(d47, "p_10_0_um_b"@, optional_real_value(s.p_10_0_um_b), key);
    let d49 = with(d48, "p25aqic"@, optional_text_value(s.p25aqic));
    lemma_with(d48, "p25aqic"@, optional_text_value(s.p25aqic), key);
    let d50 = with(d49, "pm2.5_aqi"@, optional_real_value(s.pm2_5_aqi));
    lemma_with(d49, "pm2.5_aqi"@, optional_real_value(s.pm2_5_aqi), key);
    let d51 = with(d50, "pm1_0_cf_1"@, optional_real_value(s.pm1_0_cf_1));
    lemma_with(d50, "pm1_0_cf_1"@, optional_real_value(s.pm1_0_cf_1), key);
    let d52 = with(d51, "p_0_3_um"@, optional_real_value(s.p_0_3_um));
    lemma_with(d51, "p_0_3_um"@, optional_real_value(s.p_0_3_um), key);
    let d53 = with(d52, "pm2_5_cf_1"@, optional_real_value(s.pm2_5_cf_1));
    lemma_with(d52, "pm2_5_cf_1"@, optional_real_value(s.pm2_5_cf_1), key);
    let d54 = with(d53, "p_0_5_um"@, optional_real_value(s.p_0_5_um));
    lemma_with(d53, "p_0_5_um"@, optional_real_value(s.p_0_5_um), key);
    let d55 = with(d54, "pm10_0_cf_1"@, optional_real_value(s.pm10_0_cf_1));
    lemma_with(d54, "pm10_0_cf_1"@, optional_real_value(s.pm10_0_cf_1), key);
    let d56 = with(d55, "p_1_0_um"@, optional_real_value(s.p_1_0_um));
    lemma_with(d55, "p_1_0_um"@, optional_real_value(s.p_1_0_um), key);
    let d57 = with(d56, "pm1_0_atm"@, optional_real_value(s.pm1_0_atm));
    lemma_with(d56, "pm1_0_atm"@, optional_real_value(s.pm1_0_atm), key);
    let d58 = with(d57, "p_2_5_um"@, optional_real_value(s.p_2_5_um));
    lemma_with(d57, "p_2_5_um"@, optional_real_value(s.p_2_5_um), key);
    let d59 = with(d58, "pm2_5_atm"@, optional_real_value(s.pm2_5_atm));
    lemma_with(d58, "pm2_5_atm"@, optional_real_value(s.pm2_5_atm), key);
    let d60 = with(d59, "p_5_0_um"@, optional_real_value(s.p_5_0_um));
    lemma_with(d59, "p_5_0_um"@, optional_real_value(s.p_5_0_um), key);
    let d61 = with(d60, "pm10_0_atm"@, optional_real_value(s.pm10_0_atm));
    lemma_with(d60, "pm10_0_atm"@, optional_real_value(s.pm10_0_atm), key);
    let d62 = with(d61, "p_10_0_um"@, optional_real_value(s.p_10_0_um));
    lemma_with(d61, "p_10_0_um"@, optional_real_value(s.p_10_0_um), key);
    let d63 = with(d62, "status_0"@, Some(status_value(s.status_ntp)));
    lemma_with(d62, "status_0"@, Some(status_value(s.status_ntp)), key);
    let d64 = with(d63, "status_1"@, Some(status_value(s.status_loc)));
    lemma_with(d63, "status_1"@, Some(status_value(s.status_loc)), key);
    let d65 = with(d64, "status_2"@, Some(status_value(s.status_upd)));
    lemma_with(d64, "status_2"@, Some(status_value(s.status_upd)), key);
    let d66 = with(d65, "status_3"@, Some(status_value(s.status_paa)));
    lemma_with(d65, "status_3"@, Some(status_value(s.status_paa)), key);
    let d67 = with(d66, "status_4"@, Some(status_value(s.status_tsa)));
    lemma_with(d66, "status_4"@, Some(status_value(s.status_tsa)), key);
    let d68 = with(d67, "status_5"@, Some(status_value(s.status_tss_a)));
    lemma_with(d67, "status_5"@, Some(status_value(s.status_tss_a)), key);
    let d69 = with(d68, "status_6"@, optional_status_value(s.status_for_processor_1));
    lemma_with(d68, "status_6"@, optional_status_value(s.status_for_processor_1), key);
    let d70 = with(d69, "status_7"@, Some(status_value(s.status_tsb)));
    lemma_with(d69, "status_7"@, Some(status_value(s.status_tsb)), key);
    let d71 = with(d70, "status_8"@, Some(status_value(s.status_tss_b)));
    lemma_with(d70, "status_8"@, Some(status_value(s.status_tss_b)), key);
    let d72 = with(d71, "status_10"@, optional_status_value(s.status_for_processor_2));
    lemma_with(d71, "status_10"@, optional_status_value(s.status_for_processor_2), key);
    assert(wire_document(s, stamp) == d72);
}

/// The document that spells a reading holds that reading.
proof fn lemma_wire_document_holds_reading(s: LocalSensorDataView, stamp: Seq<char>)
    ensures
        holds_reading(wire_document(s, stamp), s, stamp),
{
    lemma_keys_spelled();
    let doc = wire_document(s, stamp);
    assert(member(doc, "SensorId"@) == Some(JsonValue::Text(s.sensor_id))) by {
        lemma_wire_member(s, stamp, "SensorId"@);
    }
    assert(member(doc, "DateTime"@) == Some(JsonValue::Text(stamp))) by {
        lemma_wire_member(s, stamp, "DateTime"@);
    }
    assert(member(doc, "Geo"@) == Some(JsonValue::Text(s.geo))) by {
        lemma_wire_member(s, stamp, "Geo"@);
    }
    assert(member(doc, "Mem"@) == Some(unsigned_value(s.mem))) by {
        lemma_wire_member(s, stamp, "Mem"@);
    }
    assert(member(doc, "memfrag"@) == Some(unsigned_value(s.memfrag))) by {
        lemma_wire_member(s, stamp, "memfrag"@);
    }
    assert(member(doc, "memfb"@) == Some(unsigned_value(s.memfb))) by {
        lemma_wire_member(s, stamp, "memfb"@);
    }
    assert(member(doc, "memcs"@) == Some(unsigned_value(s.memcs))) by {
        lemma_wire_member(s, stamp, "memcs"@);
    }
    assert(member(doc, "Id"@) == Some(unsigned_value(s.id))) by {
        lemma_wire_member(s, stamp, "Id"@);
    }
    assert(member(doc, "lat"@) == Some(real_value(s.lat))) by {
        lemma_wire_member(s, stamp, "lat"@);
    }
    assert(member(doc, "lon"@) == Some(real_value(s.lon))) by {
        lemma_wire_member(s, stamp, "lon"@);
    }
    assert(member(doc, "loggingrate"@) == Some(unsigned_value(s.logging_rate))) by {
        lemma_wire_member(s, stamp, "loggingrate"@);
    }
    assert(member(doc, "place"@) == Some(JsonValue::Text(s.place))) by {
        lemma_wire_member(s, stamp, "place"@);
    }
    assert(member(doc, "version"@) == Some(JsonValue::Text(s.version))) by {
        lemma_wire_member(s, stamp, "version"@);
    }
    assert(member(doc, "uptime"@) == Some(unsigned_value(s.uptime))) by {
        lemma_wire_member(s, stamp, "uptime"@);
    }
    assert(member(doc, "rssi"@) == Some(signed_value(s.rssi))) by {
        lemma_wire_member(s, stamp, "rssi"@);
    }
    assert(member(doc, "period"@) == Some(unsigned_value(s.period as u64))) by {
        lemma_wire_member(s, stamp, "period"@);
    }
    assert(member(doc, "httpsuccess"@) == Some(unsigned_value(s.http_success))) by {
        lemma_wire_member(s, stamp, "httpsuccess"@);
    }
    assert(member(doc, "httpsends"@) == Some(unsigned_value(s.http_sends))) by {
        lemma_wire_member(s, stamp, "httpsends"@);
    }
    assert(member(doc, "hardwareversion"@) == Some(JsonValue::Text(s.hardware_version))) by {
        lemma_wire_member(s, stamp, "hardwareversion"@);
    }
    assert(member(doc, "hardwarediscovered"@) == Some(JsonValue::Text(s.hardware_discovered))) by {
        lemma_wire_member(s, stamp, "hardwarediscovered"@);
    }
    assert(member(doc, "wlstate"@) == Some(JsonValue::Text(s.wl_state))) by {
        lemma_wire_member(s, stamp, "wlstate"@);
    }
    assert(member(doc, "ssid"@) == Some(JsonValue::Text(s.ssid))) by {
        lemma_wire_member(s, stamp, "ssid"@);
    }
    assert(member(doc, "response"@) == optional_text_value(s.response)) by {
        lemma_wire_member(s, stamp, "response"@);
    }
    assert(member(doc, "response_date"@) == optional_text_value(s.response_date)) by {
        lemma_wire_member(s, stamp, "response_date"@);
    }
    assert(member(doc, "Adc"@) == Some(real_value(s.adc))) by {
        lemma_wire_member(s, stamp, "Adc"@);
    }
    assert(member(doc, "current_temp_f"@) == optional_unsigned_value(s.current_temp_f)) by {
        lemma_wire_member(s, stamp, "current_temp_f"@);
    }
    assert(member(doc, "current_humidity"@) == optional_unsigned_value(s.current_humidity)) by {
        lemma_wire_member(s, stamp, "current_humidity"@);
    }
    assert(member(doc, "current_dewpoint_f"@) == optional_unsigned_value(s.current_dewpoint_f)) by {
        lemma_wire_member(s, stamp, "current_dewpoint_f"@);
    }
    assert(member(doc, "pressure"@) == optional_real_value(s.pressure)) by {
        lemma_wire_member(s, stamp, "pressure"@);
    }
    assert(member(doc, "current_temp_f_680"@) == optional_real_value(s.current_temp_f_680)) by {
        lemma_wire_member(s, stamp, "current_temp_f_680"@);
    }
    assert(member(doc, "current_humidity_680"@) == optional_real_value(s.current_humidity_680)) by {
        lemma_wire_member(s, stamp, "current_humidity_680"@);
    }
    assert(member(doc, "current_dewpoint_f_680"@) == optional_real_value(s.current_dewpoint_f_680)) by {
        lemma_wire_member(s, stamp, "current_dewpoint_f_680"@);
    }
    assert(member(doc, "pressure_680"@) == optional_real_value(s.pressure_680)) by {
        lemma_wire_member(s, stamp, "pressure_680"@);
    }
    assert(member(doc, "gas_680"@) == optional_real_value(s.gas_680)) by {
        lemma_wire_member(s, stamp, "gas_680"@);
    }
    assert(member(doc, "p25aqic_b"@) == optional_text_value(s.p25aqic_b)) by {
        lemma_wire_member(s, stamp, "p25aqic_b"@);
    }
    assert(member(doc, "pm2.5_aqi_b"@) == optional_real_value(s.pm2_5_aqi_b)) by {
        lemma_wire_member(s, stamp, "pm2.5_aqi_b"@);
    }
    assert(member(doc, "pm1_0_cf_1_b"@) == optional_real_value(s.pm1_0_cf_1_b)) by {
        lemma_wire_member(s, stamp, "pm1_0_cf_1_b"@);
    }
    assert(member(doc, "p_0_3_um_b"@) == optional_real_value(s.p_0_3_um_b)) by {
        lemma_wire_member(s, stamp, "p_0_3_um_b"@);
    }
    assert(member(doc, "pm2_5_cf_1_b"@) == optional_real_value(s.pm2_5_cf_1_b)) by {
        lemma_wire_member(s, stamp, "pm2_5_cf_1_b"@);
    }
    assert(member(doc, "p_0_5_um_b"@) == optional_real_value(s.p_0_5_um_b)) by {
        lemma_wire_member(s, stamp, "p_0_5_um_b"@);
    }
    assert(member(doc, "pm10_0_cf_1_b"@) == optional_real_value(s.pm10_0_cf_1_b)) by {
        lemma_wire_member(s, stamp, "pm10_0_cf_1_b"@);
    }
    assert(member(doc, "p_1_0_um_b"@) == optional_real_value(s.p_1_0_um_b)) by {
        lemma_wire_member(s, stamp, "p_1_0_um_b"@);
    }
    assert(member(doc, "pm1_0_atm_b"@) == optional_real_value(s.pm1_0_atm_b)) by {
        lemma_wire_member(s, stamp, "pm1_0_atm_b"@);
    }
    assert(member(doc, "p_2_5_um_b"@) == optional_real_value(s.p_2_5_um_b)) by {
        lemma_wire_member(s, stamp, "p_2_5_um_b"@);
    }
    assert(member(doc, "pm2_5_atm_b"@) == optional_real_value(s.pm2_5_atm_b)) by {
        lemma_wire_member(s, stamp, "pm2_5_atm_b"@);
    }
    assert(member(doc, "p_5_0_um_b"@) == optional_real_value(s.p_5_0_um_b)) by {
        lemma_wire_member(s, stamp, "p_5_0_um_b"@);
    }
    assert(member(doc, "pm10_0_atm_b"@) == optional_real_value(s.pm10_0_atm_b)) by {
        lemma_wire_member(s, stamp, "pm10_0_atm_b"@);
    }
    assert(member(doc, "p_10_0_um_b"@) == optional_real_value(s.p_10_0_um_b)) by {
        lemma_wire_member(s, stamp, "p_10_0_um_b"@);
    }
    assert(member(doc, "p25aqic"@) == optional_text_value(s.p25aqic)) by {
        lemma_wire_member(s, stamp, "p25aqic"@);
    }
    assert(member(doc, "pm2.5_aqi"@) == optional_real_value(s.pm2_5_aqi)) by {
        lemma_wire_member(s, stamp, "pm2.5_aqi"@);
    }
    assert(member(doc, "pm1_0_cf_1"@) == optional_real_value(s.pm1_0_cf_1)) by {
        lemma_wire_member(s, stamp, "pm1_0_cf_1"@);
    }
    assert(member(doc, "p_0_3_um"@) == optional_real_value(s.p_0_3_um)) by {
        lemma_wire_member(s, stamp, "p_0_3_um"@);
    }
    assert(member(doc, "pm2_5_cf_1"@) == optional_real_value(s.pm2_5_cf_1)) by {
        lemma_wire_member(s, stamp, "pm2_5_cf_1"@);
    }
    assert(member(doc, "p_0_5_um"@) == optional_real_value(s.p_0_5_um)) by {
        lemma_wire_member(s, stamp, "p_0_5_um"@);
    }
    assert(member(doc, "pm10_0_cf_1"@) == optional_real_value(s.pm10_0_cf_1)) by {
        lemma_wire_member(s, stamp, "pm10_0_cf_1"@);
    }
    assert(member(doc, "p_1_0_um"@) == optional_real_value(s.p_1_0_um)) by {
        lemma_wire_member(s, stamp, "p_1_0_um"@);
    }
    assert(member(doc, "pm1_0_atm"@) == optional_real_value(s.pm1_0_atm)) by {
        lemma_wire_member(s, stamp, "pm1_0_atm"@);
    }
    assert(member(doc, "p_2_5_um"@) == optional_real_value(s.p_2_5_um)) by {
        lemma_wire_member(s, stamp, "p_2_5_um"@);
    }
    assert(member(doc, "pm2_5_atm"@) == optional_real_value(s.pm2_5_atm)) by {
        lemma_wire_member(s, stamp, "pm2_5_atm"@);
    }
    assert(member(doc, "p_5_0_um"@) == optional_real_value(s.p_5_0_um)) by {
        lemma_wire_member(s, stamp, "p_5_0_um"@);
    }
    assert(member(doc, "pm10_0_atm"@) == optional_real_value(s.pm10_0_atm)) by {
        lemma_wire_member(s, stamp, "pm10_0_atm"@);
    }
    assert(member(doc, "p_10_0_um"@) == optional_real_value(s.p_10_0_um)) by {
        lemma_wire_member(s, stamp, "p_10_0_um"@);
    }
    assert(member(doc, "status_0"@) == Some(status_value(s.status_ntp))) by {
        lemma_wire_member(s, stamp, "status_0"@);
    }
    assert(member(doc, "status_1"@) == Some(status_value(s.status_loc))) by {
        lemma_wire_member(s, stamp, "status_1"@);
    }
    assert(member(doc, "status_2"@) == Some(status_value(s.status_upd))) by {
        lemma_wire_member(s, stamp, "status_2"@);
    }
    assert(member(doc, "status_3"@) == Some(status_value(s.status_paa))) by {
        lemma_wire_member(s, stamp, "status_3"@);
    }
    assert(member(doc, "status_4"@) == Some(status_value(s.status_tsa))) by {
        lemma_wire_member(s, stamp, "status_4"@);
    }
    assert(member(doc, "status_5"@) == Some(status_value(s.status_tss_a))) by {
        lemma_wire_member(s, stamp, "status_5"@);
    }
    assert(member(doc, "status_6"@) == optional_status_value(s.status_for_processor_1)) by {
        lemma_wire_member(s, stamp, "status_6"@);
    }
    assert(member(doc, "status_7"@) == Some(status_value(s.status_tsb))) by {
        lemma_wire_member(s, stamp, "status_7"@);
    }
    assert(member(doc, "status_8"@) == Some(status_value(s.status_tss_b))) by {
        lemma_wire_member(s, stamp, "status_8"@);
    }
    assert(member(doc, "status_10"@) == optional_status_value(s.status_for_processor_2)) by {
        lemma_wire_member(s, stamp, "status_10"@);
    }
}

/// A document that holds a reading decodes to it, whatever else it holds,
/// provided that `stamp` reads as the instant of the reading's clock and
/// that each real of the reading is one that JSON has a number for.
pub proof fn lemma_document_of_reading_decodes(
    doc: Members,
    s: LocalSensorDataView,
    stamp: Seq<char>,
)
    requires
        holds_reading(doc, s, stamp),
        timestamp_of(stamp) == Ok::<_, SensorError>(s.date_time),
        reals_are_writable(s),
    ensures
        decoded_document(doc) == Ok::<_, SensorErrorView>(s),
{
    lemma_no_mandatory_missing(doc);
    assert(required_text(doc, "SensorId"@) == Ok::<_, SensorErrorView>(s.sensor_id));
    assert(required_timestamp(doc, "DateTime"@) == Ok::<_, SensorErrorView>(s.date_time));
    assert(required_text(doc, "Geo"@) == Ok::<_, SensorErrorView>(s.geo));
    assert(required_unsigned(doc, "Mem"@) == Ok::<_, SensorErrorView>(s.mem));
    assert(required_unsigned(doc, "memfrag"@) == Ok::<_, SensorErrorView>(s.memfrag));
    assert(required_unsigned(doc, "memfb"@) == Ok::<_, SensorErrorView>(s.memfb));
    assert(required_unsigned(doc, "memcs"@) == Ok::<_, SensorErrorView>(s.memcs));
    assert(required_unsigned(doc, "Id"@) == Ok::<_, SensorErrorView>(s.id));
    assert(required_real(doc, "lat"@) == Ok::<_, SensorErrorView>(s.lat));
    assert(required_real(doc, "lon"@) == Ok::<_, SensorErrorView>(s.lon));
    assert(required_unsigned(doc, "loggingrate"@) == Ok::<_, SensorErrorView>(s.logging_rate));
    assert(required_text(doc, "place"@) == Ok::<_, SensorErrorView>(s.place));
    assert(required_text(doc, "version"@) == Ok::<_, SensorErrorView>(s.version));
    assert(required_unsigned(doc, "uptime"@) == Ok::<_, SensorErrorView>(s.uptime));
    assert(required_signed(doc, "rssi"@) == Ok::<_, SensorErrorView>(s.rssi));
    assert(required_count(doc, "period"@) == Ok::<_, SensorErrorView>(s.period));
    assert(required_unsigned(doc, "httpsuccess"@) == Ok::<_, SensorErrorView>(s.http_success));
    assert(required_unsigned(doc, "httpsends"@) == Ok::<_, SensorErrorView>(s.http_sends));
    assert(required_text(doc, "hardwareversion"@) == Ok::<_, SensorErrorView>(s.hardware_version));
    assert(required_text(doc, "hardwarediscovered"@) == Ok::<_, SensorErrorView>(s.hardware_discovered));
    assert(required_text(doc, "wlstate"@) == Ok::<_, SensorErrorView>(s.wl_state));
    assert(required_text(doc, "ssid"@) == Ok::<_, SensorErrorView>(s.ssid));
    assert(optional_text(doc, "response"@) == Ok::<_, SensorErrorView>(s.response));
    assert(optional_text(doc, "response_date"@) == Ok::<_, SensorErrorView>(s.response_date));
    assert(required_real(doc, "Adc"@) == Ok::<_, SensorErrorView>(s.adc));
    assert(optional_unsigned(doc, "current_temp_f"@) == Ok::<_, SensorErrorView>(s.current_temp_f));
    assert(optional_unsigned(doc, "current_humidity"@) == Ok::<_, SensorErrorView>(s.current_humidity));
    assert(optional_unsigned(doc, "current_dewpoint_f"@) == Ok::<_, SensorErrorView>(s.current_dewpoint_f));
    assert(optional_real(doc, "pressure"@) == Ok::<_, SensorErrorView>(s.pressure));
    assert(optional_real(doc, "current_temp_f_680"@) == Ok::<_, SensorErrorView>(s.current_temp_f_680));
    assert(optional_real(doc, "current_humidity_680"@) == Ok::<_, SensorErrorView>(s.current_humidity_680));
    assert(optional_real(doc, "current_dewpoint_f_680"@) == Ok::<_, SensorErrorView>(s.current_dewpoint_f_680));
    assert(optional_real(doc, "pressure_680"@) == Ok::<_, SensorErrorView>(s.pressure_680));
    assert(optional_real(doc, "gas_680"@) == Ok::<_, SensorErrorView>(s.gas_680));
    assert(optional_text(doc, "p25aqic_b"@) == Ok::<_, SensorErrorView>(s.p25aqic_b));
    assert(optional_real(doc, "pm2.5_aqi_b"@) == Ok::<_, SensorErrorView>(s.pm2_5_aqi_b));
    assert(optional_real(doc, "pm1_0_cf_1_b"@) == Ok::<_, SensorErrorView>(s.pm1_0_cf_1_b));
    assert(optional_real(doc, "p_0_3_um_b"@) == Ok::<_, SensorErrorView>(s.p_0_3_um_b));
    assert(optional_real(doc, "pm2_5_cf_1_b"@) == Ok::<_, SensorErrorView>(s.pm2_5_cf_1_b));
    assert(optional_real(doc, "p_0_5_um_b"@) == Ok::<_, SensorErrorView>(s.p_0_5_um_b));
    assert(optional_real(doc, "pm10_0_cf_1_b"@) == Ok::<_, SensorErrorView>(s.pm10_0_cf_1_b));
    assert(optional_real(doc, "p_1_0_um_b"@) == Ok::<_, SensorErrorView>(s.p_1_0_um_b));
    assert(optional_real(doc, "pm1_0_atm_b"@) == Ok::<_, SensorErrorView>(s.pm1_0_atm_b));
    assert(optional_real(doc, "p_2_5_um_b"@) == Ok::<_, SensorErrorView>(s.p_2_5_um_b));
    assert(optional_real(doc, "pm2_5_atm_b"@) == Ok::<_, SensorErrorView>(s.pm2_5_atm_b));
    assert(optional_real(doc, "p_5_0_um_b"@) == Ok::<_, SensorErrorView>(s.p_5_0_um_b));
    assert(optional_real(doc, "pm10_0_atm_b"@) == Ok::<_, SensorErrorView>(s.pm10_0_atm_b));
    assert(optional_real(doc, "p_10_0_um_b"@) == Ok::<_, SensorErrorView>(s.p_10_0_um_b));
    assert(optional_text(doc, "p25aqic"@) == Ok::<_, SensorErrorView>(s.p25aqic));
    assert(optional_real(doc, "pm2.5_aqi"@) == Ok::<_, SensorErrorView>(s.pm2_5_aqi));
    assert(optional_real(doc, "pm1_0_cf_1"@) == Ok::<_, SensorErrorView>(s.pm1_0_cf_1));
    assert(optional_real(doc, "p_0_3_um"@) == Ok::<_, SensorErrorView>(s.p_0_3_um));
    assert(optional_real(doc, "pm2_5_cf_1"@) == Ok::<_, SensorErrorView>(s.pm2_5_cf_1));
    assert(optional_real(doc, "p_0_5_um"@) == Ok::<_, SensorErrorView>(s.p_0_5_um));
    assert(optional_real(doc, "pm10_0_cf_1"@) == Ok::<_, SensorErrorView>(s.pm10_0_cf_1));
    assert(optional_real(doc, "p_1_0_um"@) == Ok::<_, SensorErrorView>(s.p_1_0_um));
    assert(optional_real(doc, "pm1_0_atm"@) == Ok::<_, SensorErrorView>(s.pm1_0_atm));
    assert(optional_real(doc, "p_2_5_um"@) == Ok::<_, SensorErrorView>(s.p_2_5_um));
    assert(optional_real(doc, "pm2_5_atm"@) == Ok::<_, SensorErrorView>(s.pm2_5_atm));
    assert(optional_real(doc, "p_5_0_um"@) == Ok::<_, SensorErrorView>(s.p_5_0_um));
    assert(optional_real(doc, "pm10_0_atm"@) == Ok::<_, SensorErrorView>(s.pm10_0_atm));
    assert(optional_real(doc, "p_10_0_um"@) == Ok::<_, SensorErrorView>(s.p_10_0_um));
    assert(required_status(doc, "status_0"@) == Ok::<_, SensorErrorView>(s.status_ntp)) by {
        lemma_status_code_round_trip(s.status_ntp, 0);
    }
    assert(required_status(doc, "status_1"@) == Ok::<_, SensorErrorView>(s.status_loc)) by {
        lemma_status_code_round_trip(s.status_loc, 0);
    }
    assert(required_status(doc, "status_2"@) == Ok::<_, SensorErrorView>(s.status_upd)) by {
        lemma_status_code_round_trip(s.status_upd, 0);
    }
    assert(required_status(doc, "status_3"@) == Ok::<_, SensorErrorView>(s.status_paa)) by {
        lemma_status_code_round_trip(s.status_paa, 0);
    }
    assert(required_status(doc, "status_4"@) == Ok::<_, SensorErrorView>(s.status_tsa)) by {
        lemma_status_code_round_trip(s.status_tsa, 0);
    }
    assert(required_status(doc, "status_5"@) == Ok::<_, SensorErrorView>(s.status_tss_a)) by {
        lemma_status_code_round_trip(s.status_tss_a, 0);
    }
    assert(optional_status(doc, "status_6"@) == Ok::<_, SensorErrorView>(s.status_for_processor_1)) by {
        if let Some(status) = s.status_for_processor_1 {
            lemma_status_code_round_trip(status, 0);
        }
    }
    assert(required_status(doc, "status_7"@) == Ok::<_, SensorErrorView>(s.status_tsb)) by {
        lemma_status_code_round_trip(s.status_tsb, 0);
    }
    assert(required_status(doc, "status_8"@) == Ok::<_, SensorErrorView>(s.status_tss_b)) by {
        lemma_status_code_round_trip(s.status_tss_b, 0);
    }
    assert(optional_status(doc, "status_10"@) == Ok::<_, SensorErrorView>(s.status_for_processor_2)) by {
        if let Some(status) = s.status_for_processor_2 {
            lemma_status_code_round_trip(status, 0);
        }
    }
    assert(first_fault(doc).is_none());
    assert(assemble(doc) == s);
}

/// Decoding inverts encoding. The document that spells a reading decodes to
/// that reading, whichever of its optional fields hold something, provided
/// that `stamp`, the text of its clock, reads as its instant, and that each
/// of its reals is one that JSON has a number for.
pub proof fn lemma_decode_inverts_encode(s: LocalSensorDataView, stamp: Seq<char>)
    requires
        timestamp_of(stamp) == Ok::<_, SensorError>(s.date_time),
        reals_are_writable(s),
    ensures
        decoded_document(wire_document(s, stamp)) == Ok::<_, SensorErrorView>(s),
{
    lemma_wire_document_holds_reading(s, stamp);
    lemma_document_of_reading_decodes(wire_document(s, stamp), s, stamp);
}

/// A cycle delivers the reading that the fetched body spells. Where the
/// device answers with success and its body reads as a document that holds
/// a reading, the cycle ends with exactly that reading, field by field, and
/// a field that holds nothing stays empty. The provisos are those of
/// `lemma_document_of_reading_decodes`.
pub proof fn lemma_cycle_delivers_reading(
    fetched: Fetched,
    doc: Members,
    s: LocalSensorDataView,
    stamp: Seq<char>,
)
    requires
        fetched matches Fetched::Response { status, body } && is_success(status) && document_of(
            body@,
        ) == Ok::<_, SensorError>(doc),
        holds_reading(doc, s, stamp),
        timestamp_of(stamp) == Ok::<_, SensorError>(s.date_time),
        reals_are_writable(s),
    ensures
        cycle_of(fetched) == Ok::<_, SensorErrorView>(s),
{
    lemma_document_of_reading_decodes(doc, s, stamp);
}

} // verus!
