//! Writing a reading down as the sensor would: the members of its
//! document, key by key, in the order of the schema.
//!
//! The members come as plain values. Whoever spells them as JSON writes an
//! integer as an integer, a real as a number and a text as a string.

use crate::fields::{optional_view, Members};
use crate::json::{is_finite_bits, JsonValue, Real};
use crate::sensor_data::{LocalSensorData, LocalSensorDataView};
use crate::status::Status;
use crate::timestamp::wire_timestamp;
use vstd::prelude::*;

verus! {

/// What one member holds on the wire.
#[derive(Clone, Debug, PartialEq, Eq)]
pub enum WireValue {
    Unsigned(u64),
    Signed(i64),
    Real(Real),
    Text(String),
}

/// One member: its key and what it holds.
pub type WireEntry = (&'static str, WireValue);

/// The JSON value of an integer within `u64`.
pub open spec fn unsigned_value(n: u64) -> JsonValue {
    JsonValue::Integer(n as int)
}

/// The JSON value of an integer within `i64`.
pub open spec fn signed_value(n: i64) -> JsonValue {
    JsonValue::Integer(n as int)
}

/// The JSON value of a real: a number if it is finite, else `null`.
pub open spec fn real_value(x: Real) -> JsonValue {
    if is_finite_bits(x.bits) {
        JsonValue::Real(x.bits)
    } else {
        JsonValue::Null
    }
}

/// The JSON value of a status: its wire integer.
pub open spec fn status_value(status: Status) -> JsonValue {
    JsonValue::Integer(status.spec_code() as int)
}

/// The JSON value of an optional integer: one that is not there has none.
pub open spec fn optional_unsigned_value(n: Option<u64>) -> Option<JsonValue> {
    match n {
        Some(n) => Some(unsigned_value(n)),
        None => None,
    }
}

/// The JSON value of an optional real.
pub open spec fn optional_real_value(x: Option<Real>) -> Option<JsonValue> {
    match x {
        Some(x) => Some(real_value(x)),
        None => None,
    }
}

/// The JSON value of an optional text.
pub open spec fn optional_text_value(t: Option<Seq<char>>) -> Option<JsonValue> {
    match t {
        Some(t) => Some(JsonValue::Text(t)),
        None => None,
    }
}

/// The JSON value of an optional status.
pub open spec fn optional_status_value(status: Option<Status>) -> Option<JsonValue> {
    match status {
        Some(c) => Some(status_value(c)),
        None => None,
    }
}

impl WireValue {
    /// The JSON value that spells this one.
    pub open spec fn json(self) -> JsonValue {
        match self {
            WireValue::Unsigned(n) => unsigned_value(n),
            WireValue::Signed(n) => signed_value(n),
            WireValue::Real(x) => real_value(x),
            WireValue::Text(s) => JsonValue::Text(s@),
        }
    }
}

/// The document with `value` under `key`, or as it was where there is no
/// value.
#[verifier::opaque]
pub open spec fn with(doc: Members, key: Seq<char>, value: Option<JsonValue>) -> Members {
    match value {
        Some(v) => doc.insert(key, v),
        None => doc,
    }
}

/// The document that a list of members spells; of two members with one key
/// the later counts.
pub open spec fn spelled(entries: Seq<WireEntry>) -> Members
    decreases entries.len(),
{
    if entries.len() == 0 {
        Map::empty()
    } else {
        with(spelled(entries.drop_last()), entries.last().0@, Some(entries.last().1.json()))
    }
}

/// The document that spells a reading, with `stamp` as the text of its
/// clock. A mandatory field always has its member; an optional one has it
/// only where it holds something.
pub open spec fn wire_document(s: LocalSensorDataView, stamp: Seq<char>) -> Members {
    let doc = Map::<Seq<char>, JsonValue>::empty();
    let doc = with(doc, "SensorId"@, Some(JsonValue::Text(s.sensor_id)));
    let doc = with(doc, "DateTime"@, Some(JsonValue::Text(stamp)));
    let doc = with(doc, "Geo"@, Some(JsonValue::Text(s.geo)));
    let doc = with(doc, "Mem"@, Some(unsigned_value(s.mem)));
    let doc = with(doc, "memfrag"@, Some(unsigned_value(s.memfrag)));
    let doc = with(doc, "memfb"@, Some(unsigned_value(s.memfb)));
    let doc = with(doc, "memcs"@, Some(unsigned_value(s.memcs)));
    let doc = with(doc, "Id"@, Some(unsigned_value(s.id)));
    let doc = with(doc, "lat"@, Some(real_value(s.lat)));
    let doc = with(doc, "lon"@, Some(real_value(s.lon)));
    let doc = with(doc, "loggingrate"@, Some(unsigned_value(s.logging_rate)));
    let doc = with(doc, "place"@, Some(JsonValue::Text(s.place)));
    let doc = with(doc, "version"@, Some(JsonValue::Text(s.version)));
    let doc = with(doc, "uptime"@, Some(unsigned_value(s.uptime)));
    let doc = with(doc, "rssi"@, Some(signed_value(s.rssi)));
    let doc = with(doc, "period"@, Some(unsigned_value(s.period as u64)));
    let doc = with(doc, "httpsuccess"@, Some(unsigned_value(s.http_success)));
    let doc = with(doc, "httpsends"@, Some(unsigned_value(s.http_sends)));
    let doc = with(doc, "hardwareversion"@, Some(JsonValue::Text(s.hardware_version)));
    let doc = with(doc, "hardwarediscovered"@, Some(JsonValue::Text(s.hardware_discovered)));
    let doc = with(doc, "wlstate"@, Some(JsonValue::Text(s.wl_state)));
    let doc = with(doc, "ssid"@, Some(JsonValue::Text(s.ssid)));
    let doc = with(doc, "response"@, optional_text_value(s.response));
    let doc = with(doc, "response_date"@, optional_text_value(s.response_date));
    let doc = with(doc, "Adc"@, Some(real_value(s.adc)));
    let doc = with(doc, "current_temp_f"@, optional_unsigned_value(s.current_temp_f));
    let doc = with(doc, "current_humidity"@, optional_unsigned_value(s.current_humidity));
    let doc = with(doc, "current_dewpoint_f"@, optional_unsigned_value(s.current_dewpoint_f));
    let doc = with(doc, "pressure"@, optional_real_value(s.pressure));
    let doc = with(doc, "current_temp_f_680"@, optional_real_value(s.current_temp_f_680));
    let doc = with(doc, "current_humidity_680"@, optional_real_value(s.current_humidity_680));
    let doc = with(doc, "current_dewpoint_f_680"@, optional_real_value(s.current_dewpoint_f_680));
    let doc = with(doc, "pressure_680"@, optional_real_value(s.pressure_680));
    let doc = with(doc, "gas_680"@, optional_real_value(s.gas_680));
    let doc = with(doc, "p25aqic_b"@, optional_text_value(s.p25aqic_b));
    let doc = with(doc, "pm2.5_aqi_b"@, optional_real_value(s.pm2_5_aqi_b));
    let doc = with(doc, "pm1_0_cf_1_b"@, optional_real_value(s.pm1_0_cf_1_b));
    let doc = with(doc, "p_0_3_um_b"@, optional_real_value(s.p_0_3_um_b));
    let doc = with(doc, "pm2_5_cf_1_b"@, optional_real_value(s.pm2_5_cf_1_b));
    let doc = with(doc, "p_0_5_um_b"@, optional_real_value(s.p_0_5_um_b));
    let doc = with(doc, "pm10_0_cf_1_b"@, optional_real_value(s.pm10_0_cf_1_b));
    let doc = with(doc, "p_1_0_um_b"@, optional_real_value(s.p_1_0_um_b));
    let doc = with(doc, "pm1_0_atm_b"@, optional_real_value(s.pm1_0_atm_b));
    let doc = with(doc, "p_2_5_um_b"@, optional_real_value(s.p_2_5_um_b));
    let doc = with(doc, "pm2_5_atm_b"@, optional_real_value(s.pm2_5_atm_b));
    let doc = with(doc, "p_5_0_um_b"@, optional_real_value(s.p_5_0_um_b));
    let doc = with(doc, "pm10_0_atm_b"@, optional_real_value(s.pm10_0_atm_b));
    let doc = with(doc, "p_10_0_um_b"@, optional_real_value(s.p_10_0_um_b));
    let doc = with(doc, "p25aqic"@, optional_text_value(s.p25aqic));
    let doc = with(doc, "pm2.5_aqi"@, optional_real_value(s.pm2_5_aqi));
    let doc = with(doc, "pm1_0_cf_1"@, optional_real_value(s.pm1_0_cf_1));
    let doc = with(doc, "p_0_3_um"@, optional_real_value(s.p_0_3_um));
    let doc = with(doc, "pm2_5_cf_1"@, optional_real_value(s.pm2_5_cf_1));
    let doc = with(doc, "p_0_5_um"@, optional_real_value(s.p_0_5_um));
    let doc = with(doc, "pm10_0_cf_1"@, optional_real_value(s.pm10_0_cf_1));
    let doc = with(doc, "p_1_0_um"@, optional_real_value(s.p_1_0_um));
    let doc = with(doc, "pm1_0_atm"@, optional_real_value(s.pm1_0_atm));
    let doc = with(doc, "p_2_5_um"@, optional_real_value(s.p_2_5_um));
    let doc = with(doc, "pm2_5_atm"@, optional_real_value(s.pm2_5_atm));
    let doc = with(doc, "p_5_0_um"@, optional_real_value(s.p_5_0_um));
    let doc = with(doc, "pm10_0_atm"@, optional_real_value(s.pm10_0_atm));
    let doc = with(doc, "p_10_0_um"@, optional_real_value(s.p_10_0_um));
    let doc = with(doc, "status_0"@, Some(status_value(s.status_ntp)));
    let doc = with(doc, "status_1"@, Some(status_value(s.status_loc)));
    let doc = with(doc, "status_2"@, Some(status_value(s.status_upd)));
    let doc = with(doc, "status_3"@, Some(status_value(s.status_paa)));
    let doc = with(doc, "status_4"@, Some(status_value(s.status_tsa)));
    let doc = with(doc, "status_5"@, Some(status_value(s.status_tss_a)));
    let doc = with(doc, "status_6"@, optional_status_value(s.status_for_processor_1));
    let doc = with(doc, "status_7"@, Some(status_value(s.status_tsb)));
    let doc = with(doc, "status_8"@, Some(status_value(s.status_tss_b)));
    let doc = with(doc, "status_10"@, optional_status_value(s.status_for_processor_2));
    doc
}

/// Adds a member to the list.
fn put(entries: &mut Vec<WireEntry>, key: &'static str, value: WireValue)
    ensures
        final(entries)@ == old(entries)@.push((key, value)),
        spelled(final(entries)@) == with(spelled(old(entries)@), key@, Some(value.json())),
{
    entries.push((key, value));
    proof {
        assert(entries@.drop_last() =~= old(entries)@);
    }
}

/// Adds an optional integer to the list, if there is one.
fn put_optional_unsigned(entries: &mut Vec<WireEntry>, key: &'static str, value: Option<u64>)
    ensures
        spelled(final(entries)@) == with(
            spelled(old(entries)@),
            key@,
            optional_unsigned_value(value),
        ),
{
    match value {
        Some(n) => put(entries, key, WireValue::Unsigned(n)),
        None => {
            proof {
                reveal(with);
            }
        },
    }
}

/// Adds an optional real to the list, if there is one.
fn put_optional_real(entries: &mut Vec<WireEntry>, key: &'static str, value: Option<Real>)
    ensures
        spelled(final(entries)@) == with(
            spelled(old(entries)@),
            key@,
            optional_real_value(value),
        ),
{
    match value {
        Some(x) => put(entries, key, WireValue::Real(x)),
        None => {
            proof {
                reveal(with);
            }
        },
    }
}

/// Adds an optional text to the list, if there is one.
fn put_optional_text(entries: &mut Vec<WireEntry>, key: &'static str, value: &Option<String>)
    ensures
        spelled(final(entries)@) == with(
            spelled(old(entries)@),
            key@,
            optional_text_value(optional_view(*value)),
        ),
{
    match value {
        Some(text) => put(entries, key, WireValue::Text(text.clone())),
        None => {
            proof {
                reveal(with);
            }
        },
    }
}

/// Adds an optional status to the list, if there is one.
fn put_optional_status(entries: &mut Vec<WireEntry>, key: &'static str, value: Option<Status>)
    ensures
        spelled(final(entries)@) == with(
            spelled(old(entries)@),
            key@,
            optional_status_value(value),
        ),
{
    match value {
        Some(status) => put(entries, key, WireValue::Unsigned(status.code() as u64)),
        None => {
            proof {
                reveal(with);
            }
        },
    }
}

impl LocalSensorData {
    /// The members of the document that spells this reading, in the order
    /// of the schema. `None` exactly when the clock has no wire text.
    pub fn encode(&self) -> (r: Option<Vec<WireEntry>>)
        ensures
            match r {
                Some(entries) => wire_timestamp(self.date_time) matches Some(stamp) && spelled(
                    entries@,
                ) == wire_document(self@, stamp),
                None => wire_timestamp(self.date_time).is_none(),
            },
    {
        let stamp: String = self.date_time.to_wire()?;
        let mut entries: Vec<WireEntry> = Vec::new();
        put(&mut entries, "SensorId", WireValue::Text(self.sensor_id.clone()));
        put(&mut entries, "DateTime", WireValue::Text(stamp.clone()));
        put(&mut entries, "Geo", WireValue::Text(self.geo.clone()));
        put(&mut entries, "Mem", WireValue::Unsigned(self.mem));
        put(&mut entries, "memfrag", WireValue::Unsigned(self.memfrag));
        put(&mut entries, "memfb", WireValue::Unsigned(self.memfb));
        put(&mut entries, "memcs", WireValue::Unsigned(self.memcs));
        put(&mut entries, "Id", WireValue::Unsigned(self.id));
        put(&mut entries, "lat", WireValue::Real(self.lat));
        put(&mut entries, "lon", WireValue::Real(self.lon));
        put(&mut entries, "loggingrate", WireValue::Unsigned(self.logging_rate));
        put(&mut entries, "place", WireValue::Text(self.place.clone()));
        put(&mut entries, "version", WireValue::Text(self.version.clone()));
        put(&mut entries, "uptime", WireValue::Unsigned(self.uptime));
        put(&mut entries, "rssi", WireValue::Signed(self.rssi));
        put(&mut entries, "period", WireValue::Unsigned(self.period as u64));
        put(&mut entries, "httpsuccess", WireValue::Unsigned(self.http_success));
        put(&mut entries, "httpsends", WireValue::Unsigned(self.http_sends));
        put(&mut entries, "hardwareversion", WireValue::Text(self.hardware_version.clone()));
        put(&mut entries, "hardwarediscovered", WireValue::Text(self.hardware_discovered.clone()));
        put(&mut entries, "wlstate", WireValue::Text(self.wl_state.clone()));
        put(&mut entries, "ssid", WireValue::Text(self.ssid.clone()));
        put_optional_text(&mut entries, "response", &self.response);
        put_optional_text(&mut entries, "response_date", &self.response_date);
        put(&mut entries, "Adc", WireValue::Real(self.adc));
        put_optional_unsigned(&mut entries, "current_temp_f", self.current_temp_f);
        put_optional_unsigned(&mut entries, "current_humidity", self.current_humidity);
        put_optional_unsigned(&mut entries, "current_dewpoint_f", self.current_dewpoint_f);
        put_optional_real(&mut entries, "pressure", self.pressure);
        put_optional_real(&mut entries, "current_temp_f_680", self.current_temp_f_680);
        put_optional_real(&mut entries, "current_humidity_680", self.current_humidity_680);
        put_optional_real(&mut entries, "current_dewpoint_f_680", self.current_dewpoint_f_680);
        put_optional_real(&mut entries, "pressure_680", self.pressure_680);
        put_optional_real(&mut entries, "gas_680", self.gas_680);
        put_optional_text(&mut entries, "p25aqic_b", &self.p25aqic_b);
        put_optional_real(&mut entries, "pm2.5_aqi_b", self.pm2_5_aqi_b);
        put_optional_real(&mut entries, "pm1_0_cf_1_b", self.pm1_0_cf_1_b);
        put_optional_real(&mut entries, "p_0_3_um_b", self.p_0_3_um_b);
        put_optional_real(&mut entries, "pm2_5_cf_1_b", self.pm2_5_cf_1_b);
        put_optional_real(&mut entries, "p_0_5_um_b", self.p_0_5_um_b);
        put_optional_real(&mut entries, "pm10_0_cf_1_b", self.pm10_0_cf_1_b);
        put_optional_real(&mut entries, "p_1_0_um_b", self.p_1_0_um_b);
        put_optional_real(&mut entries, "pm1_0_atm_b", self.pm1_0_atm_b);
        put_optional_real(&mut entries, "p_2_5_um_b", self.p_2_5_um_b);
        put_optional_real(&mut entries, "pm2_5_atm_b", self.pm2_5_atm_b);
        put_optional_real(&mut entries, "p_5_0_um_b", self.p_5_0_um_b);
        put_optional_real(&mut entries, "pm10_0_atm_b", self.pm10_0_atm_b);
        put_optional_real(&mut entries, "p_10_0_um_b", self.p_10_0_um_b);
        put_optional_text(&mut entries, "p25aqic", &self.p25aqic);
        put_optional_real(&mut entries, "pm2.5_aqi", self.pm2_5_aqi);
        put_optional_real(&mut entries, "pm1_0_cf_1", self.pm1_0_cf_1);
        put_optional_real(&mut entries, "p_0_3_um", self.p_0_3_um);
        put_optional_real(&mut entries, "pm2_5_cf_1", self.pm2_5_cf_1);
        put_optional_real(&mut entries, "p_0_5_um", self.p_0_5_um);
        put_optional_real(&mut entries, "pm10_0_cf_1", self.pm10_0_cf_1);
        put_optional_real(&mut entries, "p_1_0_um", self.p_1_0_um);
        put_optional_real(&mut entries, "pm1_0_atm", self.pm1_0_atm);
        put_optional_real(&mut entries, "p_2_5_um", self.p_2_5_um);
        put_optional_real(&mut entries, "pm2_5_atm", self.pm2_5_atm);
        put_optional_real(&mut entries, "p_5_0_um", self.p_5_0_um);
        put_optional_real(&mut entries, "pm10_0_atm", self.pm10_0_atm);
        put_optional_real(&mut entries, "p_10_0_um", self.p_10_0_um);
        put(&mut entries, "status_0", WireValue::Unsigned(self.status_ntp.code() as u64));
        put(&mut entries, "status_1", WireValue::Unsigned(self.status_loc.code() as u64));
        put(&mut entries, "status_2", WireValue::Unsigned(self.status_upd.code() as u64));
        put(&mut entries, "status_3", WireValue::Unsigned(self.status_paa.code() as u64));
        put(&mut entries, "status_4", WireValue::Unsigned(self.status_tsa.code() as u64));
        put(&mut entries, "status_5", WireValue::Unsigned(self.status_tss_a.code() as u64));
        put_optional_status(&mut entries, "status_6", self.status_for_processor_1);
        put(&mut entries, "status_7", WireValue::Unsigned(self.status_tsb.code() as u64));
        put(&mut entries, "status_8", WireValue::Unsigned(self.status_tss_b.code() as u64));
        put_optional_status(&mut entries, "status_10", self.status_for_processor_2);
        Some(entries)
    }
}

} // verus!
