use purpleair::{
    hardware_on_the_board, Document, LocalSensorData, Real, Reason, SensorError, Status,
    Timestamp,
};
use serde_json::Value;

const FIXTURE: &str = r#"{
  "SensorId": "84:f3:eb:91:2e:3f",
  "DateTime": "2025/06/29T22:44:14z",
  "Geo": "PurpleAir-2e3f",
  "Mem": 18768,
  "memfrag": 12,
  "memfb": 16208,
  "memcs": 768,
  "Id": 4234,
  "lat": 37.2752,
  "lon": -121.964302,
  "Adc": 0.05,
  "loggingrate": 15,
  "place": "outside",
  "version": "7.02",
  "uptime": 258121,
  "rssi": -61,
  "period": 120,
  "httpsuccess": 13004,
  "httpsends": 13010,
  "hardwareversion": "2.0",
  "hardwarediscovered": "2.0+BME280+PMSX003-A+PMSX003-B",
  "current_temp_f": 83,
  "current_humidity": 32,
  "current_dewpoint_f": 50,
  "pressure": 1005.43,
  "p25aqic_b": "rgb(19,230,0)",
  "pm2.5_aqi_b": 21,
  "pm1_0_cf_1_b": 2.8,
  "p_0_3_um_b": 812.25,
  "pm2_5_cf_1_b": 5.0,
  "p_0_5_um_b": 230.7,
  "pm10_0_cf_1_b": 5.9,
  "p_1_0_um_b": 38.15,
  "pm1_0_atm_b": 2.8,
  "p_2_5_um_b": 4.2,
  "pm2_5_atm_b": 5.0,
  "p_5_0_um_b": 1.1,
  "pm10_0_atm_b": 5.9,
  "p_10_0_um_b": 0.0,
  "p25aqic": "rgb(25,230,0)",
  "pm2.5_aqi": 23,
  "pm1_0_cf_1": 3.1,
  "p_0_3_um": 869.5,
  "pm2_5_cf_1": 5.5,
  "p_0_5_um": 247.0,
  "pm10_0_cf_1": 6.4,
  "p_1_0_um": 42.75,
  "pm1_0_atm": 3.1,
  "p_2_5_um": 5.3,
  "pm2_5_atm": 5.5,
  "p_5_0_um": 1.4,
  "pm10_0_atm": 6.4,
  "p_10_0_um": 0.25,
  "pa_latency": 338,
  "latency": 414,
  "wlstate": "Connected",
  "status_0": 2,
  "status_1": 2,
  "status_2": 2,
  "status_3": 2,
  "status_4": 0,
  "status_5": 0,
  "status_6": 1,
  "status_7": 0,
  "status_8": 3,
  "status_9": 0,
  "ssid": "HomeNet"
}"#;

const CHANNEL_KEYS: [&str; 28] = [
    "p25aqic_b", "pm2.5_aqi_b", "pm1_0_cf_1_b", "p_0_3_um_b", "pm2_5_cf_1_b", "p_0_5_um_b",
    "pm10_0_cf_1_b", "p_1_0_um_b", "pm1_0_atm_b", "p_2_5_um_b", "pm2_5_atm_b", "p_5_0_um_b",
    "pm10_0_atm_b", "p_10_0_um_b", "p25aqic", "pm2.5_aqi", "pm1_0_cf_1", "p_0_3_um",
    "pm2_5_cf_1", "p_0_5_um", "pm10_0_cf_1", "p_1_0_um", "pm1_0_atm", "p_2_5_um", "pm2_5_atm",
    "p_5_0_um", "pm10_0_atm", "p_10_0_um",
];

const MANDATORY: [&str; 31] = [
    "SensorId", "DateTime", "Geo", "Mem", "memfrag", "memfb", "memcs", "Id", "lat", "lon",
    "loggingrate", "place", "version", "uptime", "rssi", "period", "httpsuccess", "httpsends",
    "hardwareversion", "hardwarediscovered", "wlstate", "ssid", "Adc", "status_0", "status_1",
    "status_2", "status_3", "status_4", "status_5", "status_7", "status_8",
];

fn number(x: f64) -> Real {
    Real { bits: x.to_bits() }
}

fn fixture() -> serde_json::Map<String, Value> {
    serde_json::from_str(FIXTURE).unwrap()
}

fn decode_object(object: serde_json::Map<String, Value>) -> Result<LocalSensorData, SensorError> {
    let through_text = LocalSensorData::decode(&serde_json::to_string(&object).unwrap());
    let direct = LocalSensorData::from_document(&Document::from_object(object));
    assert_eq!(through_text, direct);
    direct
}

fn with(key: &str, json: &str) -> Result<LocalSensorData, SensorError> {
    let mut object = fixture();
    object.insert(key.to_string(), serde_json::from_str(json).unwrap());
    decode_object(object)
}

fn without(key: &str) -> Result<LocalSensorData, SensorError> {
    let mut object = fixture();
    object.remove(key);
    decode_object(object)
}

fn violation(field: &'static str, reason: Reason) -> SensorError {
    SensorError::SchemaViolation { field, reason }
}

#[test]
fn fixture_decodes_end_to_end() {
    let data = LocalSensorData::decode(FIXTURE).unwrap();
    assert_eq!(data.hardware_version, "2.0");
    assert_eq!(
        hardware_on_the_board(data.hardware_discovered.clone()),
        vec!["BME280".to_string(), "PMSX003-A".to_string(), "PMSX003-B".to_string()]
    );
    assert_eq!(data.pm2_5_aqi, Some(number(23.0)));
    assert_eq!(f64::from_bits(data.pm2_5_aqi.unwrap().bits), 23.0);
}

#[test]
fn fixture_decodes_field_by_field() {
    let d = LocalSensorData::decode(FIXTURE).unwrap();
    assert_eq!(d.sensor_id, "84:f3:eb:91:2e:3f");
    assert_eq!(d.date_time, Timestamp { seconds: 1_751_237_054, nanos: 0 });
    assert_eq!(d.geo, "PurpleAir-2e3f");
    assert_eq!(d.mem, 18768);
    assert_eq!(d.memfrag, 12);
    assert_eq!(d.memfb, 16208);
    assert_eq!(d.memcs, 768);
    assert_eq!(d.id, 4234);
    assert_eq!(d.lat, number(37.2752));
    assert_eq!(d.lon, number(-121.964302));
    assert_eq!(d.logging_rate, 15);
    assert_eq!(d.place, "outside");
    assert_eq!(d.version, "7.02");
    assert_eq!(d.uptime, 258121);
    assert_eq!(d.rssi, -61);
    assert_eq!(d.period, 120);
    assert_eq!(d.http_success, 13004);
    assert_eq!(d.http_sends, 13010);
    assert_eq!(d.hardware_version, "2.0");
    assert_eq!(d.hardware_discovered, "2.0+BME280+PMSX003-A+PMSX003-B");
    assert_eq!(d.wl_state, "Connected");
    assert_eq!(d.ssid, "HomeNet");
    assert_eq!(d.response, None);
    assert_eq!(d.response_date, None);
    assert_eq!(d.adc, number(0.05));
    assert_eq!(d.current_temp_f, Some(83));
    assert_eq!(d.current_humidity, Some(32));
    assert_eq!(d.current_dewpoint_f, Some(50));
    assert_eq!(d.pressure, Some(number(1005.43)));
    assert_eq!(d.current_temp_f_680, None);
    assert_eq!(d.current_humidity_680, None);
    assert_eq!(d.current_dewpoint_f_680, None);
    assert_eq!(d.pressure_680, None);
    assert_eq!(d.gas_680, None);
    assert_eq!(d.p25aqic_b.as_deref(), Some("rgb(19,230,0)"));
    assert_eq!(d.pm2_5_aqi_b, Some(number(21.0)));
    assert_eq!(d.pm1_0_cf_1_b, Some(number(2.8)));
    assert_eq!(d.p_0_3_um_b, Some(number(812.25)));
    assert_eq!(d.pm2_5_cf_1_b, Some(number(5.0)));
    assert_eq!(d.p_0_5_um_b, Some(number(230.7)));
    assert_eq!(d.pm10_0_cf_1_b, Some(number(5.9)));
    assert_eq!(d.p_1_0_um_b, Some(number(38.15)));
    assert_eq!(d.pm1_0_atm_b, Some(number(2.8)));
    assert_eq!(d.p_2_5_um_b, Some(number(4.2)));
    assert_eq!(d.pm2_5_atm_b, Some(number(5.0)));
    assert_eq!(d.p_5_0_um_b, Some(number(1.1)));
    assert_eq!(d.pm10_0_atm_b, Some(number(5.9)));
    assert_eq!(d.p_10_0_um_b, Some(number(0.0)));
    assert_eq!(d.p25aqic.as_deref(), Some("rgb(25,230,0)"));
    assert_eq!(d.pm2_5_aqi, Some(number(23.0)));
    assert_eq!(d.pm1_0_cf_1, Some(number(3.1)));
    assert_eq!(d.p_0_3_um, Some(number(869.5)));
    assert_eq!(d.pm2_5_cf_1, Some(number(5.5)));
    assert_eq!(d.p_0_5_um, Some(number(247.0)));
    assert_eq!(d.pm10_0_cf_1, Some(number(6.4)));
    assert_eq!(d.p_1_0_um, Some(number(42.75)));
    assert_eq!(d.pm1_0_atm, Some(number(3.1)));
    assert_eq!(d.p_2_5_um, Some(number(5.3)));
    assert_eq!(d.pm2_5_atm, Some(number(5.5)));
    assert_eq!(d.p_5_0_um, Some(number(1.4)));
    assert_eq!(d.pm10_0_atm, Some(number(6.4)));
    assert_eq!(d.p_10_0_um, Some(number(0.25)));
    assert_eq!(d.status_ntp, Status::Success);
    assert_eq!(d.status_loc, Status::Success);
    assert_eq!(d.status_upd, Status::Success);
    assert_eq!(d.status_paa, Status::Success);
    assert_eq!(d.status_tsa, Status::NotConfigured);
    assert_eq!(d.status_tss_a, Status::NotConfigured);
    assert_eq!(d.status_for_processor_1, Some(Status::InProgress));
    assert_eq!(d.status_tsb, Status::NotConfigured);
    assert_eq!(d.status_tss_b, Status::Error);
    assert_eq!(d.status_for_processor_2, None);
}

#[test]
fn missing_sensor_id_is_a_schema_violation() {
    assert_eq!(without("SensorId"), Err(violation("SensorId", Reason::Missing)));
}

#[test]
fn every_mandatory_key_is_missed() {
    for key in MANDATORY {
        assert_eq!(without(key), Err(violation(key, Reason::Missing)), "{}", key);
    }
}

#[test]
fn a_missing_key_is_reported_before_any_bad_value() {
    let mut object = fixture();
    object.insert("DateTime".to_string(), Value::from("2025-06-29 22:44:14"));
    object.insert("Mem".to_string(), Value::from("much"));
    object.remove("status_8");
    object.remove("ssid");
    assert_eq!(decode_object(object), Err(violation("ssid", Reason::Missing)));
}

#[test]
fn the_first_bad_value_in_schema_order_is_reported() {
    let mut object = fixture();
    object.insert("status_0".to_string(), Value::from(9));
    object.insert("Mem".to_string(), Value::from("much"));
    object.insert("pm2.5_aqi".to_string(), Value::from("high"));
    assert_eq!(decode_object(object), Err(violation("Mem", Reason::WrongType)));
}

#[test]
fn channel_fields_may_all_be_missing() {
    let mut object = fixture();
    for key in CHANNEL_KEYS {
        object.remove(key);
    }
    let bare = decode_object(object).unwrap();
    let full = LocalSensorData::decode(FIXTURE).unwrap();
    assert_eq!(bare.p25aqic, None);
    assert_eq!(bare.pm2_5_aqi, None);
    assert_eq!(bare.p_10_0_um, None);
    assert_eq!(bare.p25aqic_b, None);
    assert_eq!(bare.pm2_5_aqi_b, None);
    assert_eq!(bare.p_10_0_um_b, None);
    let expected = LocalSensorData {
        p25aqic_b: None,
        pm2_5_aqi_b: None,
        pm1_0_cf_1_b: None,
        p_0_3_um_b: None,
        pm2_5_cf_1_b: None,
        p_0_5_um_b: None,
        pm10_0_cf_1_b: None,
        p_1_0_um_b: None,
        pm1_0_atm_b: None,
        p_2_5_um_b: None,
        pm2_5_atm_b: None,
        p_5_0_um_b: None,
        pm10_0_atm_b: None,
        p_10_0_um_b: None,
        p25aqic: None,
        pm2_5_aqi: None,
        pm1_0_cf_1: None,
        p_0_3_um: None,
        pm2_5_cf_1: None,
        p_0_5_um: None,
        pm10_0_cf_1: None,
        p_1_0_um: None,
        pm1_0_atm: None,
        p_2_5_um: None,
        pm2_5_atm: None,
        p_5_0_um: None,
        pm10_0_atm: None,
        p_10_0_um: None,
        ..full
    };
    assert_eq!(bare, expected);
}

#[test]
fn every_optional_key_may_be_missing_or_null() {
    let optional: Vec<String> = fixture()
        .keys()
        .filter(|k| !MANDATORY.contains(&k.as_str()))
        .cloned()
        .collect();
    for key in &optional {
        assert!(without(key).is_ok(), "{}", key);
        assert_eq!(with(key, "null"), without(key), "{}", key);
    }
    for key in ["response", "response_date", "gas_680", "status_10"] {
        assert_eq!(with(key, "null"), LocalSensorData::decode(FIXTURE), "{}", key);
    }
}

#[test]
fn unknown_keys_are_ignored() {
    let plain = LocalSensorData::decode(FIXTURE).unwrap();
    assert_eq!(with("brand_new_field", "[1, {\"a\": null}]"), Ok(plain.clone()));
    assert_eq!(with("sensorid", "17"), Ok(plain.clone()));
    assert_eq!(with("status_9", "\"whatever\""), Ok(plain));
}

#[test]
fn null_is_no_value_for_a_mandatory_field() {
    assert_eq!(with("SensorId", "null"), Err(violation("SensorId", Reason::WrongType)));
    assert_eq!(with("Mem", "null"), Err(violation("Mem", Reason::WrongType)));
    assert_eq!(with("lat", "null"), Err(violation("lat", Reason::WrongType)));
    assert_eq!(with("status_0", "null"), Err(violation("status_0", Reason::WrongType)));
    assert_eq!(with("DateTime", "null"), Err(violation("DateTime", Reason::WrongType)));
}

#[test]
fn values_of_the_wrong_type_are_refused() {
    assert_eq!(with("SensorId", "17"), Err(violation("SensorId", Reason::WrongType)));
    assert_eq!(with("Mem", "\"18768\""), Err(violation("Mem", Reason::WrongType)));
    assert_eq!(with("Mem", "-1"), Err(violation("Mem", Reason::WrongType)));
    assert_eq!(with("Mem", "1.5"), Err(violation("Mem", Reason::WrongType)));
    assert_eq!(with("Mem", "18768.0"), Err(violation("Mem", Reason::WrongType)));
    assert_eq!(with("Mem", "true"), Err(violation("Mem", Reason::WrongType)));
    assert_eq!(with("Mem", "[1]"), Err(violation("Mem", Reason::WrongType)));
    assert_eq!(with("Mem", "{}"), Err(violation("Mem", Reason::WrongType)));
    assert_eq!(with("lat", "\"37\""), Err(violation("lat", Reason::WrongType)));
    assert_eq!(with("rssi", "-61.5"), Err(violation("rssi", Reason::WrongType)));
    assert_eq!(with("pressure", "\"high\""), Err(violation("pressure", Reason::WrongType)));
    assert_eq!(with("p25aqic", "7"), Err(violation("p25aqic", Reason::WrongType)));
    assert_eq!(
        with("current_temp_f", "83.5"),
        Err(violation("current_temp_f", Reason::WrongType))
    );
    assert_eq!(with("response", "201"), Err(violation("response", Reason::WrongType)));
    assert_eq!(with("status_0", "\"2\""), Err(violation("status_0", Reason::WrongType)));
    assert_eq!(with("status_6", "2.0"), Err(violation("status_6", Reason::WrongType)));
    assert_eq!(with("DateTime", "1751237054"), Err(violation("DateTime", Reason::WrongType)));
}

#[test]
fn integers_are_held_to_their_range() {
    assert_eq!(with("Mem", "18446744073709551615").unwrap().mem, u64::MAX);
    assert_eq!(with("Mem", "18446744073709551616"), Err(violation("Mem", Reason::WrongType)));
    assert_eq!(with("period", "4294967295").unwrap().period, u32::MAX);
    assert_eq!(with("period", "4294967296"), Err(violation("period", Reason::WrongType)));
    assert_eq!(with("period", "-1"), Err(violation("period", Reason::WrongType)));
    assert_eq!(with("rssi", "9223372036854775807").unwrap().rssi, i64::MAX);
    assert_eq!(with("rssi", "-9223372036854775808").unwrap().rssi, i64::MIN);
    assert_eq!(with("rssi", "9223372036854775808"), Err(violation("rssi", Reason::WrongType)));
    assert_eq!(with("rssi", "0").unwrap().rssi, 0);
}

#[test]
fn a_real_takes_any_number() {
    assert_eq!(with("lat", "37").unwrap().lat, number(37.0));
    assert_eq!(with("lat", "-37").unwrap().lat, number(-37.0));
    assert_eq!(with("lat", "0").unwrap().lat, number(0.0));
    assert_eq!(with("lat", "-0.0").unwrap().lat, number(-0.0));
    assert_eq!(with("lat", "1e3").unwrap().lat, number(1000.0));
    assert_eq!(with("lat", "18446744073709551615").unwrap().lat, number(18446744073709551615.0));
    assert_eq!(with("pressure", "1005").unwrap().pressure, Some(number(1005.0)));
    assert_eq!(with("gas_680", "0.5").unwrap().gas_680, Some(number(0.5)));
}

#[test]
fn status_fields_go_through_the_status_rule() {
    assert_eq!(with("status_0", "0").unwrap().status_ntp, Status::NotConfigured);
    assert_eq!(with("status_0", "3").unwrap().status_ntp, Status::Error);
    assert_eq!(with("status_0", "4"), Err(SensorError::UnrecognizedStatusCode(4)));
    assert_eq!(with("status_8", "256"), Err(SensorError::UnrecognizedStatusCode(256)));
    assert_eq!(with("status_6", "7"), Err(SensorError::UnrecognizedStatusCode(7)));
    assert_eq!(with("status_10", "2").unwrap().status_for_processor_2, Some(Status::Success));
    assert_eq!(with("status_10", "5"), Err(SensorError::UnrecognizedStatusCode(5)));
    assert_eq!(without("status_6").unwrap().status_for_processor_1, None);
}

#[test]
fn timestamp_field_goes_through_the_timestamp_rule() {
    assert_eq!(
        with("DateTime", "\"1970/01/02T00:00:01z\"").unwrap().date_time,
        Timestamp { seconds: 86_401, nanos: 0 }
    );
    assert_eq!(with("DateTime", "\"2025-06-29T22:44:14z\""), Err(SensorError::MalformedTimestamp));
    assert_eq!(with("DateTime", "\"2025/06/29 22:44:14z\""), Err(SensorError::MalformedTimestamp));
    assert_eq!(with("DateTime", "\"\""), Err(SensorError::MalformedTimestamp));
}

#[test]
fn text_that_is_no_object_is_refused() {
    for text in ["", "not json", "[1, 2]", "17", "null", "true", "\"SensorId\"", "{", "{\"SensorId\": }", "{} {}"] {
        assert_eq!(
            LocalSensorData::decode(text),
            Err(SensorError::MalformedDocument),
            "{:?}",
            text
        );
    }
    assert_eq!(Document::parse("[]").err(), Some(SensorError::MalformedDocument));
    assert!(Document::parse("{}").is_ok());
}

#[test]
fn an_empty_object_lacks_the_first_key() {
    assert_eq!(LocalSensorData::decode("{}"), Err(violation("SensorId", Reason::Missing)));
}

#[test]
fn of_two_members_with_one_key_the_later_counts() {
    let text = FIXTURE.replacen("\"Mem\": 18768,", "\"Mem\": 1, \"Mem\": 2,", 1);
    assert_eq!(LocalSensorData::decode(&text).unwrap().mem, 2);
}

#[test]
fn document_reads_members_by_type() {
    let doc = Document::parse(
        r#"{"u": 7, "i": -7, "x": 2.5, "s": "seven", "n": null, "b": true, "a": [], "o": {}}"#,
    )
    .unwrap();
    assert!(doc.contains("u") && doc.contains("n") && !doc.contains("U"));
    assert!(doc.is_null("n") && !doc.is_null("u") && !doc.is_null("nothing"));
    assert_eq!(doc.unsigned("u"), Some(7));
    assert_eq!(doc.unsigned("i"), None);
    assert_eq!(doc.unsigned("x"), None);
    assert_eq!(doc.unsigned("s"), None);
    assert_eq!(doc.unsigned("nothing"), None);
    assert_eq!(doc.signed("u"), Some(7));
    assert_eq!(doc.signed("i"), Some(-7));
    assert_eq!(doc.signed("x"), None);
    assert_eq!(doc.real_number("u"), Some(number(7.0)));
    assert_eq!(doc.real_number("i"), Some(number(-7.0)));
    assert_eq!(doc.real_number("x"), Some(number(2.5)));
    assert_eq!(doc.real_number("s"), None);
    assert_eq!(doc.real_number("n"), None);
    assert_eq!(doc.text("s"), Some("seven".to_string()));
    assert_eq!(doc.text("u"), None);
    assert_eq!(doc.text("b"), None);
    assert_eq!(doc.text("a"), None);
    assert_eq!(doc.text("o"), None);
    assert_eq!(doc.text("nothing"), None);
}
