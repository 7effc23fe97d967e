use purpleair::{Document, LocalSensorData, Real, Reason, SensorError, Timestamp, WireValue};
use serde_json::Value;

const FULL: &str = r#"{"SensorId":"84:f3:eb:91:2e:3f","DateTime":"2025/06/29T22:44:14z",
"Geo":"PurpleAir-2e3f","Mem":18768,"memfrag":12,"memfb":16208,"memcs":768,"Id":4234,
"lat":37.2752,"lon":-121.964302,"Adc":0.05,"loggingrate":15,"place":"outside",
"version":"7.02","uptime":258121,"rssi":-61,"period":120,"httpsuccess":13004,
"httpsends":13010,"hardwareversion":"3.0","hardwarediscovered":"3.0+BME68X+PMSX003-A+PMSX003-B",
"wlstate":"Connected","ssid":"HomeNet","response":"201","response_date":"1751237041",
"current_temp_f":83,"current_humidity":32,"current_dewpoint_f":50,"pressure":1005.43,
"current_temp_f_680":83.5,"current_humidity_680":31.25,"current_dewpoint_f_680":50.125,
"pressure_680":1005.5,"gas_680":72.1,
"p25aqic_b":"rgb(19,230,0)","pm2.5_aqi_b":21.5,"pm1_0_cf_1_b":2.8,"p_0_3_um_b":812.25,
"pm2_5_cf_1_b":5.0,"p_0_5_um_b":230.7,"pm10_0_cf_1_b":5.9,"p_1_0_um_b":38.15,
"pm1_0_atm_b":2.8,"p_2_5_um_b":4.2,"pm2_5_atm_b":5.0,"p_5_0_um_b":1.1,"pm10_0_atm_b":5.9,
"p_10_0_um_b":0.0,
"p25aqic":"rgb(25,230,0)","pm2.5_aqi":23.5,"pm1_0_cf_1":3.1,"p_0_3_um":869.5,
"pm2_5_cf_1":5.5,"p_0_5_um":247.0,"pm10_0_cf_1":6.4,"p_1_0_um":42.75,"pm1_0_atm":3.1,
"p_2_5_um":5.3,"pm2_5_atm":5.5,"p_5_0_um":1.4,"pm10_0_atm":6.4,"p_10_0_um":0.25,
"status_0":2,"status_1":1,"status_2":2,"status_3":3,"status_4":0,"status_5":0,
"status_6":1,"status_7":0,"status_8":3,"status_10":2}"#;

const OPTIONAL: [&str; 41] = [
    "response", "response_date", "current_temp_f", "current_humidity", "current_dewpoint_f",
    "pressure", "current_temp_f_680", "current_humidity_680", "current_dewpoint_f_680",
    "pressure_680", "gas_680", "p25aqic_b", "pm2.5_aqi_b", "pm1_0_cf_1_b", "p_0_3_um_b",
    "pm2_5_cf_1_b", "p_0_5_um_b", "pm10_0_cf_1_b", "p_1_0_um_b", "pm1_0_atm_b", "p_2_5_um_b",
    "pm2_5_atm_b", "p_5_0_um_b", "pm10_0_atm_b", "p_10_0_um_b", "p25aqic", "pm2.5_aqi",
    "pm1_0_cf_1", "p_0_3_um", "pm2_5_cf_1", "p_0_5_um", "pm10_0_cf_1", "p_1_0_um",
    "pm1_0_atm", "p_2_5_um", "pm2_5_atm", "p_5_0_um", "pm10_0_atm", "p_10_0_um", "status_6",
    "status_10",
];

fn spell(entries: Vec<(&'static str, WireValue)>) -> serde_json::Map<String, Value> {
    let mut object = serde_json::Map::new();
    for (key, value) in entries {
        let json = match value {
            WireValue::Unsigned(n) => Value::from(n),
            WireValue::Signed(n) => Value::from(n),
            WireValue::Real(x) => Value::from(f64::from_bits(x.bits)),
            WireValue::Text(s) => Value::from(s),
        };
        object.insert(key.to_string(), json);
    }
    object
}

fn there_and_back(data: &LocalSensorData) -> Result<LocalSensorData, SensorError> {
    let object = spell(data.encode().unwrap());
    let text = serde_json::to_string(&object).unwrap();
    let through_text = LocalSensorData::decode(&text);
    let direct = LocalSensorData::from_document(&Document::from_object(object));
    assert_eq!(through_text, direct);
    direct
}

fn full() -> LocalSensorData {
    LocalSensorData::decode(FULL).unwrap()
}

#[test]
fn round_trip_with_every_optional_field_present() {
    let data = full();
    assert!(data.response.is_some() && data.gas_680.is_some() && data.p_10_0_um_b.is_some());
    assert!(data.status_for_processor_1.is_some() && data.status_for_processor_2.is_some());
    assert_eq!(there_and_back(&data), Ok(data));
}

#[test]
fn round_trip_with_every_optional_field_absent() {
    let mut object: serde_json::Map<String, Value> = serde_json::from_str(FULL).unwrap();
    for key in OPTIONAL {
        assert!(object.remove(key).is_some(), "{}", key);
    }
    let data = LocalSensorData::from_document(&Document::from_object(object)).unwrap();
    assert_eq!(data.response, None);
    assert_eq!(data.current_temp_f, None);
    assert_eq!(data.pm2_5_aqi, None);
    assert_eq!(data.status_for_processor_2, None);
    assert_eq!(data.encode().unwrap().len(), 31);
    assert_eq!(there_and_back(&data), Ok(data));
}

#[test]
fn round_trip_with_each_optional_field_absent_in_turn() {
    for key in OPTIONAL {
        let mut object: serde_json::Map<String, Value> = serde_json::from_str(FULL).unwrap();
        object.remove(key);
        let data = LocalSensorData::from_document(&Document::from_object(object)).unwrap();
        assert_ne!(data, full(), "{}", key);
        assert_eq!(data.encode().unwrap().len(), 71, "{}", key);
        assert_eq!(there_and_back(&data), Ok(data), "{}", key);
    }
}

#[test]
fn encoding_spells_the_document_that_was_decoded() {
    let object: serde_json::Map<String, Value> = serde_json::from_str(FULL).unwrap();
    assert_eq!(spell(full().encode().unwrap()), object);
}

#[test]
fn encoding_follows_the_schema() {
    let entries = full().encode().unwrap();
    assert_eq!(entries.len(), 72);
    assert_eq!(entries[0], ("SensorId", WireValue::Text("84:f3:eb:91:2e:3f".to_string())));
    assert_eq!(entries[1], ("DateTime", WireValue::Text("2025/06/29T22:44:14z".to_string())));
    assert_eq!(entries[3], ("Mem", WireValue::Unsigned(18768)));
    assert_eq!(entries[8], ("lat", WireValue::Real(Real { bits: 37.2752f64.to_bits() })));
    assert_eq!(entries[14], ("rssi", WireValue::Signed(-61)));
    assert_eq!(entries[15], ("period", WireValue::Unsigned(120)));
    assert_eq!(entries[62], ("status_0", WireValue::Unsigned(2)));
    assert_eq!(entries[65], ("status_3", WireValue::Unsigned(3)));
    assert_eq!(entries[71], ("status_10", WireValue::Unsigned(2)));
    let mut keys: Vec<&str> = entries.iter().map(|e| e.0).collect();
    keys.sort();
    keys.dedup();
    assert_eq!(keys.len(), 72);
}

#[test]
fn clock_is_written_as_the_sensor_writes_it() {
    let t = Timestamp { seconds: 1_751_237_054, nanos: 0 };
    assert_eq!(t.to_wire(), Some("2025/06/29T22:44:14z".to_string()));
    assert_eq!(
        Timestamp { seconds: 0, nanos: 0 }.to_wire(),
        Some("1970/01/01T00:00:00z".to_string())
    );
    assert_eq!(
        Timestamp { seconds: -1, nanos: 0 }.to_wire(),
        Some("1969/12/31T23:59:59z".to_string())
    );
    assert_eq!(
        Timestamp { seconds: 1_483_228_799, nanos: 1_000_000_000 }.to_wire(),
        Some("2016/12/31T23:59:60z".to_string())
    );
}

#[test]
fn clock_beyond_the_calendar_has_no_wire_text() {
    assert_eq!(Timestamp { seconds: i64::MAX, nanos: 0 }.to_wire(), None);
    assert_eq!(Timestamp { seconds: i64::MIN, nanos: 0 }.to_wire(), None);
    assert_eq!(Timestamp { seconds: 0, nanos: 2_000_000_000 }.to_wire(), None);
    let mut data = full();
    data.date_time = Timestamp { seconds: i64::MAX, nanos: 0 };
    assert_eq!(data.encode(), None);
}

#[test]
fn a_fraction_of_a_second_is_not_written() {
    let mut data = full();
    data.date_time = Timestamp { seconds: 1_751_237_054, nanos: 5 };
    assert_eq!(data.date_time.to_wire(), Some("2025/06/29T22:44:14z".to_string()));
    let back = there_and_back(&data).unwrap();
    assert_eq!(back.date_time, Timestamp { seconds: 1_751_237_054, nanos: 0 });
    assert_ne!(back, data);
}

#[test]
fn a_real_that_is_not_finite_is_written_as_null() {
    assert!(Real { bits: 1.5f64.to_bits() }.is_finite());
    assert!(Real { bits: 0 }.is_finite());
    assert!(Real { bits: f64::MAX.to_bits() }.is_finite());
    assert!(Real { bits: f64::MIN_POSITIVE.to_bits() }.is_finite());
    assert!(!Real { bits: f64::NAN.to_bits() }.is_finite());
    assert!(!Real { bits: f64::INFINITY.to_bits() }.is_finite());
    assert!(!Real { bits: f64::NEG_INFINITY.to_bits() }.is_finite());

    let mut data = full();
    data.lat = Real { bits: f64::NAN.to_bits() };
    assert_eq!(
        there_and_back(&data),
        Err(SensorError::SchemaViolation { field: "lat", reason: Reason::WrongType })
    );
    let mut data = full();
    data.gas_680 = Some(Real { bits: f64::INFINITY.to_bits() });
    assert_eq!(there_and_back(&data).unwrap().gas_680, None);
}

#[test]
fn an_integer_that_was_read_as_a_real_is_written_as_a_real() {
    let text = FULL.replace("\"pm2.5_aqi\":23.5", "\"pm2.5_aqi\":23");
    let data = LocalSensorData::decode(&text).unwrap();
    assert_eq!(data.pm2_5_aqi, Some(Real { bits: 23.0f64.to_bits() }));
    let object = spell(data.encode().unwrap());
    assert_eq!(object.get("pm2.5_aqi"), Some(&Value::from(23.0)));
    assert_eq!(serde_json::to_string(object.get("pm2.5_aqi").unwrap()).unwrap(), "23.0");
    assert_eq!(there_and_back(&data), Ok(data));
}

#[test]
fn a_year_of_five_digits_has_no_wire_text() {
    assert_eq!(
        Timestamp { seconds: 253_402_300_799, nanos: 0 }.to_wire(),
        Some("9999/12/31T23:59:59z".to_string())
    );
    assert_eq!(Timestamp { seconds: 253_402_300_800, nanos: 0 }.to_wire(), None);
    assert_eq!(
        Timestamp { seconds: -62_167_219_200, nanos: 0 }.to_wire(),
        Some("0000/01/01T00:00:00z".to_string())
    );
    assert_eq!(Timestamp { seconds: -62_167_219_201, nanos: 0 }.to_wire(), None);
    let mut data = full();
    data.date_time = Timestamp { seconds: 253_402_300_800, nanos: 0 };
    assert_eq!(data.encode(), None);
}

#[test]
fn every_wire_text_of_a_whole_second_reads_back() {
    let mut seconds: i64 = -62_167_219_200;
    while seconds < 253_402_300_800 {
        let t = Timestamp { seconds, nanos: 0 };
        let text = t.to_wire().unwrap();
        assert_eq!(purpleair::parse_nonstandard_datetime(&text), Ok(t), "{}", text);
        seconds += 86_400 * 37 + 3_611;
    }
}
