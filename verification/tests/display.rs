use purpleair::{
    aqi_a, aqi_b, common_measurements, device_lines, field, humidity_percent, join,
    temperature_f, AqiPanel, Gauge, LocalSensorData, Measurement, Real,
};

const BODY: &str = r#"{"SensorId":"84:f3:eb:91:2e:3f","DateTime":"2025/06/29T22:44:14z",
"Geo":"PurpleAir-2e3f","Mem":18768,"memfrag":12,"memfb":16208,"memcs":768,"Id":4234,
"lat":37.2752,"lon":-121.964302,"Adc":0.05,"loggingrate":15,"place":"outside",
"version":"7.02","uptime":258121,"rssi":-61,"period":120,"httpsuccess":13004,
"httpsends":13010,"hardwareversion":"2.0","hardwarediscovered":"2.0+BME280+PMSX003-A",
"wlstate":"Connected","status_0":2,"status_1":2,"status_2":2,
"status_3":2,"status_4":0,"status_5":0,"status_7":0,"status_8":0,"ssid":"HomeNet"}"#;

fn bare() -> LocalSensorData {
    LocalSensorData::decode(BODY).unwrap()
}

fn number(x: f64) -> Real {
    Real { bits: x.to_bits() }
}

#[test]
fn temperature_is_the_number_and_degrees_fahrenheit() {
    assert_eq!(temperature_f(83), "83 \u{b0}F");
    assert_eq!(temperature_f(0), "0 \u{b0}F");
    assert_eq!(temperature_f(9), "9 \u{b0}F");
    assert_eq!(temperature_f(10), "10 \u{b0}F");
    assert_eq!(temperature_f(100), "100 \u{b0}F");
    assert_eq!(temperature_f(u64::MAX), "18446744073709551615 \u{b0}F");
}

#[test]
fn temperature_agrees_with_std_for_many_numbers() {
    let mut n: u64 = 0;
    for step in 0..2000u64 {
        assert_eq!(temperature_f(n), format!("{} \u{b0}F", n));
        n = n.wrapping_mul(31).wrapping_add(step * step + 7);
    }
}

#[test]
fn humidity_is_the_number_and_a_percent_sign() {
    assert_eq!(humidity_percent(32), "32%");
    assert_eq!(humidity_percent(0), "0%");
    assert_eq!(humidity_percent(100), "100%");
    assert_eq!(humidity_percent(1_234_567_890), "1234567890%");
}

#[test]
fn field_joins_label_and_value() {
    assert_eq!(field("Firmware Version", "7.02"), "Firmware Version: 7.02");
    assert_eq!(field("", ""), ": ");
    assert_eq!(field("Devices", "BME280, PMSX003-A"), "Devices: BME280, PMSX003-A");
}

#[test]
fn no_gauge_without_a_measurement() {
    assert_eq!(common_measurements(&bare()), Vec::<Measurement>::new());
}

#[test]
fn gauges_come_in_their_order() {
    let mut data = bare();
    data.current_temp_f = Some(83);
    data.current_humidity = Some(32);
    data.current_dewpoint_f = Some(50);
    assert_eq!(
        common_measurements(&data),
        vec![
            Measurement { gauge: Gauge::Temperature, label: "83 \u{b0}F".to_string() },
            Measurement { gauge: Gauge::DewPoint, label: "50 \u{b0}F".to_string() },
            Measurement { gauge: Gauge::Humidity, label: "32%".to_string() },
        ]
    );
}

#[test]
fn each_gauge_stands_alone() {
    let mut data = bare();
    data.current_humidity = Some(7);
    assert_eq!(
        common_measurements(&data),
        vec![Measurement { gauge: Gauge::Humidity, label: "7%".to_string() }]
    );
    let mut data = bare();
    data.current_dewpoint_f = Some(41);
    assert_eq!(
        common_measurements(&data),
        vec![Measurement { gauge: Gauge::DewPoint, label: "41 \u{b0}F".to_string() }]
    );
    let mut data = bare();
    data.current_temp_f = Some(70);
    data.current_humidity = Some(55);
    assert_eq!(
        common_measurements(&data),
        vec![
            Measurement { gauge: Gauge::Temperature, label: "70 \u{b0}F".to_string() },
            Measurement { gauge: Gauge::Humidity, label: "55%".to_string() },
        ]
    );
}

#[test]
fn a_panel_needs_both_colour_and_index() {
    let mut data = bare();
    assert_eq!(aqi_a(&data), None);
    assert_eq!(aqi_b(&data), None);
    data.p25aqic = Some("rgb(25,230,0)".to_string());
    assert_eq!(aqi_a(&data), None);
    data.pm2_5_aqi_b = Some(number(21.0));
    assert_eq!(aqi_b(&data), None);
    data.pm2_5_aqi = Some(number(23.0));
    assert_eq!(
        aqi_a(&data),
        Some(AqiPanel {
            title: "Ch A PM2.5 AQI",
            colour: "rgb(25,230,0)".to_string(),
            index: number(23.0),
        })
    );
    assert_eq!(aqi_b(&data), None);
    data.p25aqic_b = Some("rgb(19,230,0)".to_string());
    assert_eq!(
        aqi_b(&data),
        Some(AqiPanel {
            title: "Ch B PM2.5 AQI",
            colour: "rgb(19,230,0)".to_string(),
            index: number(21.0),
        })
    );
}

#[test]
fn pieces_are_joined_with_the_separator_between() {
    let none: Vec<String> = Vec::new();
    assert_eq!(join(&none, ", "), "");
    assert_eq!(join(&vec!["a".to_string()], ", "), "a");
    assert_eq!(join(&vec!["a".to_string(), "b".to_string()], ", "), "a, b");
    assert_eq!(
        join(&vec!["".to_string(), "b".to_string(), "".to_string()], "+"),
        "+b+"
    );
    assert_eq!(join(&vec!["a".to_string(), "b".to_string(), "c".to_string()], ""), "abc");
    let many: Vec<String> = (0..20).map(|n| n.to_string()).collect();
    assert_eq!(join(&many, " | "), many.join(" | "));
}

#[test]
fn the_device_has_three_lines() {
    assert_eq!(
        device_lines(&bare()),
        vec![
            "Firmware Version: 7.02".to_string(),
            "Hardware Version: 2.0".to_string(),
            "Devices: BME280, PMSX003-A".to_string(),
        ]
    );
    let mut data = bare();
    data.hardware_discovered = "3.0".to_string();
    data.hardware_version = "3.0".to_string();
    data.version = "".to_string();
    assert_eq!(
        device_lines(&data),
        vec![
            "Firmware Version: ".to_string(),
            "Hardware Version: 3.0".to_string(),
            "Devices: ".to_string(),
        ]
    );
    data.hardware_discovered = "3.0+BME68X".to_string();
    assert_eq!(device_lines(&data)[2], "Devices: BME68X");
}
