use purpleair::{
    cycle_message, sensor_url, Command, Fetched, LocalSensorData, Message, Phase, PurpleAir, Reason,
    SensorError,
};

const BODY: &str = r#"{"SensorId":"84:f3:eb:91:2e:3f","DateTime":"2025/06/29T22:44:14z",
"Geo":"PurpleAir-2e3f","Mem":18768,"memfrag":12,"memfb":16208,"memcs":768,"Id":4234,
"lat":37.2752,"lon":-121.964302,"Adc":0.05,"loggingrate":15,"place":"outside",
"version":"7.02","uptime":258121,"rssi":-61,"period":120,"httpsuccess":13004,
"httpsends":13010,"hardwareversion":"2.0","hardwarediscovered":"2.0+BME280",
"current_temp_f":83,"wlstate":"Connected","status_0":2,"status_1":2,"status_2":2,
"status_3":2,"status_4":0,"status_5":0,"status_7":0,"status_8":0,"ssid":"HomeNet"}"#;

const URL: &str = "http://10.0.0.158/json?live=true";

fn ok(body: &str) -> Fetched {
    Fetched::Response { status: 200, body: body.to_string() }
}

#[test]
fn a_new_consumer_holds_nothing() {
    let state = PurpleAir::new(URL.to_string());
    assert_eq!(state.sensor_data(), &None);
    assert_eq!(state.url(), URL);
    assert!(!state.is_running());
}

#[test]
fn the_loop_survives_a_failed_fetch() {
    let mut state = PurpleAir::new(URL.to_string());
    let mut delivered: Vec<LocalSensorData> = Vec::new();

    assert_eq!(state.update(Message::Initialized), Some(Command::FetchNow));
    assert!(state.is_running());

    let first = cycle_message(Fetched::Failed);
    assert_eq!(first, Message::CycleFailed(SensorError::TransportFailure));
    let next = state.update(first);
    assert_eq!(next, Some(Command::FetchAfter { seconds: 0 }));
    assert_eq!(state.sensor_data(), &None);

    let second = cycle_message(ok(BODY));
    if let Message::SnapshotReady(data) = &second {
        delivered.push(data.clone());
    }
    let next = state.update(second);
    assert_eq!(next, Some(Command::FetchAfter { seconds: 10 }));

    assert_eq!(delivered.len(), 1);
    assert_eq!(delivered[0], LocalSensorData::decode(BODY).unwrap());
    assert_eq!(state.sensor_data().as_ref(), Some(&delivered[0]));
    assert!(state.is_running());
}

#[test]
fn a_failed_cycle_leaves_the_last_reading() {
    let mut state = PurpleAir::new(URL.to_string());
    state.update(Message::Initialized);
    state.update(cycle_message(ok(BODY)));
    let held = state.sensor_data().clone();
    assert!(held.is_some());
    for fetched in [
        Fetched::Failed,
        Fetched::Response { status: 500, body: BODY.to_string() },
        ok("not json"),
        ok("{}"),
    ] {
        let message = cycle_message(fetched);
        assert!(matches!(message, Message::CycleFailed(_)));
        assert_eq!(state.update(message), Some(Command::FetchAfter { seconds: 10 }));
        assert_eq!(state.sensor_data(), &held);
    }
}

#[test]
fn each_reading_replaces_the_one_before() {
    let mut state = PurpleAir::new(URL.to_string());
    state.update(Message::Initialized);
    state.update(cycle_message(ok(BODY)));
    assert_eq!(state.sensor_data().as_ref().unwrap().current_temp_f, Some(83));
    let cooler = BODY.replace("\"current_temp_f\":83,", "");
    state.update(cycle_message(ok(&cooler)));
    assert_eq!(state.sensor_data().as_ref().unwrap().current_temp_f, None);
    assert_eq!(state.sensor_data().as_ref().unwrap().uptime, 258121);
}

#[test]
fn only_a_success_status_brings_a_reading() {
    for status in [200u16, 201, 204, 299] {
        let message = cycle_message(Fetched::Response { status, body: BODY.to_string() });
        assert!(matches!(message, Message::SnapshotReady(_)), "{}", status);
    }
    for status in [0u16, 100, 199, 300, 304, 404, 500, 65535] {
        let message = cycle_message(Fetched::Response { status, body: BODY.to_string() });
        assert_eq!(message, Message::CycleFailed(SensorError::TransportFailure), "{}", status);
    }
}

#[test]
fn a_body_that_does_not_decode_fails_the_cycle_with_its_error() {
    assert_eq!(
        cycle_message(ok("<html>busy</html>")),
        Message::CycleFailed(SensorError::MalformedDocument)
    );
    assert_eq!(
        cycle_message(ok("{}")),
        Message::CycleFailed(SensorError::SchemaViolation {
            field: "SensorId",
            reason: Reason::Missing
        })
    );
    assert_eq!(
        cycle_message(ok(&BODY.replace("\"status_3\":2", "\"status_3\":4"))),
        Message::CycleFailed(SensorError::UnrecognizedStatusCode(4))
    );
    assert_eq!(
        cycle_message(ok(&BODY.replace("2025/06/29T", "2025-06-29T"))),
        Message::CycleFailed(SensorError::MalformedTimestamp)
    );
}

#[test]
fn the_first_cycle_starts_the_background_at_once_and_later_ones_wait() {
    let mut state = PurpleAir::new(URL.to_string());
    assert_eq!(state.update(Message::Initialized), Some(Command::FetchNow));
    assert_eq!(
        state.update(cycle_message(ok(BODY))),
        Some(Command::FetchAfter { seconds: 0 })
    );
    for _ in 0..5 {
        assert_eq!(
            state.update(cycle_message(ok(BODY))),
            Some(Command::FetchAfter { seconds: 10 })
        );
    }
}

#[test]
fn a_second_start_does_not_start_a_second_fetch() {
    let mut state = PurpleAir::new(URL.to_string());
    assert_eq!(state.update(Message::Initialized), Some(Command::FetchNow));
    assert_eq!(state.update(Message::Initialized), None);
    state.update(cycle_message(ok(BODY)));
    let held = state.sensor_data().clone();
    assert_eq!(state.update(Message::Initialized), None);
    assert_eq!(state.sensor_data(), &held);
    assert_eq!(
        state.update(cycle_message(Fetched::Failed)),
        Some(Command::FetchAfter { seconds: 10 })
    );
}

#[test]
fn phases_are_told_apart() {
    assert_ne!(Phase::Idle, Phase::Priming);
    assert_ne!(Phase::Priming, Phase::Polling);
}

#[test]
fn the_reading_is_served_under_one_path() {
    assert_eq!(sensor_url("10.0.0.158"), URL);
    assert_eq!(sensor_url("purpleair.local"), "http://purpleair.local/json?live=true");
    assert_eq!(sensor_url(""), "http:///json?live=true");
    assert_eq!(PurpleAir::new(sensor_url("10.0.0.158")).url(), URL);
}

#[test]
fn a_cancelled_loop_starts_no_fetch() {
    let mut state = PurpleAir::new(URL.to_string());
    state.update(Message::Initialized);
    state.update(cycle_message(ok(BODY)));
    assert!(state.is_running());
    state.cancel();
    assert!(!state.is_running());
    let held = state.sensor_data().clone();
    assert_eq!(state.update(cycle_message(Fetched::Failed)), None);
    assert_eq!(state.sensor_data(), &held);
    let cooler = BODY.replace("\"current_temp_f\":83,", "");
    assert_eq!(state.update(cycle_message(ok(&cooler))), None);
    assert_eq!(state.sensor_data().as_ref().unwrap().current_temp_f, None);
    assert_eq!(state.update(Message::Initialized), None);
    assert!(!state.is_running());
}

#[test]
fn a_loop_cancelled_before_its_start_never_starts() {
    let mut state = PurpleAir::new(URL.to_string());
    state.cancel();
    assert_eq!(state.update(Message::Initialized), None);
    assert_eq!(state.update(cycle_message(ok(BODY))), None);
    assert!(state.sensor_data().is_some());
    assert_ne!(Phase::Stopped, Phase::Polling);
}
