use laundry_control::error::Error;
use laundry_control::washing_machine::local::{
    clear_alarms_url, configuration_url, machine_archive_url, parse_configuration_body,
    parse_state_body, parse_statistics_body, pause_url, read_configuration_download,
    select_machine_url, start_program_body, start_url, state_url, statistics_url, stop_url,
    upload_request, Connection, HttpDownload, RefreshPlan,
};
use laundry_control::washing_machine::{Configuration, ConnectionState, State, Statistics};

fn sample_state(name: &str) -> State {
    let mut s = State::default();
    s.name = String::from(name);
    s.temperature = 40;
    s
}

fn sample_configuration(name: &str) -> Configuration {
    let mut c = Configuration::default();
    c.name = String::from(name);
    c.app_version = String::from("1.0");
    c
}

fn sample_statistics(cycles: u16) -> Statistics {
    let mut s = Statistics::default();
    s.cycles = cycles;
    s
}

#[test]
fn bootstrap_with_three_successes_is_connected() {
    let conn = Connection::new(
        String::from("10.0.0.7"),
        Ok(sample_state("washer")),
        Ok(sample_configuration("lavatrice")),
        Ok(sample_statistics(3)),
    );
    match conn.connection_state {
        ConnectionState::Connected { active, name, state, configuration, stats } => {
            assert!(active);
            assert_eq!(name, "10.0.0.7");
            assert_eq!(state.name, "washer");
            assert_eq!(state.temperature, 40);
            assert_eq!(configuration.name, "lavatrice");
            assert_eq!(configuration.app_version, "1.0");
            assert_eq!(stats.cycles, 3);
        }
        _ => panic!("expected Connected"),
    }
}

#[test]
fn bootstrap_with_failed_state_fetch_is_error() {
    let conn = Connection::new(
        String::from("10.0.0.7"),
        Err(Error::Network(String::from("timed out"))),
        Ok(sample_configuration("lavatrice")),
        Ok(sample_statistics(3)),
    );
    assert!(matches!(conn.connection_state, ConnectionState::Error));
}

#[test]
fn bootstrap_with_failed_configuration_fetch_is_error() {
    let conn = Connection::new(
        String::from("10.0.0.7"),
        Ok(sample_state("washer")),
        Err(Error::Protocol),
        Ok(sample_statistics(3)),
    );
    assert!(matches!(conn.connection_state, ConnectionState::Error));
}

#[test]
fn bootstrap_with_failed_statistics_fetch_is_error() {
    let conn = Connection::new(
        String::from("10.0.0.7"),
        Ok(sample_state("washer")),
        Ok(sample_configuration("lavatrice")),
        Err(Error::Value),
    );
    assert!(matches!(conn.connection_state, ConnectionState::Error));
}

#[test]
fn refresh_from_error_replans_full_bootstrap() {
    let conn = Connection::new(
        String::from("10.0.0.7"),
        Err(Error::Protocol),
        Ok(sample_configuration("lavatrice")),
        Ok(sample_statistics(3)),
    );
    assert_eq!(conn.refresh_plan(), RefreshPlan::Full);
}

#[test]
fn refresh_from_connected_replans_partial() {
    let conn = Connection::new(
        String::from("10.0.0.7"),
        Ok(sample_state("washer")),
        Ok(sample_configuration("lavatrice")),
        Ok(sample_statistics(3)),
    );
    assert_eq!(conn.refresh_plan(), RefreshPlan::Partial);
}

#[test]
fn partial_refresh_preserves_configuration() {
    let mut conn = Connection::new(
        String::from("10.0.0.7"),
        Ok(sample_state("washer")),
        Ok(sample_configuration("lavatrice")),
        Ok(sample_statistics(3)),
    );
    conn.apply_partial_refresh(Ok(sample_state("washer2")), Ok(sample_statistics(4)));
    match conn.connection_state {
        ConnectionState::Connected { state, configuration, stats, .. } => {
            assert_eq!(state.name, "washer2");
            assert_eq!(configuration.name, "lavatrice");
            assert_eq!(stats.cycles, 4);
        }
        _ => panic!("expected Connected"),
    }
}

#[test]
fn partial_refresh_failure_collapses_to_error() {
    let mut conn = Connection::new(
        String::from("10.0.0.7"),
        Ok(sample_state("washer")),
        Ok(sample_configuration("lavatrice")),
        Ok(sample_statistics(3)),
    );
    conn.apply_partial_refresh(Err(Error::Protocol), Ok(sample_statistics(4)));
    assert!(matches!(conn.connection_state, ConnectionState::Error));
    assert_eq!(conn.refresh_plan(), RefreshPlan::Full);
}

#[test]
fn configuration_refresh_replaces_only_configuration() {
    let mut conn = Connection::new(
        String::from("10.0.0.7"),
        Ok(sample_state("washer")),
        Ok(sample_configuration("lavatrice")),
        Ok(sample_statistics(3)),
    );
    conn.apply_configuration_refresh(Ok(sample_configuration("asciugatrice")));
    match conn.connection_state {
        ConnectionState::Connected { state, configuration, stats, .. } => {
            assert_eq!(state.name, "washer");
            assert_eq!(configuration.name, "asciugatrice");
            assert_eq!(stats.cycles, 3);
        }
        _ => panic!("expected Connected"),
    }
}

#[test]
fn local_urls_are_exact() {
    assert_eq!(state_url("10.0.0.7"), "http://10.0.0.7/state");
    assert_eq!(configuration_url("10.0.0.7"), "http://10.0.0.7/machine");
    assert_eq!(statistics_url("10.0.0.7"), "http://10.0.0.7/statistics");
    assert_eq!(start_url("10.0.0.7"), "http://10.0.0.7/start");
    assert_eq!(pause_url("10.0.0.7"), "http://10.0.0.7/pause");
    assert_eq!(stop_url("10.0.0.7"), "http://10.0.0.7/stop");
    assert_eq!(clear_alarms_url("10.0.0.7"), "http://10.0.0.7/clear_alarms");
}

#[test]
fn archive_names_are_percent_encoded_in_paths() {
    assert_eq!(
        machine_archive_url("10.0.0.7", "my archive.bin"),
        "http://10.0.0.7/machine/my%20archive.bin"
    );
    assert_eq!(
        select_machine_url("10.0.0.7", "a/b"),
        "http://10.0.0.7/select_machine/a%2Fb"
    );
}

#[test]
fn start_program_body_is_exact_json() {
    assert_eq!(start_program_body(7), "{\"cycle\":7}");
    assert_eq!(start_program_body(65535), "{\"cycle\":65535}");
}

#[test]
fn configuration_round_trip_returns_uploaded_bytes() {
    let data: Vec<u8> = vec![0, 1, 2, 254, 255];
    let (upload_url, body) = upload_request("10.0.0.7", "slot one", data.clone());
    assert_eq!(body, data);
    let download_url = machine_archive_url("10.0.0.7", "slot one");
    assert_eq!(upload_url, download_url);
    let echoed = HttpDownload { success: true, has_content_length: true, body_complete: true, body };
    assert_eq!(read_configuration_download(Ok(echoed)), Ok(data));
}

#[test]
fn download_without_content_length_is_protocol_error() {
    let download = HttpDownload { success: true, has_content_length: false, body_complete: true, body: vec![1] };
    assert_eq!(read_configuration_download(Ok(download)), Err(Error::Protocol));
}

#[test]
fn download_with_failure_status_is_protocol_error() {
    let download = HttpDownload { success: false, has_content_length: true, body_complete: true, body: vec![1] };
    assert_eq!(read_configuration_download(Ok(download)), Err(Error::Protocol));
}

#[test]
fn download_with_unreadable_body_is_protocol_error() {
    let download =
        HttpDownload { success: true, has_content_length: true, body_complete: false, body: vec![] };
    assert_eq!(read_configuration_download(Ok(download)), Err(Error::Protocol));
}

#[test]
fn download_transport_failure_is_network_error() {
    let r = read_configuration_download(Err(String::from("connection refused")));
    assert_eq!(r, Err(Error::Network(String::from("connection refused"))));
}

#[test]
fn state_body_parses_every_field() {
    let body = "{\"alarm_code\":1,\"credit\":2,\"name\":\"washer\",\"porthole_open\":true,\
                \"state\":3,\"cycle\":4,\"step_code\":5,\"step_number\":6,\"cycle_remaining\":7,\
                \"step_remaining\":8,\"step_count\":9,\"temperature\":40,\"level\":11,\"speed\":12}";
    let state = parse_state_body(body).unwrap();
    assert_eq!(state.alarm_code, 1);
    assert_eq!(state.credit, 2);
    assert_eq!(state.name, "washer");
    assert!(state.porthole_open);
    assert_eq!(state.state, 3);
    assert_eq!(state.cycle, 4);
    assert_eq!(state.step_code, 5);
    assert_eq!(state.step_number, 6);
    assert_eq!(state.cycle_remaining, 7);
    assert_eq!(state.step_remaining, 8);
    assert_eq!(state.step_count, 9);
    assert_eq!(state.temperature, 40);
    assert_eq!(state.level, 11);
    assert_eq!(state.speed, 12);
}

#[test]
fn state_body_with_missing_field_is_protocol_error() {
    assert!(matches!(parse_state_body("{\"alarm_code\":1}"), Err(Error::Protocol)));
}

#[test]
fn state_body_that_is_not_json_is_protocol_error() {
    assert!(matches!(parse_state_body("not json"), Err(Error::Protocol)));
}

#[test]
fn configuration_body_parses_catalogue() {
    let body = "{\"name\":\"lavatrice\",\"app_version\":\"2.1\",\"machines\":[\"a\",\"b\"],\
                \"programs\":[{\"name\":\"Cotone\",\"wash_type\":1},{\"name\":\"Lana\",\"wash_type\":2}]}";
    let configuration = parse_configuration_body(body).unwrap();
    assert_eq!(configuration.name, "lavatrice");
    assert_eq!(configuration.app_version, "2.1");
    assert_eq!(configuration.machines, vec![String::from("a"), String::from("b")]);
    assert_eq!(configuration.programs.len(), 2);
    assert_eq!(configuration.programs[0].name, "Cotone");
    assert_eq!(configuration.programs[0].wash_type, 1);
    assert_eq!(configuration.programs[1].name, "Lana");
    assert_eq!(configuration.programs[1].wash_type, 2);
}

#[test]
fn statistics_body_reads_the_total_object() {
    let body = "{\"total\":{\"cycles\":5,\"interrupted_cycles\":1,\"loop_cycles\":0,\
                \"on_time\":100,\"work_time\":90,\"rotation_time\":80,\"heating_time\":70,\
                \"cold_water_time\":60,\"warm_water_time\":50,\"recovery_water_time\":40,\
                \"flux_water_time\":30,\"porthole_closings\":20,\"porthole_openings\":21,\
                \"soap_times\":[1,2,3]}}";
    let stats = parse_statistics_body(body).unwrap();
    assert_eq!(stats.cycles, 5);
    assert_eq!(stats.interrupted_cycles, 1);
    assert_eq!(stats.on_time, 100);
    assert_eq!(stats.porthole_openings, 21);
    assert_eq!(stats.soap_times, vec![1, 2, 3]);
}

#[test]
fn statistics_body_with_negative_soap_time_is_protocol_error() {
    let body = "{\"total\":{\"cycles\":5,\"interrupted_cycles\":1,\"loop_cycles\":0,\
                \"on_time\":100,\"work_time\":90,\"rotation_time\":80,\"heating_time\":70,\
                \"cold_water_time\":60,\"warm_water_time\":50,\"recovery_water_time\":40,\
                \"flux_water_time\":30,\"porthole_closings\":20,\"porthole_openings\":21,\
                \"soap_times\":[1,-2]}}";
    assert!(matches!(parse_statistics_body(body), Err(Error::Protocol)));
}

#[test]
fn statistics_body_without_total_is_protocol_error() {
    assert!(matches!(parse_statistics_body("{\"cycles\":5}"), Err(Error::Protocol)));
}
