use laundry_control::error::Error;
use laundry_control::things5_api::{
    authorize_form, authorize_url, clear_alarms, current_machine_request, decode_write_response,
    device_url, devices_url, fold_state_and_statistics, parameters_url, parse_authorize_response,
    parse_current_machine_response, parse_device_details_response, parse_devices_response,
    parse_preview_configuration, parse_programs, parse_states_response, parse_write_response,
    pause, put_current_machine_request, refresh_data_ingestion_request, restart, start, states_url,
    stop, write_outcome, Sample,
};

#[test]
fn cloud_urls_are_exact() {
    assert_eq!(
        authorize_url(),
        "https://auth.things5.digital/auth/realms/hswsnc/protocol/openid-connect/token"
    );
    assert_eq!(devices_url(), "https://api.things5.digital/v1/devices");
    assert_eq!(device_url("d1"), "https://api.things5.digital/v1/devices/d1");
    assert_eq!(
        parameters_url("d1"),
        "https://api.things5.digital/v1/devices/d1/parameters"
    );
}

#[test]
fn states_url_percent_encodes_the_time_range() {
    assert_eq!(
        states_url("d1", "2023-01-02T03:04:05Z", "2023-01-02T03:04:06Z"),
        "https://api.things5.digital/v1/devices/d1/states?from=2023-01-02T03%3A04%3A05Z&to=2023-01-02T03%3A04%3A06Z"
    );
}

#[test]
fn authorize_form_carries_the_password_grant() {
    let form = authorize_form("user@example.com", "hunter2");
    let expected = vec![
        (String::from("client_id"), String::from("api")),
        (String::from("grant_type"), String::from("password")),
        (String::from("scope"), String::from("openid")),
        (String::from("username"), String::from("user@example.com")),
        (String::from("password"), String::from("hunter2")),
    ];
    assert_eq!(form, expected);
}

#[test]
fn ingestion_request_writes_the_active_parameter() {
    let r = refresh_data_ingestion_request("d1");
    assert_eq!(r.url, "https://api.things5.digital/v1/devices/d1/parameters");
    assert_eq!(
        r.body,
        "{\"assets\":[{\"name\":\"configuration\",\"values\":[{\"name\":\"active\",\"type\":\"integer\",\"value\":\"1\"}]}]}"
    );
}

#[test]
fn machine_read_request_queries_an_empty_value() {
    let r = current_machine_request("d1");
    assert_eq!(
        r.body,
        "{\"assets\":[{\"name\":\"configuration\",\"values\":[{\"name\":\"machine\",\"type\":\"integer\",\"value\":\"\"}]}]}"
    );
}

#[test]
fn machine_write_request_carries_base64_of_the_blob() {
    let r = put_current_machine_request("d1", &vec![255u8]);
    assert_eq!(
        r.body,
        "{\"assets\":[{\"name\":\"configuration\",\"values\":[{\"name\":\"machine\",\"type\":\"integer\",\"value\":\"/w==\"}]}]}"
    );
}

#[test]
fn command_requests_use_the_verb_as_parameter_name() {
    let r = start("d1", 9);
    assert_eq!(
        r.body,
        "{\"assets\":[{\"name\":\"configuration\",\"values\":[{\"name\":\"start\",\"type\":\"string\",\"value\":\"9\"}]}]}"
    );
    let r = restart("d1");
    assert_eq!(
        r.body,
        "{\"assets\":[{\"name\":\"configuration\",\"values\":[{\"name\":\"start\",\"type\":\"string\",\"value\":\"\"}]}]}"
    );
    let r = pause("d1");
    assert!(r.body.contains("\"name\":\"pause\""));
    let r = stop("d1");
    assert!(r.body.contains("\"name\":\"stop\""));
    let r = clear_alarms("d1");
    assert!(r.body.contains("\"name\":\"clear_alarms\""));
}

#[test]
fn unparsable_cycle_counter_folds_to_zero() {
    let samples = vec![Sample { name: String::from("cycles"), value: String::from("abc") }];
    let (_state, stats) = fold_state_and_statistics(&samples);
    assert_eq!(stats.cycles, 0);
}

#[test]
fn samples_fold_by_name_with_last_sample_winning() {
    let samples = vec![
        Sample { name: String::from("cycles"), value: String::from("3") },
        Sample { name: String::from("temperature"), value: String::from("60") },
        Sample { name: String::from("cycles"), value: String::from("4") },
        Sample { name: String::from("name"), value: String::from("washer") },
        Sample { name: String::from("porthole_open"), value: String::from("true") },
        Sample { name: String::from("on_time"), value: String::from("70000") },
        Sample { name: String::from("unknown_key"), value: String::from("9") },
    ];
    let (state, stats) = fold_state_and_statistics(&samples);
    assert_eq!(stats.cycles, 4);
    assert_eq!(state.temperature, 60);
    assert_eq!(state.name, "washer");
    assert!(state.porthole_open);
    assert_eq!(stats.on_time, 70_000);
}

#[test]
fn counter_overflowing_its_field_folds_to_zero() {
    let samples = vec![
        Sample { name: String::from("cycles"), value: String::from("70000") },
        Sample { name: String::from("credit"), value: String::from("+12") },
    ];
    let (state, stats) = fold_state_and_statistics(&samples);
    assert_eq!(stats.cycles, 0);
    assert_eq!(state.credit, 12);
}

#[test]
fn states_response_parses_samples_in_order() {
    let body = "{\"data\":[\
        {\"id\":\"a\",\"start_time\":\"s\",\"end_time\":\"e\",\"metadata\":null,\"name\":\"cycles\",\"value\":\"2\"},\
        {\"id\":\"b\",\"start_time\":\"s\",\"end_time\":\"e\",\"name\":\"speed\",\"value\":\"800\"}]}";
    let samples = parse_states_response(body).unwrap();
    assert_eq!(samples.len(), 2);
    assert_eq!(samples[0].name, "cycles");
    assert_eq!(samples[0].value, "2");
    let (state, stats) = fold_state_and_statistics(&samples);
    assert_eq!(stats.cycles, 2);
    assert_eq!(state.speed, 800);
}

#[test]
fn states_response_without_data_is_protocol_error() {
    assert!(matches!(parse_states_response("{}"), Err(Error::Protocol)));
}

#[test]
fn sample_with_numeric_metadata_is_protocol_error() {
    let body = "{\"data\":[{\"id\":\"a\",\"start_time\":\"s\",\"end_time\":\"e\",\
        \"metadata\":7,\"name\":\"cycles\",\"value\":\"2\"}]}";
    assert!(matches!(parse_states_response(body), Err(Error::Protocol)));
}

#[test]
fn sample_missing_its_id_is_protocol_error() {
    let body = "{\"data\":[{\"name\":\"cycles\",\"value\":\"2\"}]}";
    assert!(matches!(parse_states_response(body), Err(Error::Protocol)));
}

#[test]
fn authorize_rejection_is_a_value_error() {
    assert!(matches!(
        parse_authorize_response(false, "{\"access_token\":\"t\"}"),
        Err(Error::Value)
    ));
}

#[test]
fn authorize_missing_token_is_a_value_error() {
    assert!(matches!(
        parse_authorize_response(true, "{\"error\":\"x\"}"),
        Err(Error::Value)
    ));
}

#[test]
fn authorize_unparsable_body_is_protocol_error() {
    assert!(matches!(parse_authorize_response(true, "...."), Err(Error::Protocol)));
}

#[test]
fn authorize_success_yields_the_token() {
    assert_eq!(
        parse_authorize_response(true, "{\"access_token\":\"abc123\"}"),
        Ok(String::from("abc123"))
    );
}

#[test]
fn device_list_parses_ids_and_names() {
    let body = "{\"data\":[{\"id\":\"d1\",\"name\":\"Washer A\"},{\"id\":\"d2\",\"name\":\"Washer B\"}]}";
    let devices = parse_devices_response(body).unwrap();
    assert_eq!(devices.len(), 2);
    assert_eq!(devices[0].id, "d1");
    assert_eq!(devices[1].name, "Washer B");
}

#[test]
fn device_list_without_data_is_protocol_error() {
    assert!(matches!(parse_devices_response("{}"), Err(Error::Protocol)));
}

#[test]
fn device_details_parse_name_and_connectivity() {
    let body = "{\"data\":{\"name\":\"Washer A\",\"is_connected\":true}}";
    assert_eq!(
        parse_device_details_response(body),
        Ok((String::from("Washer A"), true))
    );
}

#[test]
fn write_response_with_errors_is_a_server_error() {
    let body = "{\"assets\":[],\"errors\":[\"first failure\",\"second\"]}";
    match parse_write_response(body) {
        Err(Error::Server(m)) => assert_eq!(m, "first failure"),
        other => panic!("expected Server error, got {:?}", other),
    }
}

#[test]
fn write_response_without_errors_is_accepted() {
    let body = "{\"assets\":[{\"name\":\"configuration\",\"variables\":[\
        {\"name\":\"start\",\"value\":\"\",\"type\":\"string\"}]}]}";
    assert_eq!(parse_write_response(body), Ok(()));
}

#[test]
fn write_response_that_is_not_json_is_a_json_error() {
    assert!(matches!(parse_write_response("...."), Err(Error::Json(_))));
}

#[test]
fn write_outcome_takes_the_first_message() {
    let errors = vec![String::from("uno"), String::from("due")];
    match write_outcome(&errors) {
        Err(Error::Server(m)) => assert_eq!(m, "uno"),
        other => panic!("expected Server error, got {:?}", other),
    }
    assert_eq!(write_outcome(&Vec::new()), Ok(()));
}

#[test]
fn current_machine_response_decodes_the_blob() {
    let body = "{\"assets\":[{\"name\":\"other\",\"variables\":[]},\
        {\"name\":\"configuration\",\"variables\":[\
        {\"name\":\"noise\",\"value\":\"x\",\"type\":\"string\"},\
        {\"name\":\"machine\",\"value\":\"AAEC\",\"type\":\"integer\"}]}]}";
    assert_eq!(parse_current_machine_response(body), Ok(vec![0u8, 1, 2]));
}

#[test]
fn current_machine_with_bad_base64_is_protocol_error() {
    let body = "{\"assets\":[{\"name\":\"configuration\",\"variables\":[\
        {\"name\":\"machine\",\"value\":\"!!!\",\"type\":\"integer\"}]}]}";
    assert!(matches!(parse_current_machine_response(body), Err(Error::Protocol)));
}

#[test]
fn current_machine_without_machine_variable_is_protocol_error() {
    let body = "{\"assets\":[{\"name\":\"configuration\",\"variables\":[]}]}";
    assert!(matches!(parse_current_machine_response(body), Err(Error::Protocol)));
}

#[test]
fn decode_write_response_reads_echoes_and_errors() {
    let body = "{\"assets\":[{\"name\":\"configuration\",\"variables\":[\
        {\"name\":\"start\",\"value\":\"5\",\"type\":\"string\"}]}],\"errors\":[\"e1\"]}";
    let (assets, errors) = decode_write_response(body).unwrap();
    assert_eq!(assets.len(), 1);
    assert_eq!(assets[0].name, "configuration");
    assert_eq!(assets[0].variables[0].name, "start");
    assert_eq!(assets[0].variables[0].value, "5");
    assert_eq!(errors, vec![String::from("e1")]);
}

#[test]
fn program_catalogue_splits_into_name_kind_pairs() {
    let programs = parse_programs("Cotone,1,Lana,2");
    assert_eq!(programs.len(), 2);
    assert_eq!(programs[0].name, "Cotone");
    assert_eq!(programs[0].wash_type, 1);
    assert_eq!(programs[1].name, "Lana");
    assert_eq!(programs[1].wash_type, 2);
}

#[test]
fn program_catalogue_tolerates_garbled_kinds_and_odd_tails() {
    let programs = parse_programs("Cotone,abc,Lana");
    assert_eq!(programs.len(), 1);
    assert_eq!(programs[0].name, "Cotone");
    assert_eq!(programs[0].wash_type, 0);
    assert_eq!(parse_programs("").len(), 0);
}

#[test]
fn preview_configuration_reads_the_configuration_asset() {
    let body = "{\"assets\":[\
        {\"name\":\"other\",\"variables\":[]},\
        {\"name\":\"configuration\",\"variables\":[\
        {\"name\":\"name\",\"value\":\"lavatrice\"},\
        {\"name\":\"machine_version\",\"value\":\"3.4\"},\
        {\"name\":\"ignored\",\"value\":\"x\"},\
        {\"name\":\"programs\",\"value\":\"Cotone,1,Lana,2\"}]}]}";
    let configuration = parse_preview_configuration(body).unwrap();
    assert_eq!(configuration.name, "lavatrice");
    assert_eq!(configuration.app_version, "3.4");
    assert!(configuration.machines.is_empty());
    assert_eq!(configuration.programs.len(), 2);
    assert_eq!(configuration.programs[1].name, "Lana");
}

#[test]
fn preview_without_configuration_asset_is_protocol_error() {
    let body = "{\"assets\":[{\"name\":\"other\",\"variables\":[]}]}";
    assert!(matches!(parse_preview_configuration(body), Err(Error::Protocol)));
}
