use laundry_control::controller::{
    discovery_events, fault_notification, handle_get_configuration_result, handle_login_result,
    parse_port_message, startup_events, ActiveConnection, BackEndPortMessage, Controller,
    LoopFault, RefreshDue, UiEvent, POLL_INTERVAL_MS, QUICK_REFRESH_DELAY_MS,
    REGULAR_REFRESH_PERIOD_MS,
};
use laundry_control::error::Error;
use laundry_control::things5_api::Device;
use laundry_control::washing_machine::local;
use laundry_control::washing_machine::{Configuration, ConnectionState, State, Statistics};

fn connected_local() -> local::Connection {
    local::Connection::new(
        String::from("10.0.0.7"),
        Ok(State::default()),
        Ok(Configuration::default()),
        Ok(Statistics::default()),
    )
}

fn failed_local() -> local::Connection {
    local::Connection::new(
        String::from("10.0.0.7"),
        Err(Error::Protocol),
        Ok(Configuration::default()),
        Ok(Statistics::default()),
    )
}

fn notification_text(event: &UiEvent) -> &str {
    match event {
        UiEvent::Notification(m) => m.as_str(),
        _ => panic!("expected a notification"),
    }
}

#[test]
fn intervals_are_the_documented_constants() {
    assert_eq!(POLL_INTERVAL_MS, 100);
    assert_eq!(QUICK_REFRESH_DELAY_MS, 300);
    assert_eq!(REGULAR_REFRESH_PERIOD_MS, 1_000);
}

#[test]
fn new_controller_reports_disconnected() {
    let c = Controller::new(0);
    assert!(!c.has_connection());
    assert!(matches!(c.snapshot(), ConnectionState::Disconnected));
    assert_eq!(c.due_refresh(10_000), None);
}

#[test]
fn successful_connect_installs_the_connection_and_announces_it() {
    let mut c = Controller::new(0);
    let events = c.handle_local_connect(connected_local(), 500);
    assert!(c.has_connection());
    assert_eq!(c.update_ts, 500);
    assert_eq!(events.len(), 2);
    assert_eq!(notification_text(&events[0]), "Connesso");
    assert!(matches!(events[1], UiEvent::StateUpdate(ConnectionState::Connected { .. })));
}

#[test]
fn failed_connect_leaves_everything_as_it_was() {
    let mut c = Controller::new(0);
    let events = c.handle_local_connect(failed_local(), 500);
    assert!(!c.has_connection());
    assert_eq!(c.update_ts, 0);
    assert_eq!(events.len(), 1);
    assert_eq!(notification_text(&events[0]), "ConnessioneFallita");
}

#[test]
fn two_commands_in_a_burst_debounce_into_one_quick_refresh() {
    let mut c = Controller::new(0);
    c.handle_local_connect(connected_local(), 0);
    c.schedule_quick_refresh(1_000);
    c.schedule_quick_refresh(1_050);
    assert_eq!(c.due_refresh(1_300), None);
    assert_eq!(c.due_refresh(1_349), None);
    assert_eq!(c.due_refresh(1_350), None);
    assert_eq!(c.due_refresh(1_351), Some(RefreshDue::Quick));
    c.note_refresh_done(1_351);
    assert_eq!(c.due_refresh(1_400), None);
    assert_eq!(c.due_refresh(2_351), None);
    assert_eq!(c.due_refresh(2_352), Some(RefreshDue::Regular));
}

#[test]
fn pending_quick_refresh_suppresses_the_regular_cadence() {
    let mut c = Controller::new(0);
    c.handle_local_connect(connected_local(), 0);
    c.schedule_quick_refresh(2_000);
    assert_eq!(c.due_refresh(2_200), None);
}

#[test]
fn idle_machine_refreshes_on_the_regular_cadence() {
    let mut c = Controller::new(0);
    c.handle_local_connect(connected_local(), 0);
    assert_eq!(c.due_refresh(1_000), None);
    assert_eq!(c.due_refresh(1_001), Some(RefreshDue::Regular));
}

#[test]
fn control_outcome_always_schedules_a_quick_refresh() {
    let mut c = Controller::new(0);
    c.handle_local_connect(connected_local(), 0);
    c.handle_control_result(Err(Error::Protocol), 700);
    assert_eq!(c.quick_update_ts, Some(700));
}

#[test]
fn send_configuration_outcome_notifies_and_schedules() {
    let mut c = Controller::new(0);
    c.handle_local_connect(connected_local(), 0);
    let ok = c.handle_send_configuration_result(Ok(()), 900);
    assert_eq!(notification_text(&ok), "ConfigurazioneCaricata");
    assert_eq!(c.quick_update_ts, Some(900));
    let err = c.handle_send_configuration_result(Err(Error::Protocol), 950);
    assert_eq!(
        notification_text(&err),
        "NonSonoRiuscitoACaricareLaConfigurazione"
    );
}

#[test]
fn select_configuration_schedules_only_on_success() {
    let mut c = Controller::new(0);
    c.handle_local_connect(connected_local(), 0);
    let err = c.handle_select_configuration_result(Err(Error::Protocol), 400);
    assert_eq!(notification_text(&err), "Fallimento");
    assert_eq!(c.quick_update_ts, None);
    let ok = c.handle_select_configuration_result(Ok(()), 450);
    assert_eq!(notification_text(&ok), "Successo");
    assert_eq!(c.quick_update_ts, Some(450));
}

#[test]
fn get_configuration_outcome_delivers_the_bytes() {
    let events = handle_get_configuration_result(Ok(vec![1u8, 2, 3]));
    assert_eq!(events.len(), 2);
    assert!(matches!(&events[0], UiEvent::RemoteMachineLoaded(b) if b == &vec![1u8, 2, 3]));
    assert_eq!(notification_text(&events[1]), "ConfigurazioneScaricata");
    let failed = handle_get_configuration_result(Err(Error::Protocol));
    assert_eq!(
        notification_text(&failed[0]),
        "NonSonoRiuscitoAScaricareLaConfigurazione"
    );
}

#[test]
fn login_success_announces_token_then_devices_and_saves() {
    let devices = vec![Device { id: String::from("d1"), name: String::from("Washer") }];
    let outcome = handle_login_result(Ok(String::from("tok")), Ok(devices));
    assert_eq!(outcome.events.len(), 2);
    assert!(matches!(&outcome.events[0], UiEvent::Things5Login(t) if t == "tok"));
    assert!(matches!(&outcome.events[1], UiEvent::Things5Devices(d) if d.len() == 1));
    assert_eq!(outcome.save_token, Some(String::from("tok")));
}

#[test]
fn login_with_unreachable_device_list_does_not_save_the_token() {
    let outcome = handle_login_result(Ok(String::from("tok")), Err(Error::Protocol));
    assert_eq!(outcome.events.len(), 1);
    assert_eq!(outcome.save_token, None);
}

#[test]
fn rejected_credentials_surface_their_specific_notification() {
    let outcome = handle_login_result(Err(Error::Value), Err(Error::Value));
    assert_eq!(notification_text(&outcome.events[0]), "CredenzialiNonValide");
    let outcome = handle_login_result(
        Err(Error::Network(String::from("down"))),
        Err(Error::Value),
    );
    assert_eq!(notification_text(&outcome.events[0]), "ErroreDiRete");
}

#[test]
fn startup_announces_a_saved_token_only_with_its_devices() {
    let devices = vec![Device { id: String::from("d1"), name: String::from("Washer") }];
    let events = startup_events(Some(String::from("tok")), Ok(devices));
    assert_eq!(events.len(), 2);
    assert!(startup_events(Some(String::from("tok")), Err(Error::Protocol)).is_empty());
    assert!(startup_events(None, Err(Error::Protocol)).is_empty());
}

#[test]
fn finished_discovery_publishes_the_addresses() {
    let found = vec![(String::from("10.0.0.5"), String::from("NODE1"))];
    let events = discovery_events(Ok(found.clone()));
    assert_eq!(events.len(), 1);
    assert!(matches!(&events[0], UiEvent::IpAddresses(a) if a == &found));
    assert!(discovery_events(Err(String::from("socket error"))).is_empty());
}

#[test]
fn loop_faults_become_notifications_not_termination() {
    assert_eq!(
        notification_text(&fault_notification(LoopFault::MalformedCommand)),
        "Fallimento"
    );
    assert_eq!(
        notification_text(&fault_notification(LoopFault::MissingConnection)),
        "Fallimento"
    );
}

#[test]
fn event_topics_match_the_ui_port() {
    assert_eq!(UiEvent::Notification(String::from("x")).topic(), "notificationMessage");
    assert_eq!(
        UiEvent::StateUpdate(ConnectionState::Disconnected).topic(),
        "stateUpdate"
    );
    assert_eq!(UiEvent::IpAddresses(Vec::new()).topic(), "ipAddresses");
    assert_eq!(UiEvent::Things5Login(String::from("t")).topic(), "things5Login");
    assert_eq!(UiEvent::Things5Devices(Vec::new()).topic(), "things5Devices");
    assert_eq!(UiEvent::RemoteMachineLoaded(Vec::new()).topic(), "remoteMachineLoaded");
}

#[test]
fn preference_keys_are_the_fixed_store_names() {
    assert_eq!(laundry_control::prefs::token_key(), "token");
    assert_eq!(
        laundry_control::prefs::preferences_key(),
        "laundry-control-preferences"
    );
    let prefs = laundry_control::prefs::AppPreferences {
        language: String::from("it"),
        token: String::from("tok"),
    };
    assert_eq!(prefs.language, "it");
    assert_eq!(prefs.token, "tok");
}

#[test]
fn snapshot_reflects_the_active_backend() {
    let mut c = Controller::new(0);
    c.handle_local_connect(connected_local(), 0);
    assert!(matches!(c.snapshot(), ConnectionState::Connected { .. }));
    match &c.connection {
        Some(ActiveConnection::Local(conn)) => {
            assert!(matches!(conn.connection_state, ConnectionState::Connected { .. }))
        }
        _ => panic!("expected a local connection"),
    }
}

#[test]
fn unit_commands_parse_from_their_bare_names() {
    assert!(matches!(
        parse_port_message("\"Refresh\""),
        Ok(BackEndPortMessage::Refresh)
    ));
    assert!(matches!(
        parse_port_message("\"SearchMachines\""),
        Ok(BackEndPortMessage::SearchMachines)
    ));
    assert!(matches!(
        parse_port_message("\"Pause\""),
        Ok(BackEndPortMessage::Pause)
    ));
    assert!(matches!(
        parse_port_message("\"ClearAlarms\""),
        Ok(BackEndPortMessage::ClearAlarms)
    ));
}

#[test]
fn tagged_commands_parse_with_their_payloads() {
    match parse_port_message("{\"WashingMachineHttpConnect\":\"10.0.0.7\"}") {
        Ok(BackEndPortMessage::WashingMachineHttpConnect(ip)) => assert_eq!(ip, "10.0.0.7"),
        other => panic!("unexpected {:?}", other),
    }
    match parse_port_message("{\"Things5Login\":{\"username\":\"u\",\"password\":\"p\"}}") {
        Ok(BackEndPortMessage::Things5Login { username, password }) => {
            assert_eq!(username, "u");
            assert_eq!(password, "p");
        }
        other => panic!("unexpected {:?}", other),
    }
    match parse_port_message("{\"StartProgram\":7}") {
        Ok(BackEndPortMessage::StartProgram(p)) => assert_eq!(p, 7),
        other => panic!("unexpected {:?}", other),
    }
    match parse_port_message("{\"SendCurrentMachineConfiguration\":[1,2,255]}") {
        Ok(BackEndPortMessage::SendCurrentMachineConfiguration(bytes)) => {
            assert_eq!(bytes, vec![1u8, 2, 255])
        }
        other => panic!("unexpected {:?}", other),
    }
}

#[test]
fn malformed_command_payloads_are_errors_the_loop_survives() {
    assert!(matches!(parse_port_message("not json"), Err(Error::Json(_))));
    assert!(matches!(
        parse_port_message("\"NoSuchCommand\""),
        Err(Error::Protocol)
    ));
    assert!(matches!(
        parse_port_message("{\"StartProgram\":70000}"),
        Err(Error::Protocol)
    ));
    assert!(matches!(
        parse_port_message("{\"SendCurrentMachineConfiguration\":[300]}"),
        Err(Error::Protocol)
    ));
    assert!(matches!(
        parse_port_message("{\"Pause\":null,\"Stop\":null}"),
        Err(Error::Protocol)
    ));
    assert!(matches!(parse_port_message("17"), Err(Error::Protocol)));
}
