use laundry_control::error::Error;
use laundry_control::washing_machine::things5::{
    Connection, RefreshPlan, FULL_REFRESH_WINDOW_MS, SUGGESTED_REFRESH_PERIOD_MS,
};
use laundry_control::washing_machine::{Configuration, ConnectionState, State, Statistics};

fn ok_details() -> Result<(String, bool), Error> {
    Ok((String::from("washer"), true))
}

fn ok_state_stats() -> Result<(State, Statistics), Error> {
    Ok((State::default(), Statistics::default()))
}

fn ok_configuration() -> Result<Configuration, Error> {
    let mut c = Configuration::default();
    c.name = String::from("lavatrice");
    Ok(c)
}

fn connected_connection(now: u64) -> Connection {
    Connection::new(
        String::from("tok"),
        String::from("dev"),
        now,
        Ok(()),
        ok_details(),
        ok_state_stats(),
        ok_configuration(),
    )
}

#[test]
fn cloud_bootstrap_with_all_successes_is_connected() {
    let conn = connected_connection(1_000);
    assert_eq!(conn.token, "tok");
    assert_eq!(conn.device_id, "dev");
    assert_eq!(conn.last_complete_update, 1_000);
    match conn.connection_state {
        ConnectionState::Connected { active, name, configuration, .. } => {
            assert!(active);
            assert_eq!(name, "washer");
            assert_eq!(configuration.name, "lavatrice");
        }
        _ => panic!("expected Connected"),
    }
}

#[test]
fn cloud_bootstrap_after_failed_ingestion_is_error() {
    let conn = Connection::new(
        String::from("tok"),
        String::from("dev"),
        0,
        Err(Error::Network(String::from("timed out"))),
        ok_details(),
        ok_state_stats(),
        ok_configuration(),
    );
    assert!(matches!(conn.connection_state, ConnectionState::Error));
}

#[test]
fn cloud_bootstrap_with_failed_details_is_error() {
    let conn = Connection::new(
        String::from("tok"),
        String::from("dev"),
        0,
        Ok(()),
        Err(Error::Protocol),
        ok_state_stats(),
        ok_configuration(),
    );
    assert!(matches!(conn.connection_state, ConnectionState::Error));
}

#[test]
fn refresh_inside_window_is_partial_when_connected() {
    let conn = connected_connection(0);
    assert_eq!(conn.refresh_plan(FULL_REFRESH_WINDOW_MS), RefreshPlan::Partial);
}

#[test]
fn refresh_outside_window_triggers_ingestion() {
    let conn = connected_connection(0);
    assert_eq!(
        conn.refresh_plan(FULL_REFRESH_WINDOW_MS + 1),
        RefreshPlan::FullWithIngestion
    );
}

#[test]
fn error_recovery_inside_window_bypasses_rate_limiting() {
    let mut conn = connected_connection(0);
    conn.apply_partial_refresh(Err(Error::Protocol), ok_state_stats());
    assert!(matches!(conn.connection_state, ConnectionState::Error));
    assert_eq!(conn.refresh_plan(5_000), RefreshPlan::Bootstrap);
}

#[test]
fn partial_refresh_keeps_cached_configuration() {
    let mut conn = connected_connection(0);
    conn.apply_partial_refresh(Ok((String::from("washer2"), false)), ok_state_stats());
    match conn.connection_state {
        ConnectionState::Connected { active, name, configuration, .. } => {
            assert!(!active);
            assert_eq!(name, "washer2");
            assert_eq!(configuration.name, "lavatrice");
        }
        _ => panic!("expected Connected"),
    }
    assert_eq!(conn.last_complete_update, 0);
}

#[test]
fn full_refresh_resets_the_window() {
    let mut conn = connected_connection(0);
    conn.apply_full_refresh(
        200_000,
        Ok(()),
        ok_details(),
        ok_state_stats(),
        ok_configuration(),
    );
    assert_eq!(conn.last_complete_update, 200_000);
    assert!(matches!(conn.connection_state, ConnectionState::Connected { .. }));
}

#[test]
fn bootstrap_recovery_keeps_the_window_timestamp() {
    let mut conn = connected_connection(700);
    conn.apply_bootstrap(ok_details(), ok_state_stats(), ok_configuration());
    assert_eq!(conn.last_complete_update, 700);
}

#[test]
fn select_machine_configuration_always_succeeds_for_cloud() {
    let conn = connected_connection(0);
    assert_eq!(conn.select_machine_configuration("any archive"), Ok(()));
    let mut broken = connected_connection(0);
    broken.apply_partial_refresh(Err(Error::Protocol), Err(Error::Protocol));
    assert_eq!(broken.select_machine_configuration("other"), Ok(()));
}

#[test]
fn suggested_refresh_period_is_five_seconds() {
    let conn = connected_connection(0);
    assert_eq!(conn.suggested_refresh_period_ms(), SUGGESTED_REFRESH_PERIOD_MS);
    assert_eq!(SUGGESTED_REFRESH_PERIOD_MS, 5_000);
}
