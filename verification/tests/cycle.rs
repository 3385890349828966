use melcloud::cycle::{
    fetch_and_log_new_entry, get_access_token, get_device, refresh_device, Action, Cycle, Event,
    FetchReply, FetchVerdict, Phase, Sink,
};
use melcloud::errors::ApiError;
use melcloud::models::{
    CurrentDataResponse, Device, Devices, ListDevicesResponse, LoginData, LoginResponse, Scalar,
    Structure,
};
use melcloud::snapshot::{normalize, Upload};
use melcloud::time::UtcInstant;

fn scalar(value: f32) -> Scalar {
    Scalar { bits: value.to_bits() }
}

fn device(stamp: &str) -> Device {
    Device {
        device_iD: 4711,
        device_type: 0,
        power: true,
        offline: false,
        room_temperature: scalar(21.5),
        set_temperature: scalar(22.0),
        actual_fan_speed: 2,
        fan_speed: 3,
        automatic_fan_speed: Some(true),
        vane_vertical_direction: 4,
        vane_vertical_swing: Some(false),
        vane_horizontal_direction: 5,
        vane_horizontal_swing: Some(false),
        operation_mode: 1,
        in_standby_mode: false,
        heating_energy_consumed_rate1: Some(scalar(1.0)),
        heating_energy_consumed_rate2: None,
        cooling_energy_consumed_rate1: None,
        cooling_energy_consumed_rate2: None,
        auto_energy_consumed_rate1: None,
        auto_energy_consumed_rate2: None,
        dry_energy_consumed_rate1: None,
        dry_energy_consumed_rate2: None,
        fan_energy_consumed_rate1: None,
        fan_energy_consumed_rate2: None,
        other_energy_consumed_rate1: None,
        other_energy_consumed_rate2: None,
        current_energy_consumed: Some(scalar(120.0)),
        current_energy_mode: Some(1),
        energy_correction_model: None,
        energy_correction_active: None,
        wifi_signal_strength: Some(scalar(-61.0)),
        wifi_adapter_status: Some("NORMAL".to_string()),
        has_error: Some(false),
        last_time_stamp: stamp.to_string(),
    }
}

fn device_list(stamp: &str) -> Vec<ListDevicesResponse> {
    vec![ListDevicesResponse {
        iD: 99,
        structure: Structure {
            devices: vec![Devices {
                device_iD: 4711,
                device_name: None,
                building_iD: 99,
                building_name: None,
                device: device(stamp),
            }],
        },
    }]
}

fn current(stamp: &str) -> CurrentDataResponse {
    CurrentDataResponse {
        device_iD: 4711,
        device_type: 0,
        power: true,
        offline: false,
        room_temperature: scalar(21.5),
        set_temperature: scalar(22.0),
        set_fan_speed: 3,
        operation_mode: 1,
        vane_horizontal: 5,
        vane_vertical: 4,
        in_standby_mode: false,
        has_pending_command: false,
        last_communication: stamp.to_string(),
        next_communication: "2024-01-15T08:01:00.000".to_string(),
    }
}

fn cycle_at(phase: Phase) -> Cycle {
    Cycle {
        token: "OLD".to_string(),
        device_id: "4711".to_string(),
        building_id: "99".to_string(),
        zone: "Europe/Helsinki".to_string(),
        fetch_interval: 10000,
        refresh_interval: 60000,
        phase,
        pending: None,
    }
}

fn holding(sink: Sink, upload: Upload) -> Cycle {
    let mut cycle = cycle_at(Phase::Writing { sink });
    cycle.pending = Some(upload);
    cycle
}

fn failed(message: &str) -> Event {
    Event::Written(Err(message.to_string()))
}

fn other(message: &str) -> ApiError {
    ApiError::Other(message.to_string())
}

fn refresh_with(token: &str) -> Action {
    Action::RequestRefresh { token: token.to_string(), device_id: "4711".to_string() }
}

fn list_with(token: &str) -> Action {
    Action::ListDevices { token: token.to_string() }
}

fn current_with(token: &str) -> Action {
    Action::GetCurrentData {
        token: token.to_string(),
        device_id: "4711".to_string(),
        building_id: "99".to_string(),
    }
}

#[test]
fn a_cycle_starts_by_requesting_a_refresh() {
    let (cycle, action) = Cycle::start(
        "OLD".to_string(),
        "4711".to_string(),
        "99".to_string(),
        "Europe/Helsinki".to_string(),
        10000,
        60000,
    );
    assert_eq!(cycle, cycle_at(Phase::Refreshing { retried: false }));
    assert_eq!(action, refresh_with("OLD"));
}

#[test]
fn a_quiet_round_refreshes_waits_fetches_persists_and_waits() {
    let upload = || Upload::DeviceList(device_list("2024-01-15T10:00:00"));
    let cycle = cycle_at(Phase::Refreshing { retried: false });
    let (cycle, action) = cycle.step(Event::Refreshed(Ok(true)));
    assert_eq!(action, Action::Sleep { millis: 10000 });
    assert_eq!(cycle.phase, Phase::FetchWait);
    let (cycle, action) = cycle.step(Event::Woke);
    assert_eq!(action, list_with("OLD"));
    assert_eq!(cycle.phase, Phase::Listing { retried: false });
    let (cycle, action) = cycle.step(Event::Listed(Ok(device_list("2024-01-15T10:00:00"))));
    assert_eq!(action, Action::Write { sink: Sink::Influx });
    assert_eq!(cycle, holding(Sink::Influx, upload()));
    let (cycle, action) = cycle.step(Event::Written(Ok(())));
    assert_eq!(action, Action::Write { sink: Sink::Timescale });
    assert_eq!(cycle, holding(Sink::Timescale, upload()));
    let (cycle, action) = cycle.step(Event::Written(Ok(())));
    assert_eq!(action, Action::Sleep { millis: 60000 });
    assert_eq!(cycle, cycle_at(Phase::RefreshWait));
    let (cycle, action) = cycle.step(Event::Woke);
    assert_eq!(action, refresh_with("OLD"));
    assert_eq!(cycle, cycle_at(Phase::Refreshing { retried: false }));
}

#[test]
fn a_failing_sink_keeps_no_other_sink_from_its_try() {
    let upload = || Upload::CurrentData(current("2024-01-15T08:00:00.000"));
    for first in [Ok(()), Err("influx is down".to_string())] {
        for second in [Ok(()), Err("timescale is down".to_string())] {
            let (cycle, action) = holding(Sink::Influx, upload()).step(Event::Written(first.clone()));
            assert_eq!(action, Action::Write { sink: Sink::Timescale });
            assert_eq!(cycle, holding(Sink::Timescale, upload()));
            let (cycle, action) = cycle.step(Event::Written(second));
            assert_eq!(action, Action::Sleep { millis: 60000 });
            assert_eq!(cycle, cycle_at(Phase::RefreshWait));
        }
    }
    let (cycle, action) = holding(Sink::Influx, upload()).step(failed("a"));
    assert_eq!(action, Action::Write { sink: Sink::Timescale });
    let (_, action) = cycle.step(failed("b"));
    assert_eq!(action, Action::Sleep { millis: 60000 });
}

#[test]
fn a_rejected_refresh_is_retried_once_after_one_login() {
    let cycle = cycle_at(Phase::Refreshing { retried: false });
    let (cycle, action) = cycle.step(Event::Refreshed(Err(ApiError::Unauthorized)));
    assert_eq!(action, Action::Login);
    assert_eq!(cycle.phase, Phase::RefreshLogin);
    let (cycle, action) = cycle.step(Event::LoggedIn("NEW".to_string()));
    assert_eq!(action, refresh_with("NEW"));
    assert_eq!(cycle.token, "NEW");
    assert_eq!(cycle.phase, Phase::Refreshing { retried: true });
    let (cycle, action) = cycle.step(Event::Refreshed(Err(ApiError::Unauthorized)));
    assert_eq!(action, Action::Sleep { millis: 10000 });
    assert_eq!(cycle.phase, Phase::FetchWait);
    assert_eq!(cycle.token, "NEW");
}

#[test]
fn a_failed_refresh_does_not_stop_the_round() {
    let (cycle, action) =
        cycle_at(Phase::Refreshing { retried: false }).step(Event::Refreshed(Err(other("503"))));
    assert_eq!(action, Action::Sleep { millis: 10000 });
    assert_eq!(cycle, cycle_at(Phase::FetchWait));
    let (cycle, action) =
        cycle_at(Phase::Refreshing { retried: true }).step(Event::Refreshed(Ok(false)));
    assert_eq!(action, Action::Sleep { millis: 10000 });
    assert_eq!(cycle, cycle_at(Phase::FetchWait));
}

#[test]
fn two_rejected_listings_cost_one_login_and_persist_nothing() {
    let mut asked = Vec::new();
    let cycle = cycle_at(Phase::Listing { retried: false });
    let (cycle, action) = cycle.step(Event::Listed(Err(ApiError::Unauthorized)));
    asked.push(action);
    let (cycle, action) = cycle.step(Event::LoggedIn("NEW".to_string()));
    asked.push(action);
    let (cycle, action) = cycle.step(Event::Listed(Err(ApiError::Unauthorized)));
    asked.push(action);
    assert_eq!(asked, vec![Action::Login, list_with("NEW"), Action::Sleep { millis: 60000 }]);
    assert_eq!(asked.iter().filter(|a| matches!(a, Action::Login)).count(), 1);
    assert_eq!(asked.iter().filter(|a| matches!(a, Action::Write { .. })).count(), 0);
    assert_eq!(cycle.phase, Phase::RefreshWait);
    assert_eq!(cycle.pending, None);
    assert_eq!(cycle.token, "NEW");
}

#[test]
fn a_failed_listing_falls_back_to_the_lean_reading() {
    let mut asked = Vec::new();
    let mut held = Vec::new();
    let cycle = cycle_at(Phase::Listing { retried: false });
    let (cycle, action) = cycle.step(Event::Listed(Err(other("no devices"))));
    asked.push(action);
    assert_eq!(cycle.phase, Phase::FallingBack { retried: false });
    let (cycle, action) = cycle.step(Event::Fetched(Ok(current("2024-01-15T08:00:00.000"))));
    asked.push(action);
    held.push(cycle.pending.clone());
    let (cycle, action) = cycle.step(Event::Written(Ok(())));
    asked.push(action);
    held.push(cycle.pending.clone());
    let (cycle, action) = cycle.step(Event::Written(Ok(())));
    asked.push(action);
    assert_eq!(cycle, cycle_at(Phase::RefreshWait));
    assert_eq!(
        asked,
        vec![
            current_with("OLD"),
            Action::Write { sink: Sink::Influx },
            Action::Write { sink: Sink::Timescale },
            Action::Sleep { millis: 60000 },
        ]
    );
    let upload = Upload::CurrentData(current("2024-01-15T08:00:00.000"));
    assert_eq!(held, vec![Some(upload.clone()), Some(upload.clone())]);
    let snapshot = normalize(&upload, "Europe/Helsinki").unwrap();
    assert_eq!(snapshot.time, UtcInstant { secs: 1705305600, nanos: 0 });
    assert_eq!(snapshot.actual_fan_speed, 3);
    assert_eq!(snapshot.fan_speed, 3);
    assert_eq!(snapshot.automatic_fan_speed, None);
    assert_eq!(snapshot.vane_vertical_swing, None);
    assert_eq!(snapshot.vane_horizontal_swing, None);
    assert_eq!(snapshot.heating_energy_consumed_rate1, None);
    assert_eq!(snapshot.other_energy_consumed_rate2, None);
    assert_eq!(snapshot.current_energy_consumed, None);
    assert_eq!(snapshot.current_energy_mode, None);
    assert_eq!(snapshot.energy_correction_model, None);
    assert_eq!(snapshot.energy_correction_active, None);
    assert_eq!(snapshot.wifi_signal_strength, None);
    assert_eq!(snapshot.wifi_adapter_status, None);
    assert_eq!(snapshot.has_error, None);
}

#[test]
fn a_list_without_a_device_falls_back_too() {
    let (cycle, action) =
        cycle_at(Phase::Listing { retried: true }).step(Event::Listed(Ok(Vec::new())));
    assert_eq!(action, current_with("OLD"));
    assert_eq!(cycle.phase, Phase::FallingBack { retried: true });
}

#[test]
fn a_rejected_fallback_starts_the_fetch_over_after_one_login() {
    let cycle = cycle_at(Phase::FallingBack { retried: false });
    let (cycle, action) = cycle.step(Event::Fetched(Err(ApiError::Unauthorized)));
    assert_eq!(action, Action::Login);
    assert_eq!(cycle.phase, Phase::FetchLogin);
    let (cycle, action) = cycle.step(Event::LoggedIn("NEW".to_string()));
    assert_eq!(action, list_with("NEW"));
    assert_eq!(cycle.phase, Phase::Listing { retried: true });
    let (cycle, action) = cycle.step(Event::Listed(Err(other("again"))));
    assert_eq!(action, current_with("NEW"));
    assert_eq!(cycle.phase, Phase::FallingBack { retried: true });
    let (cycle, action) = cycle.step(Event::Fetched(Err(ApiError::Unauthorized)));
    assert_eq!(action, Action::Sleep { millis: 60000 });
    assert_eq!(cycle.phase, Phase::RefreshWait);
}

#[test]
fn a_failed_fallback_ends_the_fetch() {
    let (cycle, action) =
        cycle_at(Phase::FallingBack { retried: false }).step(Event::Fetched(Err(other("500"))));
    assert_eq!(action, Action::Sleep { millis: 60000 });
    assert_eq!(cycle, cycle_at(Phase::RefreshWait));
}

#[test]
fn an_unreadable_stamp_persists_nothing() {
    let (cycle, action) = cycle_at(Phase::Listing { retried: false })
        .step(Event::Listed(Ok(device_list("ten o'clock"))));
    assert_eq!(action, Action::Sleep { millis: 60000 });
    assert_eq!(cycle, cycle_at(Phase::RefreshWait));
    let (cycle, action) =
        cycle_at(Phase::FallingBack { retried: false }).step(Event::Fetched(Ok(current("soon"))));
    assert_eq!(action, Action::Sleep { millis: 60000 });
    assert_eq!(cycle, cycle_at(Phase::RefreshWait));
}

#[test]
fn an_event_that_answers_nothing_changes_nothing() {
    let (cycle, action) = cycle_at(Phase::FetchWait).step(Event::Written(Ok(())));
    assert_eq!(action, Action::Idle);
    assert_eq!(cycle, cycle_at(Phase::FetchWait));
    let upload = || Upload::CurrentData(current("2024-01-15T08:00:00.000"));
    let (cycle, action) = holding(Sink::Timescale, upload()).step(Event::Woke);
    assert_eq!(action, Action::Idle);
    assert_eq!(cycle, holding(Sink::Timescale, upload()));
    let (cycle, action) =
        cycle_at(Phase::Listing { retried: false }).step(Event::LoggedIn("NEW".to_string()));
    assert_eq!(action, Action::Idle);
    assert_eq!(cycle, cycle_at(Phase::Listing { retried: false }));
}

#[test]
fn fetch_verdicts_follow_the_reply() {
    let zone = "Europe/Helsinki";
    assert_eq!(
        fetch_and_log_new_entry(FetchReply::Listed(Ok(device_list("2024-01-15T10:00:00"))), zone),
        FetchVerdict::Persist(Upload::DeviceList(device_list("2024-01-15T10:00:00")))
    );
    assert_eq!(
        fetch_and_log_new_entry(FetchReply::Listed(Ok(device_list("2024-03-31T03:30:00"))), zone),
        FetchVerdict::Done(Ok(()))
    );
    assert_eq!(
        fetch_and_log_new_entry(FetchReply::Listed(Err(ApiError::Unauthorized)), zone),
        FetchVerdict::Done(Err(ApiError::Unauthorized))
    );
    assert_eq!(
        fetch_and_log_new_entry(FetchReply::Listed(Err(other("x"))), zone),
        FetchVerdict::FallBack
    );
    assert_eq!(
        fetch_and_log_new_entry(FetchReply::Fetched(Ok(current("2024-01-15T08:00:00.000"))), zone),
        FetchVerdict::Persist(Upload::CurrentData(current("2024-01-15T08:00:00.000")))
    );
    assert_eq!(
        fetch_and_log_new_entry(FetchReply::Fetched(Ok(current("2024-01-15"))), zone),
        FetchVerdict::Done(Ok(()))
    );
    assert_eq!(
        fetch_and_log_new_entry(FetchReply::Fetched(Err(other("x"))), zone),
        FetchVerdict::Done(Err(other("x")))
    );
    assert_eq!(
        fetch_and_log_new_entry(FetchReply::Fetched(Err(ApiError::Unauthorized)), zone),
        FetchVerdict::Done(Err(ApiError::Unauthorized))
    );
}

#[test]
fn the_session_token_is_empty_after_a_failed_login() {
    let session = LoginResponse {
        error_id: None,
        error_message: None,
        login_data: Some(LoginData {
            context_key: "ABCDEF".to_string(),
            client: 1,
            duration: 525600,
            expiry: "2025-01-15T08:00:00.000".to_string(),
        }),
    };
    assert_eq!(get_access_token(Ok(session)), "ABCDEF");
    assert_eq!(get_access_token(Err("wrong password".to_string())), "");
}

#[test]
fn the_device_is_the_first_of_the_list() {
    assert_eq!(
        get_device(Ok(device_list("2024-01-15T10:00:00"))),
        Ok((99, device("2024-01-15T10:00:00")))
    );
    assert_eq!(get_device(Err(ApiError::Unauthorized)), Err(ApiError::Unauthorized));
    assert_eq!(get_device(Err(other("x"))), Err(other("x")));
    assert_eq!(get_device(Ok(Vec::new())), Err(other("The device list names no device.")));
}

#[test]
fn any_acknowledged_refresh_counts() {
    assert_eq!(refresh_device(Ok(false)), Ok(true));
    assert_eq!(refresh_device(Ok(true)), Ok(true));
    assert_eq!(refresh_device(Err(ApiError::Unauthorized)), Err(ApiError::Unauthorized));
    assert_eq!(refresh_device(Err(other("x"))), Err(other("x")));
}
