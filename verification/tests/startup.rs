use melcloud::cycle::{Action, Cycle, Phase};
use melcloud::errors::ApiError;
use melcloud::models::{
    Device, Devices, ListDevicesResponse, LoginData, LoginResponse, Scalar, Structure,
};
use melcloud::startup::{advance, begin, to_decimal, Fatal, Progress, Report, Settings, Startup};

fn scalar(value: f32) -> Scalar {
    Scalar { bits: value.to_bits() }
}

fn device() -> Device {
    Device {
        device_iD: 4711,
        device_type: 0,
        power: true,
        offline: false,
        room_temperature: scalar(21.5),
        set_temperature: scalar(22.0),
        actual_fan_speed: 2,
        fan_speed: 3,
        automatic_fan_speed: None,
        vane_vertical_direction: 4,
        vane_vertical_swing: None,
        vane_horizontal_direction: 5,
        vane_horizontal_swing: None,
        operation_mode: 1,
        in_standby_mode: false,
        heating_energy_consumed_rate1: None,
        heating_energy_consumed_rate2: None,
        cooling_energy_consumed_rate1: None,
        cooling_energy_consumed_rate2: None,
        auto_energy_consumed_rate1: None,
        auto_energy_consumed_rate2: None,
        dry_energy_consumed_rate1: None,
        dry_energy_consumed_rate2: None,
        fan_energy_consumed_rate1: None,
        fan_energy_consumed_rate2: None,
        other_energy_consumed_rate1: None,
        other_energy_consumed_rate2: None,
        current_energy_consumed: None,
        current_energy_mode: None,
        energy_correction_model: None,
        energy_correction_active: None,
        wifi_signal_strength: None,
        wifi_adapter_status: None,
        has_error: None,
        last_time_stamp: "2024-01-15T10:00:00".to_string(),
    }
}

fn device_list() -> Vec<ListDevicesResponse> {
    vec![ListDevicesResponse {
        iD: 99,
        structure: Structure {
            devices: vec![Devices {
                device_iD: 4711,
                device_name: None,
                building_iD: 99,
                building_name: None,
                device: device(),
            }],
        },
    }]
}

fn settings(token: Option<&str>, device_id: Option<&str>, building_id: Option<&str>) -> Settings {
    Settings {
        token: token.map(|t| t.to_string()),
        device_id: device_id.map(|t| t.to_string()),
        building_id: building_id.map(|t| t.to_string()),
        zone: "Europe/Helsinki".to_string(),
        fetch_interval: 10000,
        refresh_interval: 60000,
    }
}

fn session(token: &str) -> LoginResponse {
    LoginResponse {
        error_id: None,
        error_message: None,
        login_data: Some(LoginData {
            context_key: token.to_string(),
            client: 1,
            duration: 525600,
            expiry: "2025-01-15T08:00:00.000".to_string(),
        }),
    }
}

fn running(token: &str, device_id: &str, building_id: &str) -> Progress {
    Progress::Run(
        Cycle {
            token: token.to_string(),
            device_id: device_id.to_string(),
            building_id: building_id.to_string(),
            zone: "Europe/Helsinki".to_string(),
            fetch_interval: 10000,
            refresh_interval: 60000,
            phase: Phase::Refreshing { retried: false },
            pending: None,
        },
        Action::RequestRefresh { token: token.to_string(), device_id: device_id.to_string() },
    )
}

#[test]
fn identifiers_are_written_in_decimal() {
    assert_eq!(to_decimal(0), "0");
    assert_eq!(to_decimal(7), "7");
    assert_eq!(to_decimal(10), "10");
    assert_eq!(to_decimal(4711), "4711");
    assert_eq!(to_decimal(1_000_000), "1000000");
    assert_eq!(to_decimal(u32::MAX), "4294967295");
}

#[test]
fn a_fully_configured_run_starts_at_once() {
    assert_eq!(begin(settings(Some("TOKEN"), Some("1"), Some("2"))), running("TOKEN", "1", "2"));
}

#[test]
fn a_run_without_a_token_logs_in_first() {
    let all = settings(None, Some("1"), Some("2"));
    let progress = begin(settings(None, Some("1"), Some("2")));
    assert_eq!(
        progress,
        Progress::Ask(Startup::Unauthenticated { settings: all }, Action::Login)
    );
    let startup = match progress {
        Progress::Ask(startup, _) => startup,
        _ => panic!("the startup must ask for the login"),
    };
    assert_eq!(advance(startup, Report::LoggedIn(Ok(session("FRESH")))), running("FRESH", "1", "2"));
}

#[test]
fn a_run_without_identifiers_discovers_its_device() {
    let progress = begin(settings(Some("TOKEN"), None, None));
    assert_eq!(
        progress,
        Progress::Ask(
            Startup::Authenticated {
                settings: settings(Some("TOKEN"), None, None),
                token: "TOKEN".to_string(),
            },
            Action::ListDevices { token: "TOKEN".to_string() },
        )
    );
    let startup = match progress {
        Progress::Ask(startup, _) => startup,
        _ => panic!("the startup must ask for the device list"),
    };
    assert_eq!(advance(startup, Report::Listed(Ok(device_list()))), running("TOKEN", "4711", "99"));
}

#[test]
fn a_configured_identifier_is_kept_over_the_discovered_one() {
    let startup = Startup::Authenticated {
        settings: settings(None, Some("12"), None),
        token: "TOKEN".to_string(),
    };
    assert_eq!(advance(startup, Report::Listed(Ok(device_list()))), running("TOKEN", "12", "99"));
    let startup = Startup::Authenticated {
        settings: settings(None, None, Some("34")),
        token: "TOKEN".to_string(),
    };
    assert_eq!(advance(startup, Report::Listed(Ok(device_list()))), running("TOKEN", "4711", "34"));
}

#[test]
fn login_then_discovery_then_the_cycle() {
    let startup = Startup::Unauthenticated { settings: settings(None, None, None) };
    let progress = advance(startup, Report::LoggedIn(Ok(session("FRESH"))));
    let startup = match progress {
        Progress::Ask(startup, action) => {
            assert_eq!(action, Action::ListDevices { token: "FRESH".to_string() });
            startup
        }
        _ => panic!("the startup must ask for the device list"),
    };
    assert_eq!(advance(startup, Report::Listed(Ok(device_list()))), running("FRESH", "4711", "99"));
}

#[test]
fn startup_failures_are_fatal() {
    let unauthenticated = || Startup::Unauthenticated { settings: settings(None, None, None) };
    let authenticated = || Startup::Authenticated {
        settings: settings(Some("TOKEN"), None, None),
        token: "TOKEN".to_string(),
    };
    assert_eq!(
        advance(unauthenticated(), Report::LoggedIn(Err("wrong password".to_string()))),
        Progress::Fatal(Fatal::Login("wrong password".to_string()))
    );
    let hollow = LoginResponse { error_id: None, error_message: None, login_data: None };
    assert_eq!(
        advance(unauthenticated(), Report::LoggedIn(Ok(hollow))),
        Progress::Fatal(Fatal::NoSession)
    );
    assert_eq!(
        advance(authenticated(), Report::Listed(Err(ApiError::Unauthorized))),
        Progress::Fatal(Fatal::Discovery(ApiError::Unauthorized))
    );
    assert_eq!(
        advance(authenticated(), Report::Listed(Err(ApiError::Other("503".to_string())))),
        Progress::Fatal(Fatal::Discovery(ApiError::Other("503".to_string())))
    );
    assert_eq!(
        advance(authenticated(), Report::Listed(Ok(Vec::new()))),
        Progress::Fatal(Fatal::NoDevice)
    );
}

#[test]
fn a_report_that_answers_nothing_changes_nothing() {
    let unauthenticated = Startup::Unauthenticated { settings: settings(None, None, None) };
    assert_eq!(
        advance(unauthenticated, Report::Listed(Ok(device_list()))),
        Progress::Ask(
            Startup::Unauthenticated { settings: settings(None, None, None) },
            Action::Idle
        )
    );
    let authenticated = Startup::Authenticated {
        settings: settings(Some("TOKEN"), None, None),
        token: "TOKEN".to_string(),
    };
    assert_eq!(
        advance(authenticated, Report::LoggedIn(Ok(session("FRESH")))),
        Progress::Ask(
            Startup::Authenticated {
                settings: settings(Some("TOKEN"), None, None),
                token: "TOKEN".to_string(),
            },
            Action::Idle
        )
    );
}
