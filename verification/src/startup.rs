//! From configuration to a running cycle: authentication and device discovery.
//!
//! Like the cycle, the startup does no I/O. `begin` and `advance` say what
//! to do next; the driver does it and reports back. A run starts
//! unauthenticated unless a token is configured, and discovers its device
//! unless both identifiers are configured. A login or a discovery that
//! fails is fatal: there is nothing to poll.

use vstd::prelude::*;
use vstd::string::StringExecFns;
use crate::cycle::{Action, Cycle, Phase};
use crate::errors::ApiError;
use crate::models::{
    has_monitored_device, monitored_device, take_monitored_device, ListDevicesResponse,
    LoginResponse,
};

verus! {

/// One decimal digit as text.
pub open spec fn digit(value: nat) -> Seq<char> {
    if value == 0 {
        "0"@
    } else if value == 1 {
        "1"@
    } else if value == 2 {
        "2"@
    } else if value == 3 {
        "3"@
    } else if value == 4 {
        "4"@
    } else if value == 5 {
        "5"@
    } else if value == 6 {
        "6"@
    } else if value == 7 {
        "7"@
    } else if value == 8 {
        "8"@
    } else {
        "9"@
    }
}

/// A number in decimal notation, without sign or leading zeros.
pub open spec fn decimal(value: nat) -> Seq<char>
    decreases value,
{
    if value < 10 {
        digit(value)
    } else {
        decimal(value / 10) + digit(value % 10)
    }
}

fn digit_text(value: u32) -> (r: &'static str)
    requires
        value < 10,
    ensures
        r@ == digit(value as nat),
{
    if value == 0 {
        "0"
    } else if value == 1 {
        "1"
    } else if value == 2 {
        "2"
    } else if value == 3 {
        "3"
    } else if value == 4 {
        "4"
    } else if value == 5 {
        "5"
    } else if value == 6 {
        "6"
    } else if value == 7 {
        "7"
    } else if value == 8 {
        "8"
    } else {
        "9"
    }
}

/// Writes an identifier as the API's addresses take it: in decimal.
pub fn to_decimal(value: u32) -> (r: String)
    ensures
        r@ == decimal(value as nat),
    decreases value,
{
    if value < 10 {
        digit_text(value).to_owned()
    } else {
        let mut text = to_decimal(value / 10);
        text.append(digit_text(value % 10));
        text
    }
}

/// What a run is configured with. A token or an identifier that is not
/// configured is obtained at startup.
#[derive(Debug, Clone, PartialEq, Eq)]
pub struct Settings {
    pub token: Option<String>,
    pub device_id: Option<String>,
    pub building_id: Option<String>,
    pub zone: String,
    pub fetch_interval: u64,
    pub refresh_interval: u64,
}

/// Where the startup stands: what it is waiting for.
#[derive(Debug, PartialEq, Eq)]
pub enum Startup {
    /// No token yet: the login is under way.
    Unauthenticated { settings: Settings },
    /// The token is known and the device is not: the device list is being fetched.
    Authenticated { settings: Settings, token: String },
}

/// What the driver reports back during startup.
#[derive(Debug, PartialEq, Eq)]
pub enum Report {
    /// The outcome of `Action::Login`.
    LoggedIn(Result<LoginResponse, String>),
    /// The outcome of `Action::ListDevices`.
    Listed(Result<Vec<ListDevicesResponse>, ApiError>),
}

/// Why a run cannot start.
#[derive(Debug, PartialEq, Eq)]
pub enum Fatal {
    /// The login failed, with its message.
    Login(String),
    /// The login was accepted and yet opened no session.
    NoSession,
    /// The device list could not be had.
    Discovery(ApiError),
    /// The device list names no device.
    NoDevice,
}

/// How far the startup has come.
#[derive(Debug, PartialEq, Eq)]
pub enum Progress {
    /// Still starting: do this and report back.
    Ask(Startup, Action),
    /// Started: the cycle and its first action.
    Run(Cycle, Action),
    /// The run cannot start.
    Fatal(Fatal),
}

/// An identifier as the cycle holds it: as configured, or else as discovered.
pub open spec fn identifier(configured: Option<String>, discovered: u32) -> Seq<char> {
    match configured {
        Some(text) => text@,
        None => decimal(discovered as nat),
    }
}

/// Whether `progress` is what an authenticated startup does first: with
/// both identifiers configured the cycle starts at once, with its first
/// refresh request; otherwise the device list is asked for.
pub open spec fn authenticated(settings: Settings, token: String, progress: Progress) -> bool {
    if settings.device_id is Some && settings.building_id is Some {
        &&& progress matches Progress::Run(cycle, action)
        &&& cycle == (Cycle {
            token,
            device_id: settings.device_id.unwrap(),
            building_id: settings.building_id.unwrap(),
            zone: settings.zone,
            fetch_interval: settings.fetch_interval,
            refresh_interval: settings.refresh_interval,
            phase: Phase::Refreshing { retried: false },
            pending: None,
        })
        &&& action == cycle.refresh_action()
    } else {
        progress == Progress::Ask(
            Startup::Authenticated { settings, token },
            Action::ListDevices { token },
        )
    }
}

/// Whether `progress` is the start of the cycle after discovery: each
/// identifier is the configured one if there is one, else the discovered
/// one in decimal, and the first action is the refresh request.
pub open spec fn discovered(
    settings: Settings,
    token: String,
    building: u32,
    device: u32,
    progress: Progress,
) -> bool {
    &&& progress matches Progress::Run(cycle, action)
    &&& cycle.token == token
    &&& cycle.device_id@ == identifier(settings.device_id, device)
    &&& cycle.building_id@ == identifier(settings.building_id, building)
    &&& cycle.zone == settings.zone
    &&& cycle.fetch_interval == settings.fetch_interval
    &&& cycle.refresh_interval == settings.refresh_interval
    &&& cycle.phase == (Phase::Refreshing { retried: false })
    &&& cycle.pending is None
    &&& action == cycle.refresh_action()
}

/// Whether `progress` is what the startup does with `report`. A report
/// that answers no action that is out changes nothing and asks for nothing.
pub open spec fn advanced(startup: Startup, report: Report, progress: Progress) -> bool {
    match (startup, report) {
        (Startup::Unauthenticated { settings }, Report::LoggedIn(Ok(reply))) => match reply.login_data {
            Some(session) => authenticated(settings, session.context_key, progress),
            None => progress == Progress::Fatal(Fatal::NoSession),
        },
        (Startup::Unauthenticated { .. }, Report::LoggedIn(Err(message))) => progress
            == Progress::Fatal(Fatal::Login(message)),
        (Startup::Authenticated { settings, token }, Report::Listed(Ok(data))) => {
            if has_monitored_device(data@) {
                discovered(settings, token, data@[0].iD, monitored_device(data@).device_iD, progress)
            } else {
                progress == Progress::Fatal(Fatal::NoDevice)
            }
        },
        (Startup::Authenticated { .. }, Report::Listed(Err(error))) => progress == Progress::Fatal(
            Fatal::Discovery(error),
        ),
        _ => progress == Progress::Ask(startup, Action::Idle),
    }
}

fn with_token(settings: Settings, token: String) -> (r: Progress)
    ensures
        authenticated(settings, token, r),
{
    let Settings { token: _, device_id, building_id, zone, fetch_interval, refresh_interval } =
        settings;
    match (device_id, building_id) {
        (Some(device_id), Some(building_id)) => {
            let (cycle, action) = Cycle::start(
                token,
                device_id,
                building_id,
                zone,
                fetch_interval,
                refresh_interval,
            );
            Progress::Run(cycle, action)
        },
        (device_id, building_id) => {
            let action = Action::ListDevices { token: token.clone() };
            let settings = Settings {
                token: settings.token,
                device_id,
                building_id,
                zone,
                fetch_interval,
                refresh_interval,
            };
            Progress::Ask(Startup::Authenticated { settings, token }, action)
        },
    }
}

/// Begins a run: with a configured token the startup is authenticated
/// from the outset; without one the first thing to do is to log in.
pub fn begin(settings: Settings) -> (r: Progress)
    ensures
        match settings.token {
            Some(token) => authenticated(settings, token, r),
            None => r == Progress::Ask(Startup::Unauthenticated { settings }, Action::Login),
        },
{
    match &settings.token {
        Some(token) => {
            let token = token.clone();
            with_token(settings, token)
        },
        None => Progress::Ask(Startup::Unauthenticated { settings }, Action::Login),
    }
}

/// Takes what happened last and says how the startup goes on.
pub fn advance(startup: Startup, report: Report) -> (r: Progress)
    ensures
        advanced(startup, report, r),
{
    match startup {
        Startup::Unauthenticated { settings } => match report {
            Report::LoggedIn(Ok(reply)) => match reply.login_data {
                Some(session) => with_token(settings, session.context_key),
                None => Progress::Fatal(Fatal::NoSession),
            },
            Report::LoggedIn(Err(message)) => Progress::Fatal(Fatal::Login(message)),
            _ => Progress::Ask(Startup::Unauthenticated { settings }, Action::Idle),
        },
        Startup::Authenticated { settings, token } => match report {
            Report::Listed(Ok(data)) => match take_monitored_device(data) {
                Some((building, device)) => {
                    let device_id = match settings.device_id {
                        Some(text) => text,
                        None => to_decimal(device.device_iD),
                    };
                    let building_id = match settings.building_id {
                        Some(text) => text,
                        None => to_decimal(building),
                    };
                    let (cycle, action) = Cycle::start(
                        token,
                        device_id,
                        building_id,
                        settings.zone,
                        settings.fetch_interval,
                        settings.refresh_interval,
                    );
                    Progress::Run(cycle, action)
                },
                None => Progress::Fatal(Fatal::NoDevice),
            },
            Report::Listed(Err(error)) => Progress::Fatal(Fatal::Discovery(error)),
            _ => Progress::Ask(Startup::Authenticated { settings, token }, Action::Idle),
        },
    }
}

/// A run whose token and identifiers are all configured starts its cycle
/// without a login and without a discovery.
pub proof fn lemma_configured_run_starts_at_once(settings: Settings, progress: Progress)
    requires
        settings.token is Some,
        settings.device_id is Some,
        settings.building_id is Some,
        authenticated(settings, settings.token.unwrap(), progress),
    ensures
        progress matches Progress::Run(cycle, action) && action == (Action::RequestRefresh {
            token: settings.token.unwrap(),
            device_id: settings.device_id.unwrap(),
        }),
{
}

/// No startup outlives a failure: a failed login and a failed discovery
/// are both fatal.
pub proof fn lemma_startup_failures_are_fatal(startup: Startup, report: Report, progress: Progress)
    requires
        advanced(startup, report, progress),
        match report {
            Report::LoggedIn(outcome) => startup is Unauthenticated && (outcome matches Ok(reply)
                ==> reply.login_data is None),
            Report::Listed(outcome) => startup is Authenticated && (outcome matches Ok(data)
                ==> !has_monitored_device(data@)),
        },
    ensures
        progress is Fatal,
{
}

} // verus!
