//! The payloads that the vendor API sends and expects, and what is read off them.

use vstd::prelude::*;
use crate::time::{
    local_resolution, naive_reading, parse_reading, resolve_in_zone, utc_instant, zone_known,
    Resolution, UtcInstant,
};

verus! {

/// A single-precision IEEE-754 number, held by its bit pattern.
#[derive(Debug, Clone, Copy, PartialEq, Eq, Structural)]
pub struct Scalar {
    pub bits: u32,
}

/// The server's text for a login rejection, by its error code. The table
/// has ten entries, for the codes 0 to 9; `login_error_known` says whether
/// a code is one of them, and for any other code the value means nothing.
pub open spec fn login_error(code: int) -> Seq<char> {
    if code == 0 {
        "The latest terms and conditions have not been uploaded by Mitsubishi in your language. This is an error on our part. Please contact support."@
    } else if code == 1 {
        "Please check your email address and password are both correct."@
    } else if code == 2 {
        "You must verify your email address before logging in. You should have received an email message with a link to perform verification."@
    } else if code == 3 {
        "Please contact administrator, your account has been disabled."@
    } else if code == 4 {
        "We have sent you an email with a link to verify your email address. You must verify your email address to login."@
    } else if code == 5 {
        "This version of MELCloud is no longer supported. Please download an updated version from the app store."@
    } else if code == 6 {
        "Your account has temporarily been locked due to repeated attempts to login with incorrect password. It will be unlocked in %MINUTES% minute(s)"@
    } else if code == 7 {
        "Please re-enter the captcha"@
    } else if code == 8 {
        "Since you last logged in to MELCloud, we have made security improvements to the way we store user account information. As a consequence, we are no longer able to verify your current password. Please use the 'Forgotten Password' button below to reset your password."@
    } else {
        "Due to high load on our servers, we are temporarily requesting you enter the code below in order to log in."@
    }
}

/// Whether the table of login rejections has an entry for `code`.
pub open spec fn login_error_known(code: int) -> bool {
    0 <= code < 10
}

/// The table entry for a known login error code.
pub fn login_error_text(code: i32) -> (r: &'static str)
    requires
        login_error_known(code as int),
    ensures
        r@ == login_error(code as int),
{
    if code == 0 {
        "The latest terms and conditions have not been uploaded by Mitsubishi in your language. This is an error on our part. Please contact support."
    } else if code == 1 {
        "Please check your email address and password are both correct."
    } else if code == 2 {
        "You must verify your email address before logging in. You should have received an email message with a link to perform verification."
    } else if code == 3 {
        "Please contact administrator, your account has been disabled."
    } else if code == 4 {
        "We have sent you an email with a link to verify your email address. You must verify your email address to login."
    } else if code == 5 {
        "This version of MELCloud is no longer supported. Please download an updated version from the app store."
    } else if code == 6 {
        "Your account has temporarily been locked due to repeated attempts to login with incorrect password. It will be unlocked in %MINUTES% minute(s)"
    } else if code == 7 {
        "Please re-enter the captcha"
    } else if code == 8 {
        "Since you last logged in to MELCloud, we have made security improvements to the way we store user account information. As a consequence, we are no longer able to verify your current password. Please use the 'Forgotten Password' button below to reset your password."
    } else {
        "Due to high load on our servers, we are temporarily requesting you enter the code below in order to log in."
    }
}

/// The body of a login request.
#[derive(Debug, Clone, PartialEq, Eq)]
pub struct LoginRequest {
    pub app_version: String,
    pub captcha_response: Option<String>,
    pub email: String,
    pub password: String,
    pub language: i32,
    pub persist: bool,
}

/// The session that a successful login opens.
#[derive(Debug, Clone, PartialEq, Eq)]
pub struct LoginData {
    pub context_key: String,
    pub client: i32,
    pub duration: i32,
    pub expiry: String,
}

/// The body of the reply to a login request.
#[derive(Debug, Clone, PartialEq, Eq)]
pub struct LoginResponse {
    pub error_id: Option<i32>,
    pub error_message: Option<String>,
    pub login_data: Option<LoginData>,
}

impl LoginResponse {
    /// Whether the reply can be put into words: it carries a message of its
    /// own, or an error code that the table knows.
    pub open spec fn describable(&self) -> bool {
        self.error_message is Some || (self.error_id matches Some(id) && login_error_known(id as int))
    }

    /// The words for the rejection: the reply's own message where it has
    /// one, the table's entry for its error code where it has none.
    pub open spec fn error_text(&self) -> Seq<char> {
        match self.error_message {
            Some(message) => message@,
            None => login_error(self.error_id.unwrap() as int),
        }
    }

    /// Whether the server rejected the login.
    pub fn has_error(&self) -> (r: bool)
        ensures
            r == (self.error_id is Some),
    {
        self.error_id.is_some()
    }

    /// Whether `error_message` may be asked for.
    pub fn can_describe(&self) -> (r: bool)
        ensures
            r == self.describable(),
    {
        match &self.error_message {
            Some(_) => true,
            None => match self.error_id {
                Some(id) => 0 <= id && id < 10,
                None => false,
            },
        }
    }

    /// The words for the rejection.
    pub fn error_message(&self) -> (r: String)
        requires
            self.describable(),
        ensures
            r@ == self.error_text(),
            self.error_message is Some ==> r == self.error_message.unwrap(),
    {
        match &self.error_message {
            Some(message) => message.clone(),
            None => match self.error_id {
                Some(id) => login_error_text(id).to_owned(),
                None => String::new(),
            },
        }
    }

    /// The access token of the session that the login opened.
    pub fn token(&self) -> (r: String)
        requires
            self.login_data is Some,
        ensures
            r == self.login_data.unwrap().context_key,
    {
        match &self.login_data {
            Some(data) => data.context_key.clone(),
            None => String::new(),
        }
    }
}

/// The lean reading of one device, as the single-device endpoint gives it.
#[derive(Debug, Clone, PartialEq, Eq)]
#[allow(non_snake_case)]
pub struct CurrentDataResponse {
    pub device_iD: u32,
    pub device_type: u8,
    pub power: bool,
    pub offline: bool,
    pub room_temperature: Scalar,
    pub set_temperature: Scalar,
    pub set_fan_speed: u8,
    pub operation_mode: u8,
    pub vane_horizontal: u8,
    pub vane_vertical: u8,
    pub in_standby_mode: bool,
    pub has_pending_command: bool,
    pub last_communication: String,
    pub next_communication: String,
}

/// What a timestamp of the lean shape stands for: the text is read under the
/// pattern `%Y-%m-%dT%H:%M:%S.%f` as a clock that runs on UTC.
pub open spec fn utc_stamp_instant(text: Seq<char>) -> Option<UtcInstant> {
    match naive_reading(text, "%Y-%m-%dT%H:%M:%S.%f"@) {
        Some(reading) => Some(utc_instant(reading)),
        None => None,
    }
}

/// What a timestamp of the rich shape stands for: the text is read under the
/// pattern `%Y-%m-%dT%H:%M:%S` as a clock in `zone`. It stands for an
/// instant only if the zone is known and its clocks showed the reading
/// exactly once: a reading in a gap or in a fold names no instant.
pub open spec fn zoned_stamp_instant(text: Seq<char>, zone: Seq<char>) -> Option<UtcInstant> {
    match naive_reading(text, "%Y-%m-%dT%H:%M:%S"@) {
        Some(reading) => {
            if zone_known(zone) {
                match local_resolution(zone, reading.secs as int, reading.nanos as int) {
                    Resolution::Single(instant) => Some(instant),
                    _ => None,
                }
            } else {
                None
            }
        },
        None => None,
    }
}

/// Reads a timestamp of the lean shape.
pub fn parse_utc_stamp(text: &str) -> (r: Option<UtcInstant>)
    ensures
        r == utc_stamp_instant(text@),
{
    match parse_reading(text, "%Y-%m-%dT%H:%M:%S.%f") {
        Some(reading) => Some(reading.to_utc()),
        None => None,
    }
}

impl CurrentDataResponse {
    /// When the device last reported, or `None` where the text does not parse.
    pub fn last_communication_to_utc_datetime(&self) -> (r: Option<UtcInstant>)
        ensures
            r == utc_stamp_instant(self.last_communication@),
    {
        parse_utc_stamp(self.last_communication.as_str())
    }

    /// When the device is due to report next, or `None` where the text does not parse.
    pub fn next_communication_to_utc_datetime(&self) -> (r: Option<UtcInstant>)
        ensures
            r == utc_stamp_instant(self.next_communication@),
    {
        parse_utc_stamp(self.next_communication.as_str())
    }
}

/// The rich reading of one device, as the device list gives it.
#[derive(Debug, Clone, PartialEq, Eq)]
#[allow(non_snake_case)]
pub struct Device {
    pub device_iD: u32,
    pub device_type: u8,
    pub power: bool,
    pub offline: bool,
    pub room_temperature: Scalar,
    pub set_temperature: Scalar,
    pub actual_fan_speed: u8,
    pub fan_speed: u8,
    pub automatic_fan_speed: Option<bool>,
    pub vane_vertical_direction: u8,
    pub vane_vertical_swing: Option<bool>,
    pub vane_horizontal_direction: u8,
    pub vane_horizontal_swing: Option<bool>,
    pub operation_mode: u8,
    pub in_standby_mode: bool,
    pub heating_energy_consumed_rate1: Option<Scalar>,
    pub heating_energy_consumed_rate2: Option<Scalar>,
    pub cooling_energy_consumed_rate1: Option<Scalar>,
    pub cooling_energy_consumed_rate2: Option<Scalar>,
    pub auto_energy_consumed_rate1: Option<Scalar>,
    pub auto_energy_consumed_rate2: Option<Scalar>,
    pub dry_energy_consumed_rate1: Option<Scalar>,
    pub dry_energy_consumed_rate2: Option<Scalar>,
    pub fan_energy_consumed_rate1: Option<Scalar>,
    pub fan_energy_consumed_rate2: Option<Scalar>,
    pub other_energy_consumed_rate1: Option<Scalar>,
    pub other_energy_consumed_rate2: Option<Scalar>,
    pub current_energy_consumed: Option<Scalar>,
    pub current_energy_mode: Option<u8>,
    pub energy_correction_model: Option<Scalar>,
    pub energy_correction_active: Option<bool>,
    pub wifi_signal_strength: Option<Scalar>,
    pub wifi_adapter_status: Option<String>,
    pub has_error: Option<bool>,
    pub last_time_stamp: String,
}

impl Device {
    /// When the device last updated, or `None` where the text does not parse
    /// or names no single instant in `zone`. The device's clock carries no
    /// zone marker, so the caller says in which zone it stands.
    pub fn last_time_stamp_to_utc_datetime(&self, zone: &str) -> (r: Option<UtcInstant>)
        ensures
            r == zoned_stamp_instant(self.last_time_stamp@, zone@),
    {
        match parse_reading(self.last_time_stamp.as_str(), "%Y-%m-%dT%H:%M:%S") {
            Some(reading) => match resolve_in_zone(zone, reading) {
                Some(Resolution::Single(instant)) => Some(instant),
                _ => None,
            },
            None => None,
        }
    }
}

/// One device of a building, with the names it goes by.
#[derive(Debug, Clone, PartialEq, Eq)]
#[allow(non_snake_case)]
pub struct Devices {
    pub device_iD: u32,
    pub device_name: Option<String>,
    pub building_iD: u32,
    pub building_name: Option<String>,
    pub device: Device,
}

/// The devices of one building.
#[derive(Debug, Clone, PartialEq, Eq)]
pub struct Structure {
    pub devices: Vec<Devices>,
}

/// One building of the device list.
#[derive(Debug, Clone, PartialEq, Eq)]
#[allow(non_snake_case)]
pub struct ListDevicesResponse {
    pub iD: u32,
    pub structure: Structure,
}

/// Whether the list names a monitored device: its first building exists and
/// has a first device.
pub open spec fn has_monitored_device(data: Seq<ListDevicesResponse>) -> bool {
    data.len() > 0 && data[0].structure.devices@.len() > 0
}

/// The monitored device of a list: the first device of its first building.
pub open spec fn monitored_device(data: Seq<ListDevicesResponse>) -> Device {
    data[0].structure.devices@[0].device
}

/// Whether the list names a monitored device.
pub fn names_monitored_device(data: &Vec<ListDevicesResponse>) -> (r: bool)
    ensures
        r == has_monitored_device(data@),
{
    data.len() > 0 && data[0].structure.devices.len() > 0
}

/// Takes the monitored device out of the list, with the identifier of its
/// building; `None` where the list names none.
pub fn take_monitored_device(data: Vec<ListDevicesResponse>) -> (r: Option<(u32, Device)>)
    ensures
        has_monitored_device(data@) ==> r == Some((data@[0].iD, monitored_device(data@))),
        !has_monitored_device(data@) ==> r is None,
{
    let mut data = data;
    if data.len() == 0 {
        return None;
    }
    let building = data.swap_remove(0);
    let mut devices = building.structure.devices;
    if devices.len() == 0 {
        return None;
    }
    let first = devices.swap_remove(0);
    Some((building.iD, first.device))
}

} // verus!
