//! The vendor API seen from both ends of the wire: the calls to send, and
//! what a reply amounts to.
//!
//! Nothing here touches the network. A caller sends the `Call`, records in
//! an `Exchange` what came back, and gets the classification from here:
//! status 401 is a rejected token, any other status but 200 is a failure
//! that carries the body, and a 200 is as good as its payload.

use vstd::prelude::*;
use vstd::string::StringExecFns;
use crate::errors::ApiError;
use crate::models::{
    has_monitored_device, names_monitored_device, CurrentDataResponse, ListDevicesResponse,
    LoginRequest, LoginResponse,
};

verus! {

/// The HTTP method of a call.
#[derive(Debug, Clone, Copy, PartialEq, Eq, Structural)]
pub enum Verb {
    Get,
    Post,
}

/// One call to the vendor API, ready to be sent.
#[derive(Debug, Clone, PartialEq, Eq)]
pub struct Call {
    pub verb: Verb,
    pub url: String,
    /// The `User-Agent` header, which the service insists on.
    pub user_agent: String,
    /// The `X-MitsContextKey` header: the access token, on every call but the login.
    pub context_key: Option<String>,
    /// The JSON body, on the login alone.
    pub body: Option<LoginRequest>,
}

/// What came back for a call that reached the server.
#[derive(Debug, PartialEq, Eq)]
pub struct Exchange<T> {
    /// The HTTP status code.
    pub status: u16,
    /// The body as text, or why it could not be read.
    pub body: Result<String, String>,
    /// What decoding the body as JSON gave, or why it could not be decoded.
    pub payload: Result<T, String>,
}

/// The `User-Agent` that every call carries.
pub open spec fn user_agent() -> Seq<char> {
    "Mozilla/5.0 (Windows NT 10.0; Win64; x64; rv:121.0) Gecko/20100101 Firefox/121.0"@
}

/// The client version that a login announces.
pub open spec fn app_version() -> Seq<char> {
    "1.31.0.0"@
}

/// The address of the login endpoint.
pub open spec fn login_url() -> Seq<char> {
    "https://app.melcloud.com/Mitsubishi.Wifi.Client/Login/ClientLogin"@
}

/// The address of the device list.
pub open spec fn listdevices_url() -> Seq<char> {
    "https://app.melcloud.com/Mitsubishi.Wifi.Client/User/ListDevices"@
}

/// The address of one device's lean reading.
pub open spec fn current_data_url(device_id: Seq<char>, building_id: Seq<char>) -> Seq<char> {
    "https://app.melcloud.com/Mitsubishi.Wifi.Client/Device/Get?id="@ + device_id
        + "&buildingID="@ + building_id
}

/// The address that asks the vendor to poll one device afresh.
pub open spec fn request_refresh_url(device_id: Seq<char>) -> Seq<char> {
    "https://app.melcloud.com/Mitsubishi.Wifi.Client/Device/RequestRefresh?id="@ + device_id
}

/// The login call for the given credentials: a POST that announces the
/// client version, language 17 and a persistent session, without a token.
pub fn login_call(email: &str, password: &str) -> (r: Call)
    ensures
        r.verb == Verb::Post,
        r.url@ == login_url(),
        r.user_agent@ == user_agent(),
        r.context_key is None,
        r.body matches Some(body) && {
            &&& body.app_version@ == app_version()
            &&& body.captcha_response is None
            &&& body.email@ == email@
            &&& body.password@ == password@
            &&& body.language == 17
            &&& body.persist
        },
{
    let body = LoginRequest {
        app_version: "1.31.0.0".to_owned(),
        captcha_response: None,
        email: email.to_owned(),
        password: password.to_owned(),
        language: 17,
        persist: true,
    };
    Call {
        verb: Verb::Post,
        url: "https://app.melcloud.com/Mitsubishi.Wifi.Client/Login/ClientLogin".to_owned(),
        user_agent: agent(),
        context_key: None,
        body: Some(body),
    }
}

/// The call that fetches the device list under `access_token`.
pub fn listdevices_call(access_token: &String) -> (r: Call)
    ensures
        r.verb == Verb::Get,
        r.url@ == listdevices_url(),
        r.user_agent@ == user_agent(),
        r.context_key == Some(*access_token),
        r.body is None,
{
    Call {
        verb: Verb::Get,
        url: "https://app.melcloud.com/Mitsubishi.Wifi.Client/User/ListDevices".to_owned(),
        user_agent: agent(),
        context_key: Some(access_token.clone()),
        body: None,
    }
}

/// The call that fetches one device's lean reading under `access_token`.
pub fn current_data_call(access_token: &String, device_id: &String, building_id: &String) -> (r: Call)
    ensures
        r.verb == Verb::Get,
        r.url@ == current_data_url(device_id@, building_id@),
        r.user_agent@ == user_agent(),
        r.context_key == Some(*access_token),
        r.body is None,
{
    let mut url = "https://app.melcloud.com/Mitsubishi.Wifi.Client/Device/Get?id=".to_owned();
    url.append(device_id.as_str());
    url.append("&buildingID=");
    url.append(building_id.as_str());
    Call {
        verb: Verb::Get,
        url,
        user_agent: agent(),
        context_key: Some(access_token.clone()),
        body: None,
    }
}

/// The call that asks the vendor to poll one device afresh under `access_token`.
pub fn request_refresh_call(access_token: &String, device_id: &String) -> (r: Call)
    ensures
        r.verb == Verb::Get,
        r.url@ == request_refresh_url(device_id@),
        r.user_agent@ == user_agent(),
        r.context_key == Some(*access_token),
        r.body is None,
{
    let mut url =
        "https://app.melcloud.com/Mitsubishi.Wifi.Client/Device/RequestRefresh?id=".to_owned();
    url.append(device_id.as_str());
    Call {
        verb: Verb::Get,
        url,
        user_agent: agent(),
        context_key: Some(access_token.clone()),
        body: None,
    }
}

fn agent() -> (r: String)
    ensures
        r@ == user_agent(),
{
    "Mozilla/5.0 (Windows NT 10.0; Win64; x64; rv:121.0) Gecko/20100101 Firefox/121.0".to_owned()
}

/// What a call amounts to, given what was sent back or why nothing was.
///
/// A transport failure is a failure with its message. Status 401 is a
/// rejected token, whatever the body. Under any other status the body must
/// have been read; unless the status is 200 the body is the failure's
/// message. Under 200 the payload decides.
pub open spec fn classified<T>(sent: Result<Exchange<T>, String>) -> Result<T, ApiError> {
    match sent {
        Err(message) => Err(ApiError::Other(message)),
        Ok(exchange) => {
            if exchange.status == 401 {
                Err(ApiError::Unauthorized)
            } else {
                match exchange.body {
                    Err(message) => Err(ApiError::Other(message)),
                    Ok(text) => {
                        if exchange.status != 200 {
                            Err(ApiError::Other(text))
                        } else {
                            match exchange.payload {
                                Ok(value) => Ok(value),
                                Err(message) => Err(ApiError::Other(message)),
                            }
                        }
                    },
                }
            }
        },
    }
}

/// Classifies what came back for a call made under an access token.
pub fn classify<T>(sent: Result<Exchange<T>, String>) -> (r: Result<T, ApiError>)
    ensures
        r == classified(sent),
{
    match sent {
        Err(message) => Err(ApiError::Other(message)),
        Ok(exchange) => {
            if exchange.status == 401 {
                return Err(ApiError::Unauthorized);
            }
            match exchange.body {
                Err(message) => Err(ApiError::Other(message)),
                Ok(text) => {
                    if exchange.status != 200 {
                        return Err(ApiError::Other(text));
                    }
                    match exchange.payload {
                        Ok(value) => Ok(value),
                        Err(message) => Err(ApiError::Other(message)),
                    }
                },
            }
        },
    }
}

/// The lean reading of one device, out of what came back for `current_data_call`.
pub fn current_data(sent: Result<Exchange<CurrentDataResponse>, String>) -> (r: Result<
    CurrentDataResponse,
    ApiError,
>)
    ensures
        r == classified(sent),
{
    classify(sent)
}

/// The vendor's acknowledgment, out of what came back for `request_refresh_call`.
pub fn request_refresh(sent: Result<Exchange<bool>, String>) -> (r: Result<bool, ApiError>)
    ensures
        r == classified(sent),
{
    classify(sent)
}

/// The message of the failure that stands for a device list without a device.
pub open spec fn no_device_message() -> Seq<char> {
    "The device list names no device."@
}

/// The device list, out of what came back for `listdevices_call`. A list
/// that names no device is a failure, not a success with nothing in it.
pub fn listdevices_data(sent: Result<Exchange<Vec<ListDevicesResponse>>, String>) -> (r: Result<
    Vec<ListDevicesResponse>,
    ApiError,
>)
    ensures
        match classified(sent) {
            Ok(data) => if has_monitored_device(data@) {
                r == Ok::<Vec<ListDevicesResponse>, ApiError>(data)
            } else {
                r matches Err(ApiError::Other(message)) && message@ == no_device_message()
            },
            Err(error) => r == Err::<Vec<ListDevicesResponse>, ApiError>(error),
        },
{
    match classify(sent) {
        Ok(data) => {
            if names_monitored_device(&data) {
                Ok(data)
            } else {
                Err(ApiError::Other("The device list names no device.".to_owned()))
            }
        },
        Err(error) => Err(error),
    }
}

/// The message of the failure that stands for a login rejected under a code
/// that the table of rejections does not know.
pub open spec fn unknown_login_error_message() -> Seq<char> {
    "The server rejected the login with an error code that has no known meaning."@
}

/// Whether a login succeeded, given what was sent back or why nothing was.
///
/// The login knows no rejected token: any status but 200 is a failure with
/// the body as its message. Under 200 a payload without an error code is
/// the session.
pub open spec fn login_succeeds(sent: Result<Exchange<LoginResponse>, String>) -> bool {
    &&& sent matches Ok(exchange)
    &&& exchange.status == 200
    &&& exchange.body is Ok
    &&& exchange.payload matches Ok(reply)
    &&& reply.error_id is None
}

/// The message of a failed login.
///
/// A payload with an error code fails with the words for the rejection:
/// its own message, else the table's entry for the code, else, for a code
/// that the table lacks, a message that says so.
pub open spec fn login_failure(sent: Result<Exchange<LoginResponse>, String>) -> Seq<char> {
    match sent {
        Err(message) => message@,
        Ok(exchange) => match exchange.body {
            Err(message) => message@,
            Ok(text) => {
                if exchange.status != 200 {
                    text@
                } else {
                    match exchange.payload {
                        Err(message) => message@,
                        Ok(reply) => {
                            if reply.describable() {
                                reply.error_text()
                            } else {
                                unknown_login_error_message()
                            }
                        },
                    }
                }
            },
        },
    }
}

/// The session, out of what came back for `login_call`.
pub fn get_access_token(sent: Result<Exchange<LoginResponse>, String>) -> (r: Result<
    LoginResponse,
    String,
>)
    ensures
        login_succeeds(sent) ==> r == Ok::<LoginResponse, String>(sent->Ok_0.payload->Ok_0),
        !login_succeeds(sent) ==> (r matches Err(message) && message@ == login_failure(sent)),
{
    match sent {
        Err(message) => Err(message),
        Ok(exchange) => match exchange.body {
            Err(message) => Err(message),
            Ok(text) => {
                if exchange.status != 200 {
                    return Err(text);
                }
                match exchange.payload {
                    Err(message) => Err(message),
                    Ok(reply) => {
                        if !reply.has_error() {
                            Ok(reply)
                        } else if reply.can_describe() {
                            Err(reply.error_message())
                        } else {
                            Err(
                                "The server rejected the login with an error code that has no known meaning.".to_owned(),
                            )
                        }
                    },
                }
            },
        },
    }
}

} // verus!
