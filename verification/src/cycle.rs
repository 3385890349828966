//! The polling cycle: refresh, wait, fetch, persist, wait, and again.
//!
//! The cycle is a state machine. It never sleeps, calls the network or
//! writes to a store itself: `Cycle::step` takes what happened last and
//! answers with the next thing to do. Whoever drives it performs each
//! `Action` and comes back with the matching `Event`.
//!
//! A rejected token is cured by one login and one more try, per call site
//! and per round; a second rejection ends that part of the round. A device
//! list that fails for any other reason gives way to the lean reading of
//! the one device. What the fetch brought is handed to the sinks one after
//! the other, and none of them learns how the one before it fared.
//! Whatever fails, the round goes on to its next wait.

use vstd::prelude::*;
use crate::client::no_device_message;
use crate::errors::ApiError;
use crate::models::{
    has_monitored_device, monitored_device, take_monitored_device, utc_stamp_instant,
    zoned_stamp_instant, CurrentDataResponse, Device, ListDevicesResponse, LoginResponse,
};
use crate::snapshot::{
    lean_snapshot, normalize_current_data, normalize_device_list, normalized, Upload,
};

verus! {

/// The access token that a login attempt leaves the cycle with: the
/// session's token, or the empty token where the login failed.
pub fn get_access_token(login: Result<LoginResponse, String>) -> (r: String)
    requires
        login matches Ok(reply) ==> reply.login_data is Some,
    ensures
        login matches Ok(reply) ==> r == reply.login_data.unwrap().context_key,
        login is Err ==> r@ == Seq::<char>::empty(),
{
    match login {
        Ok(reply) => reply.token(),
        Err(_) => String::new(),
    }
}

/// The monitored device and the identifier of its building, out of the
/// outcome of a device-list call. A list that names no device is a failure.
pub fn get_device(listed: Result<Vec<ListDevicesResponse>, ApiError>) -> (r: Result<
    (u32, Device),
    ApiError,
>)
    ensures
        match listed {
            Ok(data) => if has_monitored_device(data@) {
                r == Ok::<(u32, Device), ApiError>((data@[0].iD, monitored_device(data@)))
            } else {
                r matches Err(ApiError::Other(message)) && message@ == no_device_message()
            },
            Err(error) => r == Err::<(u32, Device), ApiError>(error),
        },
{
    match listed {
        Ok(data) => match take_monitored_device(data) {
            Some(found) => Ok(found),
            None => Err(ApiError::Other("The device list names no device.".to_owned())),
        },
        Err(error) => Err(error),
    }
}

/// The outcome of a refresh request: the vendor's acknowledgment carries
/// no data, so any acknowledgment counts as `true`.
pub fn refresh_device(refreshed: Result<bool, ApiError>) -> (r: Result<bool, ApiError>)
    ensures
        match refreshed {
            Ok(_) => r == Ok::<bool, ApiError>(true),
            Err(error) => r == Err::<bool, ApiError>(error),
        },
{
    match refreshed {
        Ok(_) => Ok(true),
        Err(error) => Err(error),
    }
}

/// What came back for one of the two calls of a fetch attempt.
#[derive(Debug, PartialEq, Eq)]
pub enum FetchReply {
    /// The outcome of the device-list call.
    Listed(Result<Vec<ListDevicesResponse>, ApiError>),
    /// The outcome of the call for the lean reading.
    Fetched(Result<CurrentDataResponse, ApiError>),
}

/// What a fetch attempt does next.
#[derive(Debug, PartialEq, Eq)]
pub enum FetchVerdict {
    /// Hand the upload to every sink; the attempt then ends well.
    Persist(Upload),
    /// Ask for the lean reading of the one device.
    FallBack,
    /// The attempt is over, with nothing more to write.
    Done(Result<(), ApiError>),
}

/// The rule of a fetch attempt.
///
/// A device list with a device in it is persisted if its timestamp yields
/// an instant in `zone`; if not, there is nothing to persist and the attempt
/// ends well. A rejected token ends the attempt with that error. A list that
/// failed otherwise, or names no device, gives way to the lean reading. The
/// lean reading is persisted if its timestamp yields an instant; a failure
/// of its call ends the attempt with that error.
pub open spec fn fetch_verdict(reply: FetchReply, zone: Seq<char>) -> FetchVerdict {
    match reply {
        FetchReply::Listed(Ok(data)) => {
            if !has_monitored_device(data@) {
                FetchVerdict::FallBack
            } else if normalized(Upload::DeviceList(data), zone) is Some {
                FetchVerdict::Persist(Upload::DeviceList(data))
            } else {
                FetchVerdict::Done(Ok(()))
            }
        },
        FetchReply::Listed(Err(ApiError::Unauthorized)) => FetchVerdict::Done(
            Err(ApiError::Unauthorized),
        ),
        FetchReply::Listed(Err(ApiError::Other(_))) => FetchVerdict::FallBack,
        FetchReply::Fetched(Ok(data)) => {
            if normalized(Upload::CurrentData(data), zone) is Some {
                FetchVerdict::Persist(Upload::CurrentData(data))
            } else {
                FetchVerdict::Done(Ok(()))
            }
        },
        FetchReply::Fetched(Err(error)) => FetchVerdict::Done(Err(error)),
    }
}

/// Decides what a fetch attempt does with what came back.
pub fn fetch_and_log_new_entry(reply: FetchReply, zone: &str) -> (r: FetchVerdict)
    ensures
        r == fetch_verdict(reply, zone@),
        r matches FetchVerdict::Persist(upload) ==> normalized(upload, zone@) is Some,
{
    match reply {
        FetchReply::Listed(Ok(data)) => {
            if data.len() == 0 || data[0].structure.devices.len() == 0 {
                FetchVerdict::FallBack
            } else if normalize_device_list(&data, zone).is_some() {
                FetchVerdict::Persist(Upload::DeviceList(data))
            } else {
                FetchVerdict::Done(Ok(()))
            }
        },
        FetchReply::Listed(Err(ApiError::Unauthorized)) => FetchVerdict::Done(
            Err(ApiError::Unauthorized),
        ),
        FetchReply::Listed(Err(ApiError::Other(_))) => FetchVerdict::FallBack,
        FetchReply::Fetched(Ok(data)) => {
            if normalize_current_data(&data).is_some() {
                FetchVerdict::Persist(Upload::CurrentData(data))
            } else {
                FetchVerdict::Done(Ok(()))
            }
        },
        FetchReply::Fetched(Err(error)) => FetchVerdict::Done(Err(error)),
    }
}

/// A storage sink.
#[derive(Debug, Clone, Copy, PartialEq, Eq, Structural)]
pub enum Sink {
    /// The tag-and-field time-series store.
    Influx,
    /// The relational store.
    Timescale,
}

/// Where in its round the cycle stands: what it is waiting for.
#[derive(Debug, Clone, Copy, PartialEq, Eq, Structural)]
pub enum Phase {
    /// The refresh request is out; `retried` once a login has preceded it.
    Refreshing { retried: bool },
    /// A login is under way because the refresh request was rejected.
    RefreshLogin,
    /// The wait between refresh and fetch.
    FetchWait,
    /// The device-list call is out; `retried` once a login has preceded it.
    Listing { retried: bool },
    /// The call for the lean reading is out.
    FallingBack { retried: bool },
    /// A login is under way because a fetch call was rejected.
    FetchLogin,
    /// The upload is being written to `sink`.
    Writing { sink: Sink },
    /// The wait between fetch and the next refresh.
    RefreshWait,
}

/// The polling cycle: the session it owns, the device it watches, its two
/// intervals in milliseconds, where in its round it stands, and what it
/// has fetched and not yet handed to every sink.
#[derive(Debug, PartialEq, Eq)]
pub struct Cycle {
    pub token: String,
    pub device_id: String,
    pub building_id: String,
    pub zone: String,
    pub fetch_interval: u64,
    pub refresh_interval: u64,
    pub phase: Phase,
    pub pending: Option<Upload>,
}

/// What the driver reports back.
#[derive(Debug, PartialEq, Eq)]
pub enum Event {
    /// The outcome of `Action::RequestRefresh`.
    Refreshed(Result<bool, ApiError>),
    /// The token that `Action::Login` left, as `get_access_token` gives it.
    LoggedIn(String),
    /// `Action::Sleep` has run its time.
    Woke,
    /// The outcome of `Action::ListDevices`.
    Listed(Result<Vec<ListDevicesResponse>, ApiError>),
    /// The outcome of `Action::GetCurrentData`.
    Fetched(Result<CurrentDataResponse, ApiError>),
    /// The outcome of `Action::Write`, with the failure's message.
    Written(Result<(), String>),
}

/// What the driver is asked to do.
#[derive(Debug, PartialEq, Eq)]
pub enum Action {
    /// Ask the vendor to poll the device afresh.
    RequestRefresh { token: String, device_id: String },
    /// Log in once more.
    Login,
    /// Wait.
    Sleep { millis: u64 },
    /// Fetch the device list.
    ListDevices { token: String },
    /// Fetch the lean reading of the one device.
    GetCurrentData { token: String, device_id: String, building_id: String },
    /// Hand what the cycle holds as `pending` to `sink`.
    Write { sink: Sink },
    /// Nothing: the event answers no action that is out.
    Idle,
}

impl Cycle {
    /// The cycle at another point of its round.
    pub open spec fn at(self, phase: Phase) -> Cycle {
        Cycle { phase, ..self }
    }

    /// The cycle with another token.
    pub open spec fn with_token(self, token: String) -> Cycle {
        Cycle { token, ..self }
    }

    /// The cycle about to write `upload` to the first sink.
    pub open spec fn holding(self, upload: Upload) -> Cycle {
        Cycle { pending: Some(upload), phase: Phase::Writing { sink: Sink::Influx }, ..self }
    }

    /// Whether the cycle holds an upload exactly while it writes, and one
    /// that normalizes to a snapshot. `start` establishes this and `step`
    /// keeps it.
    pub open spec fn wf(self) -> bool {
        match self.phase {
            Phase::Writing { .. } => self.pending matches Some(upload) && normalized(
                upload,
                self.zone@,
            ) is Some,
            _ => self.pending is None,
        }
    }

    /// The refresh request under the cycle's token.
    pub open spec fn refresh_action(self) -> Action {
        Action::RequestRefresh { token: self.token, device_id: self.device_id }
    }

    /// The device-list call under the cycle's token.
    pub open spec fn list_action(self) -> Action {
        Action::ListDevices { token: self.token }
    }

    /// The call for the lean reading under the cycle's token.
    pub open spec fn current_action(self) -> Action {
        Action::GetCurrentData {
            token: self.token,
            device_id: self.device_id,
            building_id: self.building_id,
        }
    }

    /// The wait that ends the refresh half of the round.
    pub open spec fn to_fetch_wait(self) -> (Cycle, Action) {
        (self.at(Phase::FetchWait), Action::Sleep { millis: self.fetch_interval })
    }

    /// The wait that ends the fetch half of the round. Nothing is held
    /// over it.
    pub open spec fn to_refresh_wait(self) -> (Cycle, Action) {
        (
            Cycle { pending: None, phase: Phase::RefreshWait, ..self },
            Action::Sleep { millis: self.refresh_interval },
        )
    }

    /// What follows a write: the next sink's turn, whatever the outcome,
    /// and after the last sink the wait.
    pub open spec fn after_write(self, sink: Sink) -> (Cycle, Action) {
        match sink {
            Sink::Influx => (
                self.at(Phase::Writing { sink: Sink::Timescale }),
                Action::Write { sink: Sink::Timescale },
            ),
            Sink::Timescale => self.to_refresh_wait(),
        }
    }

    /// What follows the outcome of a refresh request: one login and one more
    /// try after a first rejection, the wait before the fetch otherwise.
    pub open spec fn after_refresh(self, refreshed: Result<bool, ApiError>, retried: bool) -> (
        Cycle,
        Action,
    ) {
        if refreshed == Err::<bool, ApiError>(ApiError::Unauthorized) && !retried {
            (self.at(Phase::RefreshLogin), Action::Login)
        } else {
            self.to_fetch_wait()
        }
    }

    /// What follows a reply within a fetch attempt.
    pub open spec fn after_fetch(self, reply: FetchReply, retried: bool) -> (Cycle, Action) {
        match fetch_verdict(reply, self.zone@) {
            FetchVerdict::Persist(upload) => (
                self.holding(upload),
                Action::Write { sink: Sink::Influx },
            ),
            FetchVerdict::FallBack => (
                self.at(Phase::FallingBack { retried }),
                self.current_action(),
            ),
            FetchVerdict::Done(outcome) => {
                if outcome == Err::<(), ApiError>(ApiError::Unauthorized) && !retried {
                    (self.at(Phase::FetchLogin), Action::Login)
                } else {
                    self.to_refresh_wait()
                }
            },
        }
    }

    /// The transition function of the cycle: the cycle after `event`, and
    /// what to do next. An event that answers no action that is out changes
    /// nothing and asks for nothing.
    pub open spec fn next(self, event: Event) -> (Cycle, Action) {
        match (self.phase, event) {
            (Phase::Refreshing { retried }, Event::Refreshed(refreshed)) => self.after_refresh(
                refreshed,
                retried,
            ),
            (Phase::RefreshLogin, Event::LoggedIn(token)) => {
                let renewed = self.with_token(token).at(Phase::Refreshing { retried: true });
                (renewed, renewed.refresh_action())
            },
            (Phase::FetchWait, Event::Woke) => (
                self.at(Phase::Listing { retried: false }),
                self.list_action(),
            ),
            (Phase::Listing { retried }, Event::Listed(listed)) => self.after_fetch(
                FetchReply::Listed(listed),
                retried,
            ),
            (Phase::FallingBack { retried }, Event::Fetched(fetched)) => self.after_fetch(
                FetchReply::Fetched(fetched),
                retried,
            ),
            (Phase::FetchLogin, Event::LoggedIn(token)) => {
                let renewed = self.with_token(token).at(Phase::Listing { retried: true });
                (renewed, renewed.list_action())
            },
            (Phase::Writing { sink }, Event::Written(_)) => self.after_write(sink),
            (Phase::RefreshWait, Event::Woke) => (
                self.at(Phase::Refreshing { retried: false }),
                self.refresh_action(),
            ),
            _ => (self, Action::Idle),
        }
    }

    /// Starts a cycle for an authenticated session and a known device: the
    /// first thing to do is to request a refresh.
    pub fn start(
        token: String,
        device_id: String,
        building_id: String,
        zone: String,
        fetch_interval: u64,
        refresh_interval: u64,
    ) -> (r: (Cycle, Action))
        ensures
            r.0 == (Cycle {
                token,
                device_id,
                building_id,
                zone,
                fetch_interval,
                refresh_interval,
                phase: Phase::Refreshing { retried: false },
                pending: None,
            }),
            r.1 == r.0.refresh_action(),
            r.0.wf(),
    {
        let action = Action::RequestRefresh { token: token.clone(), device_id: device_id.clone() };
        let cycle = Cycle {
            token,
            device_id,
            building_id,
            zone,
            fetch_interval,
            refresh_interval,
            phase: Phase::Refreshing { retried: false },
            pending: None,
        };
        (cycle, action)
    }

    fn refresh(&self) -> (r: Action)
        ensures
            r == self.refresh_action(),
    {
        Action::RequestRefresh { token: self.token.clone(), device_id: self.device_id.clone() }
    }

    fn list(&self) -> (r: Action)
        ensures
            r == self.list_action(),
    {
        Action::ListDevices { token: self.token.clone() }
    }

    fn current(&self) -> (r: Action)
        ensures
            r == self.current_action(),
    {
        Action::GetCurrentData {
            token: self.token.clone(),
            device_id: self.device_id.clone(),
            building_id: self.building_id.clone(),
        }
    }

    fn rest(self) -> (r: (Cycle, Action))
        ensures
            r == self.to_refresh_wait(),
    {
        let mut cycle = self;
        let millis = cycle.refresh_interval;
        cycle.pending = None;
        cycle.phase = Phase::RefreshWait;
        (cycle, Action::Sleep { millis })
    }

    fn fetch_step(self, reply: FetchReply, retried: bool) -> (r: (Cycle, Action))
        ensures
            r == self.after_fetch(reply, retried),
            self.pending is None ==> r.0.wf(),
    {
        let mut cycle = self;
        match fetch_and_log_new_entry(reply, cycle.zone.as_str()) {
            FetchVerdict::Persist(upload) => {
                cycle.pending = Some(upload);
                cycle.phase = Phase::Writing { sink: Sink::Influx };
                (cycle, Action::Write { sink: Sink::Influx })
            },
            FetchVerdict::FallBack => {
                let action = cycle.current();
                cycle.phase = Phase::FallingBack { retried };
                (cycle, action)
            },
            FetchVerdict::Done(Err(ApiError::Unauthorized)) => {
                if retried {
                    cycle.rest()
                } else {
                    cycle.phase = Phase::FetchLogin;
                    (cycle, Action::Login)
                }
            },
            FetchVerdict::Done(_) => cycle.rest(),
        }
    }

    /// Takes what happened last and answers with the next thing to do.
    pub fn step(self, event: Event) -> (r: (Cycle, Action))
        ensures
            r == self.next(event),
            self.wf() ==> r.0.wf(),
    {
        let mut cycle = self;
        match cycle.phase {
            Phase::Refreshing { retried } => match event {
                Event::Refreshed(Err(ApiError::Unauthorized)) => {
                    if retried {
                        let millis = cycle.fetch_interval;
                        cycle.phase = Phase::FetchWait;
                        (cycle, Action::Sleep { millis })
                    } else {
                        cycle.phase = Phase::RefreshLogin;
                        (cycle, Action::Login)
                    }
                },
                Event::Refreshed(_) => {
                    let millis = cycle.fetch_interval;
                    cycle.phase = Phase::FetchWait;
                    (cycle, Action::Sleep { millis })
                },
                _ => (cycle, Action::Idle),
            },
            Phase::RefreshLogin => match event {
                Event::LoggedIn(token) => {
                    cycle.token = token;
                    cycle.phase = Phase::Refreshing { retried: true };
                    let action = cycle.refresh();
                    (cycle, action)
                },
                _ => (cycle, Action::Idle),
            },
            Phase::FetchWait => match event {
                Event::Woke => {
                    let action = cycle.list();
                    cycle.phase = Phase::Listing { retried: false };
                    (cycle, action)
                },
                _ => (cycle, Action::Idle),
            },
            Phase::Listing { retried } => match event {
                Event::Listed(listed) => cycle.fetch_step(FetchReply::Listed(listed), retried),
                _ => (cycle, Action::Idle),
            },
            Phase::FallingBack { retried } => match event {
                Event::Fetched(fetched) => cycle.fetch_step(FetchReply::Fetched(fetched), retried),
                _ => (cycle, Action::Idle),
            },
            Phase::FetchLogin => match event {
                Event::LoggedIn(token) => {
                    cycle.token = token;
                    cycle.phase = Phase::Listing { retried: true };
                    let action = cycle.list();
                    (cycle, action)
                },
                _ => (cycle, Action::Idle),
            },
            Phase::Writing { sink } => match event {
                Event::Written(_) => match sink {
                    Sink::Influx => {
                        cycle.phase = Phase::Writing { sink: Sink::Timescale };
                        (cycle, Action::Write { sink: Sink::Timescale })
                    },
                    Sink::Timescale => cycle.rest(),
                },
                _ => (cycle, Action::Idle),
            },
            Phase::RefreshWait => match event {
                Event::Woke => {
                    let action = cycle.refresh();
                    cycle.phase = Phase::Refreshing { retried: false };
                    (cycle, action)
                },
                _ => (cycle, Action::Idle),
            },
        }
    }
}

/// Whether the phase belongs to a try that a login has already preceded.
pub open spec fn is_retry(phase: Phase) -> bool {
    match phase {
        Phase::Refreshing { retried } => retried,
        Phase::Listing { retried } => retried,
        Phase::FallingBack { retried } => retried,
        _ => false,
    }
}

/// Whether the cycle is waiting for a login to end.
pub open spec fn awaits_login(phase: Phase) -> bool {
    phase is RefreshLogin || phase is FetchLogin
}

/// The cycle holds an upload exactly while it writes: a step keeps that,
/// and so a write is asked for only when there is an upload to write, one
/// that normalizes to a snapshot. A reply whose timestamp yields no
/// instant is never handed to a sink.
pub proof fn lemma_a_write_has_a_snapshot(cycle: Cycle, event: Event)
    requires
        cycle.wf(),
    ensures
        ({
            let (after, action) = cycle.next(event);
            &&& after.wf()
            &&& action is Write ==> after.phase is Writing
        }),
{
}

/// One sink's failure keeps no other sink from its try and stops no
/// round: whatever the outcome of either write, the same upload goes from
/// the first sink to the second, and from there the round goes on to its
/// wait with nothing held over.
pub proof fn lemma_sink_failures_are_isolated(
    cycle: Cycle,
    first: Result<(), String>,
    second: Result<(), String>,
)
    requires
        cycle.phase == (Phase::Writing { sink: Sink::Influx }),
    ensures
        ({
            let (between, next) = cycle.next(Event::Written(first));
            let (after, last) = between.next(Event::Written(second));
            &&& next == Action::Write { sink: Sink::Timescale }
            &&& between.pending == cycle.pending
            &&& last == Action::Sleep { millis: cycle.refresh_interval }
            &&& after.phase == Phase::RefreshWait
            &&& after.pending is None
        }),
{
}

/// A reply whose timestamp yields no instant ends the fetch with nothing
/// persisted and no further call: the cycle goes to its wait.
pub proof fn lemma_unreadable_time_persists_nothing(cycle: Cycle, event: Event)
    requires
        match event {
            Event::Listed(Ok(data)) => cycle.phase is Listing && has_monitored_device(data@)
                && zoned_stamp_instant(monitored_device(data@).last_time_stamp@, cycle.zone@)
                is None,
            Event::Fetched(Ok(data)) => cycle.phase is FallingBack && utc_stamp_instant(
                data.last_communication@,
            ) is None,
            _ => false,
        },
    ensures
        cycle.next(event) == cycle.to_refresh_wait(),
{
}

/// A login is asked for only after a rejected token on a first try, and the
/// cycle then waits for that login.
pub proof fn lemma_login_follows_a_first_rejection(cycle: Cycle, event: Event)
    requires
        cycle.next(event).1 is Login,
    ensures
        !is_retry(cycle.phase),
        awaits_login(cycle.next(event).0.phase),
        match event {
            Event::Refreshed(outcome) => outcome == Err::<bool, ApiError>(ApiError::Unauthorized),
            Event::Listed(outcome) => outcome == Err::<Vec<ListDevicesResponse>, ApiError>(
                ApiError::Unauthorized,
            ),
            Event::Fetched(outcome) => outcome == Err::<CurrentDataResponse, ApiError>(
                ApiError::Unauthorized,
            ),
            _ => false,
        },
{
}

/// A login replaces the token and leads to exactly one more try, which is
/// marked as a retry; a retry never asks for a login, whatever comes back.
pub proof fn lemma_one_login_per_call_site(cycle: Cycle, token: String, event: Event)
    ensures
        awaits_login(cycle.phase) ==> {
            let (renewed, action) = cycle.next(Event::LoggedIn(token));
            &&& renewed.token == token
            &&& is_retry(renewed.phase)
            &&& action == if cycle.phase is RefreshLogin {
                renewed.refresh_action()
            } else {
                renewed.list_action()
            }
        },
        is_retry(cycle.phase) ==> {
            let (after, action) = cycle.next(event);
            &&& !(action is Login)
            &&& !awaits_login(after.phase)
            &&& after.token == cycle.token
            &&& (after.phase is FallingBack ==> is_retry(after.phase))
        },
{
}

/// Two rejections of the refresh request in a row cost exactly one login;
/// the round then goes on to the wait before the fetch.
pub proof fn lemma_refresh_rejected_twice(cycle: Cycle, token: String)
    requires
        cycle.phase == (Phase::Refreshing { retried: false }),
    ensures
        ({
            let rejected = Event::Refreshed(Err(ApiError::Unauthorized));
            let (first, asked) = cycle.next(rejected);
            let (second, retry) = first.next(Event::LoggedIn(token));
            let (third, last) = second.next(rejected);
            &&& asked == Action::Login
            &&& retry == Action::RequestRefresh { token, device_id: cycle.device_id }
            &&& last == Action::Sleep { millis: cycle.fetch_interval }
            &&& third == cycle.with_token(token).at(Phase::FetchWait)
        }),
{
}

/// Two rejections of the device-list call in a row cost exactly one login
/// and persist nothing: the actions asked for are the login, the retry and
/// the wait that ends the round.
pub proof fn lemma_listing_rejected_twice(cycle: Cycle, token: String)
    requires
        cycle.phase == (Phase::Listing { retried: false }),
    ensures
        ({
            let rejected = Event::Listed(Err(ApiError::Unauthorized));
            let (first, asked) = cycle.next(rejected);
            let (second, retry) = first.next(Event::LoggedIn(token));
            let (third, last) = second.next(rejected);
            &&& asked == Action::Login
            &&& retry == Action::ListDevices { token }
            &&& last == Action::Sleep { millis: cycle.refresh_interval }
            &&& third == cycle.with_token(token).to_refresh_wait().0
            &&& !(asked is Write) && !(retry is Write) && !(last is Write)
        }),
{
}

/// A device list that fails for another reason than the token gives way to
/// the lean reading; if that succeeds and its timestamp yields an instant,
/// exactly that reading is held and written, once to each sink, as a
/// snapshot in which every field that only the rich shape carries is
/// unknown, and the round goes on to its wait.
pub proof fn lemma_fallback_persists_the_lean_snapshot(
    cycle: Cycle,
    message: String,
    data: CurrentDataResponse,
    first: Result<(), String>,
    second: Result<(), String>,
)
    requires
        cycle.phase is Listing,
        utc_stamp_instant(data.last_communication@) is Some,
    ensures
        ({
            let (asking, asked) = cycle.next(Event::Listed(Err(ApiError::Other(message))));
            let (holding, write) = asking.next(Event::Fetched(Ok(data)));
            let (between, next) = holding.next(Event::Written(first));
            let (after, last) = between.next(Event::Written(second));
            let snapshot = normalized(Upload::CurrentData(data), cycle.zone@);
            &&& asked == cycle.current_action()
            &&& write == Action::Write { sink: Sink::Influx }
            &&& holding.pending == Some(Upload::CurrentData(data))
            &&& snapshot == Some(
                lean_snapshot(data, utc_stamp_instant(data.last_communication@).unwrap()),
            )
            &&& snapshot.unwrap().lean()
            &&& next == Action::Write { sink: Sink::Timescale }
            &&& between.pending == holding.pending
            &&& last == Action::Sleep { millis: cycle.refresh_interval }
            &&& after == cycle.to_refresh_wait().0
        }),
{
}

/// No failure stops the cycle: whatever answers the action that is out,
/// the cycle asks for a next action, and only the session's token, the
/// phase and what is held for the sinks ever change.
pub proof fn lemma_the_cycle_goes_on(cycle: Cycle, event: Event)
    ensures
        ({
            let (after, action) = cycle.next(event);
            &&& after.device_id == cycle.device_id
            &&& after.building_id == cycle.building_id
            &&& after.zone == cycle.zone
            &&& after.fetch_interval == cycle.fetch_interval
            &&& after.refresh_interval == cycle.refresh_interval
            &&& (action is Idle ==> after == cycle)
            &&& (answers(cycle.phase, event) ==> !(action is Idle))
        }),
{
}

/// Whether the event reports the outcome of the action that is out in `phase`.
pub open spec fn answers(phase: Phase, event: Event) -> bool {
    match phase {
        Phase::Refreshing { .. } => event is Refreshed,
        Phase::RefreshLogin => event is LoggedIn,
        Phase::FetchWait => event is Woke,
        Phase::Listing { .. } => event is Listed,
        Phase::FallingBack { .. } => event is Fetched,
        Phase::FetchLogin => event is LoggedIn,
        Phase::Writing { .. } => event is Written,
        Phase::RefreshWait => event is Woke,
    }
}

/// How many logins the rest of the round can still ask for: one for each
/// half of the round that has not had its login yet.
pub open spec fn logins_left(phase: Phase) -> nat {
    match phase {
        Phase::Refreshing { retried: false } => 2,
        Phase::RefreshLogin => 1,
        Phase::Refreshing { retried: true } => 1,
        Phase::FetchWait => 1,
        Phase::Listing { retried: false } => 1,
        Phase::FallingBack { retried: false } => 1,
        _ => 0,
    }
}

/// How many answers the rest of the round can still take before its last
/// wait has run out.
pub open spec fn answers_left(phase: Phase) -> nat {
    match phase {
        Phase::Refreshing { retried: false } => 12,
        Phase::RefreshLogin => 11,
        Phase::Refreshing { retried: true } => 10,
        Phase::FetchWait => 9,
        Phase::Listing { retried: false } => 8,
        Phase::FallingBack { retried: false } => 7,
        Phase::FetchLogin => 6,
        Phase::Listing { retried: true } => 5,
        Phase::FallingBack { retried: true } => 4,
        Phase::Writing { sink: Sink::Influx } => 3,
        Phase::Writing { sink: Sink::Timescale } => 2,
        Phase::RefreshWait => 1,
    }
}

/// Whether the event ends a round: the wait after the fetch has run out.
pub open spec fn ends_round(phase: Phase, event: Event) -> bool {
    phase is RefreshWait && event is Woke
}

/// A round asks for two logins at most, one for the refresh and one for
/// the fetch, whatever the vendor answers: every login that is asked for
/// is paid out of what the round has left.
pub proof fn lemma_logins_are_rationed(cycle: Cycle, event: Event)
    requires
        !ends_round(cycle.phase, event),
    ensures
        ({
            let (after, action) = cycle.next(event);
            logins_left(after.phase) + (if action is Login { 1nat } else { 0nat }) <= logins_left(
                cycle.phase,
            )
        }),
{
}

/// Every round comes to its end: each answer brings the round closer to
/// its last wait, so that no round takes more than twelve, and the answer
/// to that wait starts the next round with a fresh refresh request.
pub proof fn lemma_every_round_ends(cycle: Cycle, event: Event)
    requires
        answers(cycle.phase, event),
    ensures
        ({
            let (after, action) = cycle.next(event);
            if ends_round(cycle.phase, event) {
                after.phase == (Phase::Refreshing { retried: false }) && action
                    == cycle.refresh_action()
            } else {
                answers_left(after.phase) < answers_left(cycle.phase)
            }
        }),
{
}

} // verus!
