//! Decisions of the controller loop: which backend is active, when the next
//! refresh is due, and which user-interface events each command outcome
//! produces.
//!
//! The loop itself — waiting on the command channel, performing the HTTP and
//! UDP calls, emitting the events — is run by the surrounding application;
//! every decision it takes goes through the functions here.  Times are
//! carried as milliseconds of a monotonic clock.

use vstd::prelude::*;
use vstd::string::StringExecFns;

use crate::error::Error;
use crate::json::{string_member, JsonView};
use crate::jsonread::byte_items;
use crate::jsonval::json_of;
use crate::things5_api::Device;
use crate::washing_machine::{local, things5, ConnectionState};

verus! {

broadcast use vstd::std_specs::control_flow::group_control_flow_axioms;

/// How long the loop waits for the next command before checking the refresh
/// conditions.
pub const POLL_INTERVAL_MS: u64 = 100;

/// A quick refresh runs once this much time has passed since the last
/// control command, debouncing bursts of commands into a single refresh.
pub const QUICK_REFRESH_DELAY_MS: u64 = 300;

/// A regular refresh runs when the machine has been idle this long.
pub const REGULAR_REFRESH_PERIOD_MS: u64 = 1_000;

/// The commands that arrive from the user-interface boundary.
#[derive(Debug)]
pub enum BackEndPortMessage {
    Refresh,
    Things5Login { username: String, password: String },
    WashingMachineHttpConnect(String),
    WashingMachineThings5Connect { token: String, device_id: String },
    SearchMachines,
    SendCurrentMachineConfiguration(Vec<u8>),
    GetCurrentMachineConfiguration,
    SelectMachineConfiguration(String),
    StartProgram(u16),
    Restart,
    Pause,
    Stop,
    ClearAlarms,
}

/// The mathematical shape of one inbound command.
pub ghost enum BackEndPortMessageView {
    Refresh,
    Things5Login { username: Seq<char>, password: Seq<char> },
    WashingMachineHttpConnect(Seq<char>),
    WashingMachineThings5Connect { token: Seq<char>, device_id: Seq<char> },
    SearchMachines,
    SendCurrentMachineConfiguration(Seq<u8>),
    GetCurrentMachineConfiguration,
    SelectMachineConfiguration(Seq<char>),
    StartProgram(u16),
    Restart,
    Pause,
    Stop,
    ClearAlarms,
}

impl View for BackEndPortMessage {
    type V = BackEndPortMessageView;

    open spec fn view(&self) -> BackEndPortMessageView {
        match self {
            BackEndPortMessage::Refresh => BackEndPortMessageView::Refresh,
            BackEndPortMessage::Things5Login { username, password } => (
            BackEndPortMessageView::Things5Login { username: username@, password: password@ }),
            BackEndPortMessage::WashingMachineHttpConnect(ip) => (
            BackEndPortMessageView::WashingMachineHttpConnect(ip@)),
            BackEndPortMessage::WashingMachineThings5Connect { token, device_id } => (
            BackEndPortMessageView::WashingMachineThings5Connect {
                token: token@,
                device_id: device_id@,
            }),
            BackEndPortMessage::SearchMachines => BackEndPortMessageView::SearchMachines,
            BackEndPortMessage::SendCurrentMachineConfiguration(bytes) => (
            BackEndPortMessageView::SendCurrentMachineConfiguration(bytes@)),
            BackEndPortMessage::GetCurrentMachineConfiguration => (
            BackEndPortMessageView::GetCurrentMachineConfiguration),
            BackEndPortMessage::SelectMachineConfiguration(archive) => (
            BackEndPortMessageView::SelectMachineConfiguration(archive@)),
            BackEndPortMessage::StartProgram(program) => BackEndPortMessageView::StartProgram(
                *program,
            ),
            BackEndPortMessage::Restart => BackEndPortMessageView::Restart,
            BackEndPortMessage::Pause => BackEndPortMessageView::Pause,
            BackEndPortMessage::Stop => BackEndPortMessageView::Stop,
            BackEndPortMessage::ClearAlarms => BackEndPortMessageView::ClearAlarms,
        }
    }
}

/// The events that the loop pushes back to the user-interface boundary.
#[derive(Debug)]
pub enum UiEvent {
    StateUpdate(ConnectionState),
    Notification(String),
    IpAddresses(Vec<(String, String)>),
    Things5Login(String),
    Things5Devices(Vec<Device>),
    RemoteMachineLoaded(Vec<u8>),
}

impl UiEvent {
    /// The topic under which this event is published.
    pub fn topic(&self) -> (r: &'static str)
        ensures
            self is StateUpdate ==> r@ == "stateUpdate"@,
            self is Notification ==> r@ == "notificationMessage"@,
            self is IpAddresses ==> r@ == "ipAddresses"@,
            self is Things5Login ==> r@ == "things5Login"@,
            self is Things5Devices ==> r@ == "things5Devices"@,
            self is RemoteMachineLoaded ==> r@ == "remoteMachineLoaded"@,
    {
        match self {
            UiEvent::StateUpdate(_) => "stateUpdate",
            UiEvent::Notification(_) => "notificationMessage",
            UiEvent::IpAddresses(_) => "ipAddresses",
            UiEvent::Things5Login(_) => "things5Login",
            UiEvent::Things5Devices(_) => "things5Devices",
            UiEvent::RemoteMachineLoaded(_) => "remoteMachineLoaded",
        }
    }
}

/// A command that the loop must reject without terminating: either its
/// payload could not be understood, or it needs a connection while none is
/// active.
#[derive(Debug, PartialEq, Eq, Structural, Clone, Copy)]
pub enum LoopFault {
    MalformedCommand,
    MissingConnection,
}

/// The one active connection, a closed choice of the two backends.
pub enum ActiveConnection {
    Local(local::Connection),
    Things5(things5::Connection),
}

impl ActiveConnection {
    /// The last computed state of whichever backend is active.
    pub open spec fn state_view(&self) -> crate::washing_machine::ConnectionStateView {
        match self {
            ActiveConnection::Local(c) => c.connection_state@,
            ActiveConnection::Things5(c) => c.connection_state@,
        }
    }
}

/// Which refresh is due, if any.
#[derive(Debug, PartialEq, Eq, Structural, Clone, Copy)]
pub enum RefreshDue {
    /// The debounced refresh scheduled after a control command.
    Quick,
    /// The steady-cadence background refresh.
    Regular,
}

/// The mutable state that the controller loop owns exclusively.
pub struct Controller {
    pub connection: Option<ActiveConnection>,
    pub update_ts: u64,
    pub quick_update_ts: Option<u64>,
}

/// When a quick-refresh timestamp is pending, nothing happens until its delay
/// elapses — in particular no regular refresh overtakes it; with none
/// pending, the regular cadence applies.  Without an active connection no
/// refresh is ever due.
pub open spec fn due_refresh_at(c: Controller, now: u64) -> Option<RefreshDue> {
    if c.connection is None {
        None
    } else {
        match c.quick_update_ts {
            Some(t) => if now > t + QUICK_REFRESH_DELAY_MS {
                Some(RefreshDue::Quick)
            } else {
                None
            },
            None => if now > c.update_ts + REGULAR_REFRESH_PERIOD_MS {
                Some(RefreshDue::Regular)
            } else {
                None
            },
        }
    }
}

impl Controller {
    /// A controller with no active connection; the idle cadence starts now.
    pub fn new(now: u64) -> (r: Controller)
        ensures
            r.connection is None,
            r.update_ts == now,
            r.quick_update_ts is None,
    {
        Controller { connection: None, update_ts: now, quick_update_ts: None }
    }

    /// Whether a command that needs a connection may run.
    pub fn has_connection(&self) -> (r: bool)
        ensures
            r == (self.connection is Some),
    {
        self.connection.is_some()
    }

    /// The state snapshot pushed to the user interface: the absence of a
    /// connection is reported as `Disconnected`.
    pub fn snapshot(&self) -> (r: ConnectionState)
        ensures
            self.connection is None ==> r is Disconnected,
            self.connection matches Some(c) ==> r@ == c.state_view(),
    {
        match &self.connection {
            None => ConnectionState::Disconnected,
            Some(ActiveConnection::Local(c)) => c.get_connection_state(),
            Some(ActiveConnection::Things5(c)) => c.get_connection_state(),
        }
    }

    /// Which refresh is due at `now`.
    pub fn due_refresh(&self, now: u64) -> (r: Option<RefreshDue>)
        ensures
            r == due_refresh_at(*self, now),
    {
        if self.connection.is_none() {
            return None;
        }
        match self.quick_update_ts {
            Some(t) => {
                if now > t && now - t > QUICK_REFRESH_DELAY_MS {
                    Some(RefreshDue::Quick)
                } else {
                    None
                }
            },
            None => {
                if now > self.update_ts && now - self.update_ts > REGULAR_REFRESH_PERIOD_MS {
                    Some(RefreshDue::Regular)
                } else {
                    None
                }
            },
        }
    }

    /// Record that a refresh just ran: the idle cadence restarts and any
    /// pending quick refresh is considered served.
    pub fn note_refresh_done(&mut self, now: u64)
        ensures
            final(self).connection == old(self).connection,
            final(self).update_ts == now,
            final(self).quick_update_ts is None,
    {
        self.update_ts = now;
        self.quick_update_ts = None;
    }

    /// Record that a control command was just issued: a quick refresh is due
    /// after its delay.  A later command overwrites the timestamp, so a burst
    /// of commands debounces into a single refresh.
    pub fn schedule_quick_refresh(&mut self, now: u64)
        ensures
            final(self).connection == old(self).connection,
            final(self).update_ts == old(self).update_ts,
            final(self).quick_update_ts == Some(now),
    {
        self.quick_update_ts = Some(now);
    }

    /// Outcome of a local connect attempt: a bootstrap that reached
    /// `Connected` becomes the active connection and its state is announced;
    /// a failed one leaves everything as it was and only reports the
    /// failure.
    pub fn handle_local_connect(&mut self, conn: local::Connection, now: u64) -> (r: Vec<UiEvent>)
        ensures
            conn.connection_state is Connected ==> {
                &&& final(self).connection == Some(ActiveConnection::Local(conn))
                &&& final(self).update_ts == now
                &&& r@.len() == 2
                &&& r@[0] matches UiEvent::Notification(m) && m@ == "Connesso"@
                &&& r@[1] matches UiEvent::StateUpdate(s) && s@ == conn.connection_state@
            },
            !(conn.connection_state is Connected) ==> {
                &&& final(self).connection == old(self).connection
                &&& final(self).update_ts == old(self).update_ts
                &&& r@.len() == 1
                &&& r@[0] matches UiEvent::Notification(m) && m@ == "ConnessioneFallita"@
            },
            final(self).quick_update_ts == old(self).quick_update_ts,
    {
        let mut events: Vec<UiEvent> = Vec::new();
        match conn.connection_state {
            ConnectionState::Connected { .. } => {
                events.push(UiEvent::Notification(String::from_str("Connesso")));
                events.push(UiEvent::StateUpdate(conn.get_connection_state()));
                self.connection = Some(ActiveConnection::Local(conn));
                self.update_ts = now;
            },
            _ => {
                events.push(UiEvent::Notification(String::from_str("ConnessioneFallita")));
            },
        }
        events
    }

    /// Outcome of a cloud connect attempt; same policy as the local one.
    pub fn handle_things5_connect(
        &mut self,
        conn: things5::Connection,
        now: u64,
    ) -> (r: Vec<UiEvent>)
        ensures
            conn.connection_state is Connected ==> {
                &&& final(self).connection == Some(ActiveConnection::Things5(conn))
                &&& final(self).update_ts == now
                &&& r@.len() == 2
                &&& r@[0] matches UiEvent::Notification(m) && m@ == "Connesso"@
                &&& r@[1] matches UiEvent::StateUpdate(s) && s@ == conn.connection_state@
            },
            !(conn.connection_state is Connected) ==> {
                &&& final(self).connection == old(self).connection
                &&& final(self).update_ts == old(self).update_ts
                &&& r@.len() == 1
                &&& r@[0] matches UiEvent::Notification(m) && m@ == "ConnessioneFallita"@
            },
            final(self).quick_update_ts == old(self).quick_update_ts,
    {
        let mut events: Vec<UiEvent> = Vec::new();
        match conn.connection_state {
            ConnectionState::Connected { .. } => {
                events.push(UiEvent::Notification(String::from_str("Connesso")));
                events.push(UiEvent::StateUpdate(conn.get_connection_state()));
                self.connection = Some(ActiveConnection::Things5(conn));
                self.update_ts = now;
            },
            _ => {
                events.push(UiEvent::Notification(String::from_str("ConnessioneFallita")));
            },
        }
        events
    }
}

/// What a finished login attempt produces: the events to publish and,
/// when both the login and the device listing succeeded, the token to save
/// in the preference store.
pub struct LoginOutcome {
    pub events: Vec<UiEvent>,
    pub save_token: Option<String>,
}

/// Decide the outcome of a login attempt.  A granted token is announced at
/// once; the device list follows if it could be fetched, and only then is the
/// token persisted.  Rejected credentials surface as their specific
/// notification; every other failure as a generic connectivity one.
pub fn handle_login_result(
    auth: Result<String, Error>,
    devices: Result<Vec<Device>, Error>,
) -> (r: LoginOutcome)
    ensures
        auth matches Ok(token) ==> {
            &&& r.events@.len() >= 1
            &&& r.events@[0] matches UiEvent::Things5Login(t) && t@ == token@
            &&& devices matches Ok(d) ==> {
                &&& r.events@.len() == 2
                &&& r.events@[1] matches UiEvent::Things5Devices(ds) && ds == d
                &&& r.save_token matches Some(t) && t@ == token@
            }
            &&& devices is Err ==> r.events@.len() == 1 && r.save_token is None
        },
        auth matches Err(e) ==> {
            &&& r.events@.len() == 1
            &&& r.save_token is None
            &&& e is Value ==> (r.events@[0] matches UiEvent::Notification(m) && m@
                == "CredenzialiNonValide"@)
            &&& !(e is Value) ==> (r.events@[0] matches UiEvent::Notification(m) && m@
                == "ErroreDiRete"@)
        },
{
    let mut events: Vec<UiEvent> = Vec::new();
    let mut save_token: Option<String> = None;
    match auth {
        Ok(token) => {
            events.push(UiEvent::Things5Login(token.clone()));
            match devices {
                Ok(d) => {
                    events.push(UiEvent::Things5Devices(d));
                    save_token = Some(token);
                },
                Err(_) => {},
            }
        },
        Err(Error::Value) => {
            events.push(UiEvent::Notification(String::from_str("CredenzialiNonValide")));
        },
        Err(_) => {
            events.push(UiEvent::Notification(String::from_str("ErroreDiRete")));
        },
    }
    LoginOutcome { events, save_token }
}

/// The events published at startup: a token saved in an earlier session is
/// announced together with its device list, but only if the list could be
/// fetched with it; otherwise the startup stays silent.
pub fn startup_events(token: Option<String>, devices: Result<Vec<Device>, Error>) -> (r: Vec<
    UiEvent,
>)
    ensures
        token is None ==> r@.len() == 0,
        token matches Some(t) ==> {
            &&& devices matches Ok(d) ==> {
                &&& r@.len() == 2
                &&& r@[0] matches UiEvent::Things5Login(tk) && tk@ == t@
                &&& r@[1] matches UiEvent::Things5Devices(ds) && ds == d
            }
            &&& devices is Err ==> r@.len() == 0
        },
{
    let mut events: Vec<UiEvent> = Vec::new();
    match (token, devices) {
        (Some(t), Ok(d)) => {
            events.push(UiEvent::Things5Login(t));
            events.push(UiEvent::Things5Devices(d));
        },
        _ => {},
    }
    events
}

/// The events produced by a finished discovery poll: the found addresses, or
/// nothing when the poll itself failed.
pub fn discovery_events(result: Result<Vec<(String, String)>, String>) -> (r: Vec<UiEvent>)
    ensures
        result matches Ok(addresses) ==> r@.len() == 1 && (r@[0] matches UiEvent::IpAddresses(a)
            && a == addresses),
        result is Err ==> r@.len() == 0,
{
    let mut events: Vec<UiEvent> = Vec::new();
    match result {
        Ok(addresses) => {
            events.push(UiEvent::IpAddresses(addresses));
        },
        Err(_) => {},
    }
    events
}

impl Controller {
    /// Outcome of a configuration upload: the matching notification, and a
    /// quick refresh scheduled either way.
    pub fn handle_send_configuration_result(
        &mut self,
        result: Result<(), Error>,
        now: u64,
    ) -> (r: UiEvent)
        ensures
            final(self).connection == old(self).connection,
            final(self).update_ts == old(self).update_ts,
            final(self).quick_update_ts == Some(now),
            result is Ok ==> (r matches UiEvent::Notification(m) && m@
                == "ConfigurazioneCaricata"@),
            result is Err ==> (r matches UiEvent::Notification(m) && m@
                == "NonSonoRiuscitoACaricareLaConfigurazione"@),
    {
        self.quick_update_ts = Some(now);
        match result {
            Ok(()) => UiEvent::Notification(String::from_str("ConfigurazioneCaricata")),
            Err(_) => UiEvent::Notification(
                String::from_str("NonSonoRiuscitoACaricareLaConfigurazione"),
            ),
        }
    }

    /// Outcome of a configuration selection: success schedules a quick
    /// refresh; failure leaves the cadence untouched.
    pub fn handle_select_configuration_result(
        &mut self,
        result: Result<(), Error>,
        now: u64,
    ) -> (r: UiEvent)
        ensures
            final(self).connection == old(self).connection,
            final(self).update_ts == old(self).update_ts,
            result is Ok ==> final(self).quick_update_ts == Some(now) && (r matches
                UiEvent::Notification(m) && m@ == "Successo"@),
            result is Err ==> final(self).quick_update_ts == old(self).quick_update_ts && (
            r matches UiEvent::Notification(m) && m@ == "Fallimento"@),
    {
        match result {
            Ok(()) => {
                self.quick_update_ts = Some(now);
                UiEvent::Notification(String::from_str("Successo"))
            },
            Err(_) => UiEvent::Notification(String::from_str("Fallimento")),
        }
    }

    /// Outcome of a machine-control verb: whatever the transport said, a
    /// quick refresh is scheduled so the next snapshot shows the effect.
    pub fn handle_control_result(&mut self, _result: Result<(), Error>, now: u64)
        ensures
            final(self).connection == old(self).connection,
            final(self).update_ts == old(self).update_ts,
            final(self).quick_update_ts == Some(now),
    {
        self.quick_update_ts = Some(now);
    }
}

/// Outcome of a configuration download: the bytes travel to the user
/// interface on success; either way a notification reports how it went.
pub fn handle_get_configuration_result(result: Result<Vec<u8>, Error>) -> (r: Vec<UiEvent>)
    ensures
        result matches Ok(bytes) ==> {
            &&& r@.len() == 2
            &&& r@[0] matches UiEvent::RemoteMachineLoaded(b) && b == bytes
            &&& r@[1] matches UiEvent::Notification(m) && m@ == "ConfigurazioneScaricata"@
        },
        result is Err ==> r@.len() == 1 && (r@[0] matches UiEvent::Notification(m) && m@
            == "NonSonoRiuscitoAScaricareLaConfigurazione"@),
{
    let mut events: Vec<UiEvent> = Vec::new();
    match result {
        Ok(bytes) => {
            events.push(UiEvent::RemoteMachineLoaded(bytes));
            events.push(UiEvent::Notification(String::from_str("ConfigurazioneScaricata")));
        },
        Err(_) => {
            events.push(
                UiEvent::Notification(String::from_str("NonSonoRiuscitoAScaricareLaConfigurazione")),
            );
        },
    }
    events
}

/// A fault of the loop itself — a malformed command payload, or a command
/// that needs a connection while none is active — is rejected with a
/// notification instead of terminating the loop.
pub fn fault_notification(_fault: LoopFault) -> (r: UiEvent)
    ensures
        r matches UiEvent::Notification(m) && m@ == "Fallimento"@,
{
    UiEvent::Notification(String::from_str("Fallimento"))
}

fn word_is(s: &String, lit: &str) -> (r: bool)
    ensures
        r == (s@ == lit@),
{
    let owned = lit.to_owned();
    s.eq(&owned)
}

/// The command a bare name denotes: one of the unit commands.
pub open spec fn unit_message_of(s: Seq<char>) -> Option<BackEndPortMessageView> {
    if s == "Refresh"@ {
        Some(BackEndPortMessageView::Refresh)
    } else if s == "SearchMachines"@ {
        Some(BackEndPortMessageView::SearchMachines)
    } else if s == "GetCurrentMachineConfiguration"@ {
        Some(BackEndPortMessageView::GetCurrentMachineConfiguration)
    } else if s == "Restart"@ {
        Some(BackEndPortMessageView::Restart)
    } else if s == "Pause"@ {
        Some(BackEndPortMessageView::Pause)
    } else if s == "Stop"@ {
        Some(BackEndPortMessageView::Stop)
    } else if s == "ClearAlarms"@ {
        Some(BackEndPortMessageView::ClearAlarms)
    } else {
        None
    }
}

/// The command a one-key object denotes: the key is the command's name and
/// the value carries its data with the exact expected shape.
pub open spec fn tagged_message_of(tag: Seq<char>, payload: JsonView) -> Option<
    BackEndPortMessageView,
> {
    if tag == "Things5Login"@ {
        match (string_member(payload, "username"@), string_member(payload, "password"@)) {
            (Some(username), Some(password)) => Some(
                BackEndPortMessageView::Things5Login { username, password },
            ),
            _ => None,
        }
    } else if tag == "WashingMachineHttpConnect"@ {
        match payload {
            JsonView::Text(ip) => Some(BackEndPortMessageView::WashingMachineHttpConnect(ip)),
            _ => None,
        }
    } else if tag == "WashingMachineThings5Connect"@ {
        match (string_member(payload, "token"@), string_member(payload, "device_id"@)) {
            (Some(token), Some(device_id)) => Some(
                BackEndPortMessageView::WashingMachineThings5Connect { token, device_id },
            ),
            _ => None,
        }
    } else if tag == "SendCurrentMachineConfiguration"@ {
        match payload {
            JsonView::List(items) => match byte_items(items) {
                Some(bytes) => Some(
                    BackEndPortMessageView::SendCurrentMachineConfiguration(bytes),
                ),
                None => None,
            },
            _ => None,
        }
    } else if tag == "SelectMachineConfiguration"@ {
        match payload {
            JsonView::Text(archive) => Some(
                BackEndPortMessageView::SelectMachineConfiguration(archive),
            ),
            _ => None,
        }
    } else if tag == "StartProgram"@ {
        match payload {
            JsonView::Number(Some(n)) => if n <= u16::MAX as u64 {
                Some(BackEndPortMessageView::StartProgram(n as u16))
            } else {
                None
            },
            _ => None,
        }
    } else {
        None
    }
}

/// The command a decoded payload denotes: a unit command's bare name, or a
/// one-key object naming the command.
pub open spec fn message_of_json(j: JsonView) -> Option<BackEndPortMessageView> {
    match j {
        JsonView::Text(s) => unit_message_of(s),
        JsonView::Object(members) => if members.len() == 1 {
            tagged_message_of(members[0].0, members[0].1)
        } else {
            None
        },
        _ => None,
    }
}

/// Parse one inbound command payload from the user-interface port, as
/// `message_of_json` describes.  A payload that is not JSON is a `Json`
/// error; one that fits no command is a `Protocol` error — either way the
/// loop rejects the single offending command and stays alive.
pub fn parse_port_message(payload: &str) -> (r: Result<BackEndPortMessage, Error>)
    ensures
        json_of(payload@) is None ==> (r matches Err(e) && e is Json),
        json_of(payload@) matches Some(j) ==> (match message_of_json(j) {
            Some(m) => r matches Ok(msg) && msg@ == m,
            None => r matches Err(e) && e is Protocol,
        }),
{
    let root = match crate::jsonval::json_parse(payload) {
        Ok(v) => v,
        Err(m) => {
            return Err(Error::Json(m));
        },
    };
    match root.as_text() {
        Some(word) => {
            return if word_is(word, "Refresh") {
                Ok(BackEndPortMessage::Refresh)
            } else if word_is(word, "SearchMachines") {
                Ok(BackEndPortMessage::SearchMachines)
            } else if word_is(word, "GetCurrentMachineConfiguration") {
                Ok(BackEndPortMessage::GetCurrentMachineConfiguration)
            } else if word_is(word, "Restart") {
                Ok(BackEndPortMessage::Restart)
            } else if word_is(word, "Pause") {
                Ok(BackEndPortMessage::Pause)
            } else if word_is(word, "Stop") {
                Ok(BackEndPortMessage::Stop)
            } else if word_is(word, "ClearAlarms") {
                Ok(BackEndPortMessage::ClearAlarms)
            } else {
                Err(Error::Protocol)
            };
        },
        None => {},
    }
    let members = match root.as_object() {
        Some(m) => m,
        None => {
            return Err(Error::Protocol);
        },
    };
    if members.len() != 1 {
        return Err(Error::Protocol);
    }
    let tag = &members[0].0;
    let value = &members[0].1;
    proof {
        assert(root@->Object_0[0] == (tag@, value@));
    }
    if word_is(tag, "Things5Login") {
        let username = match crate::jsonread::get_string(value, "username") {
            Ok(u) => u,
            Err(_) => {
                return Err(Error::Protocol);
            },
        };
        let password = match crate::jsonread::get_string(value, "password") {
            Ok(p) => p,
            Err(_) => {
                return Err(Error::Protocol);
            },
        };
        Ok(BackEndPortMessage::Things5Login { username, password })
    } else if word_is(tag, "WashingMachineHttpConnect") {
        match value.as_text() {
            Some(ip) => Ok(BackEndPortMessage::WashingMachineHttpConnect(ip.clone())),
            None => Err(Error::Protocol),
        }
    } else if word_is(tag, "WashingMachineThings5Connect") {
        let token = match crate::jsonread::get_string(value, "token") {
            Ok(t) => t,
            Err(_) => {
                return Err(Error::Protocol);
            },
        };
        let device_id = match crate::jsonread::get_string(value, "device_id") {
            Ok(d) => d,
            Err(_) => {
                return Err(Error::Protocol);
            },
        };
        Ok(BackEndPortMessage::WashingMachineThings5Connect { token, device_id })
    } else if word_is(tag, "SendCurrentMachineConfiguration") {
        match value.as_list() {
            Some(items) => match crate::jsonread::read_byte_items(items) {
                Some(bytes) => Ok(BackEndPortMessage::SendCurrentMachineConfiguration(bytes)),
                None => Err(Error::Protocol),
            },
            None => Err(Error::Protocol),
        }
    } else if word_is(tag, "SelectMachineConfiguration") {
        match value.as_text() {
            Some(archive) => Ok(BackEndPortMessage::SelectMachineConfiguration(archive.clone())),
            None => Err(Error::Protocol),
        }
    } else if word_is(tag, "StartProgram") {
        match value.as_unsigned() {
            Some(n) => {
                if n <= 65_535 {
                    Ok(BackEndPortMessage::StartProgram(n as u16))
                } else {
                    Err(Error::Protocol)
                }
            },
            None => Err(Error::Protocol),
        }
    } else {
        Err(Error::Protocol)
    }
}

/// Two control commands in one burst debounce into exactly one quick
/// refresh.  After commands at `t1` and then `t2`, no refresh is due at any
/// instant up to the delay after `t2` — the first command's deadline no
/// longer counts — one is due right after it, and once that refresh runs,
/// none is due again before the regular idle period has passed.
pub proof fn lemma_quick_refresh_debounce(c: Controller, t1: u64, t2: u64)
    requires
        c.connection is Some,
        t1 <= t2,
        t2 + QUICK_REFRESH_DELAY_MS < u64::MAX,
    ensures
        forall|t: u64|
            t <= t2 + QUICK_REFRESH_DELAY_MS ==> due_refresh_at(
                Controller { quick_update_ts: Some(t2), ..c },
                t,
            ) is None,
        due_refresh_at(
            Controller { quick_update_ts: Some(t2), ..c },
            (t2 + QUICK_REFRESH_DELAY_MS + 1) as u64,
        ) == Some(RefreshDue::Quick),
        forall|t: u64, done: u64|
            t <= done + REGULAR_REFRESH_PERIOD_MS ==> due_refresh_at(
                Controller { quick_update_ts: None, update_ts: done, ..c },
                t,
            ) is None,
{
}

} // verus!
