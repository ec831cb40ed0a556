//! State machine of the local (direct HTTP) connection backend.
//!
//! The surrounding application performs the HTTP requests and hands their
//! parsed results back as plain values; every decision about the connection
//! state is made and proved here.

use vstd::prelude::*;
use vstd::string::StringExecFns;

use crate::encoding::{percent_encode, percent_encoded_of};
use crate::error::Error;
use crate::json::{
    bool_member, list_member, member, string_member, u16_member, u32_member, JsonValue, JsonView,
};
use crate::jsonread::{get_bool, get_list, get_string, get_string_vec, get_u16, get_u32,
    get_u32_vec};
use crate::jsonval::{json_of, json_parse};
use crate::numbers::{dec_digits_of, dec_string};
use super::{Configuration, ConnectionState, ProgramPreviewView, State, Statistics};

verus! {

broadcast use vstd::std_specs::control_flow::group_control_flow_axioms;

/// The URL of one endpoint of the machine's embedded web server: same
/// origin, plain HTTP, no authentication.
pub open spec fn local_url(ip: Seq<char>, path: Seq<char>) -> Seq<char> {
    "http://"@ + ip + "/"@ + path
}

fn build_url(ip: &str, path: &str) -> (r: String)
    ensures
        r@ == local_url(ip@, path@),
{
    let mut s = String::from_str("http://");
    s.append(ip);
    s.append("/");
    s.append(path);
    proof {
        assert(s@ =~~= local_url(ip@, path@));
    }
    s
}

/// `GET /state`: the telemetry snapshot.
pub fn state_url(ip: &str) -> (r: String)
    ensures
        r@ == local_url(ip@, "state"@),
{
    build_url(ip, "state")
}

/// `GET /machine`: the configuration.
pub fn configuration_url(ip: &str) -> (r: String)
    ensures
        r@ == local_url(ip@, "machine"@),
{
    build_url(ip, "machine")
}

/// `GET /statistics`: the usage counters, wrapped in a `total` object.
pub fn statistics_url(ip: &str) -> (r: String)
    ensures
        r@ == local_url(ip@, "statistics"@),
{
    build_url(ip, "statistics")
}

/// `POST /machine/{archive}` and `GET /machine/{archive}`: one named
/// configuration blob.  The archive name is percent-encoded in the path;
/// upload and download address the blob through this same URL.
pub fn machine_archive_url(ip: &str, archive: &str) -> (r: String)
    ensures
        r@ == local_url(ip@, "machine/"@ + percent_encoded_of(archive@)),
{
    let encoded = percent_encode(archive);
    let mut s = String::from_str("http://");
    s.append(ip);
    s.append("/");
    s.append("machine/");
    s.append(encoded.as_str());
    proof {
        assert(s@ =~~= local_url(ip@, "machine/"@ + percent_encoded_of(archive@)));
    }
    s
}

/// `POST /select_machine/{archive}`: activate a previously uploaded
/// configuration.
pub fn select_machine_url(ip: &str, archive: &str) -> (r: String)
    ensures
        r@ == local_url(ip@, "select_machine/"@ + percent_encoded_of(archive@)),
{
    let encoded = percent_encode(archive);
    let mut s = String::from_str("http://");
    s.append(ip);
    s.append("/");
    s.append("select_machine/");
    s.append(encoded.as_str());
    proof {
        assert(s@ =~~= local_url(ip@, "select_machine/"@ + percent_encoded_of(archive@)));
    }
    s
}

/// `POST /start`: start the selected program, or — with no body — resume
/// after a pause; the restart verb posts here too.
pub fn start_url(ip: &str) -> (r: String)
    ensures
        r@ == local_url(ip@, "start"@),
{
    build_url(ip, "start")
}

/// `POST /pause`.
pub fn pause_url(ip: &str) -> (r: String)
    ensures
        r@ == local_url(ip@, "pause"@),
{
    build_url(ip, "pause")
}

/// `POST /stop`.
pub fn stop_url(ip: &str) -> (r: String)
    ensures
        r@ == local_url(ip@, "stop"@),
{
    build_url(ip, "stop")
}

/// `POST /clear_alarms`.
pub fn clear_alarms_url(ip: &str) -> (r: String)
    ensures
        r@ == local_url(ip@, "clear_alarms"@),
{
    build_url(ip, "clear_alarms")
}

/// The JSON body naming the program that `POST /start` is to run.
pub fn start_program_body(program: u16) -> (r: String)
    ensures
        r@ == "{\"cycle\":"@ + dec_digits_of(program as int) + "}"@,
{
    let mut s = String::from_str("{\"cycle\":");
    s.append(dec_string(program).as_str());
    s.append("}");
    proof {
        assert(s@ =~~= "{\"cycle\":"@ + dec_digits_of(program as int) + "}"@);
    }
    s
}

/// A configuration upload carries the blob's bytes untouched.
pub open spec fn upload_body(data: Seq<u8>) -> Seq<u8> {
    data
}

/// The upload of a configuration blob: its URL and its raw body.
pub fn upload_request(ip: &str, archive: &str, data: Vec<u8>) -> (r: (String, Vec<u8>))
    ensures
        r.0@ == local_url(ip@, "machine/"@ + percent_encoded_of(archive@)),
        r.1@ == upload_body(data@),
{
    (machine_archive_url(ip, archive), data)
}

/// What a configuration download came back with.
pub struct HttpDownload {
    /// Whether the response status reported success.
    pub success: bool,
    /// Whether the response carried a `Content-Length` header.
    pub has_content_length: bool,
    /// Whether the whole body could be read off the connection.
    pub body_complete: bool,
    /// The response body.
    pub body: Vec<u8>,
}

/// The bytes a download yields: the body exactly as received, but only from
/// a successful response that carried a `Content-Length` header and whose
/// body could be read in full.
pub open spec fn download_outcome(
    success: bool,
    has_content_length: bool,
    body_complete: bool,
    body: Seq<u8>,
) -> Option<Seq<u8>> {
    if success && has_content_length && body_complete {
        Some(body)
    } else {
        None
    }
}

/// Read a configuration download.  A transport failure is a `Network` error
/// with the transport's message; a response without success status, without
/// a `Content-Length` header or with an unreadable body is a `Protocol`
/// error; otherwise the body bytes are returned unchanged.
pub fn read_configuration_download(download: Result<HttpDownload, String>) -> (r: Result<
    Vec<u8>,
    Error,
>)
    ensures
        download matches Ok(d) ==> (match download_outcome(
            d.success,
            d.has_content_length,
            d.body_complete,
            d.body@,
        ) {
            Some(b) => r matches Ok(rb) && rb@ == b,
            None => r matches Err(e) && e is Protocol,
        }),
        download matches Err(m) ==> (r matches Err(e) && e matches Error::Network(mm) && mm@
            == m@),
{
    match download {
        Ok(d) => {
            if d.success && d.has_content_length && d.body_complete {
                Ok(d.body)
            } else {
                Err(Error::Protocol)
            }
        },
        Err(m) => Err(Error::Network(m)),
    }
}

/// The telemetry snapshot a document denotes: every field present with its
/// exact type, or nothing.
pub open spec fn state_of_json(j: JsonView) -> Option<crate::washing_machine::StateView> {
    if u16_member(j, "alarm_code"@) is Some && u16_member(j, "credit"@) is Some && string_member(
        j,
        "name"@,
    ) is Some && bool_member(j, "porthole_open"@) is Some && u16_member(j, "state"@) is Some
        && u16_member(j, "cycle"@) is Some && u16_member(j, "step_code"@) is Some && u16_member(
        j,
        "step_number"@,
    ) is Some && u16_member(j, "cycle_remaining"@) is Some && u16_member(
        j,
        "step_remaining"@,
    ) is Some && u16_member(j, "step_count"@) is Some && u16_member(j, "temperature"@) is Some
        && u16_member(j, "level"@) is Some && u16_member(j, "speed"@) is Some {
        Some(
            crate::washing_machine::StateView {
                alarm_code: u16_member(j, "alarm_code"@)->Some_0,
                credit: u16_member(j, "credit"@)->Some_0,
                name: string_member(j, "name"@)->Some_0,
                porthole_open: bool_member(j, "porthole_open"@)->Some_0,
                state: u16_member(j, "state"@)->Some_0,
                cycle: u16_member(j, "cycle"@)->Some_0,
                step_code: u16_member(j, "step_code"@)->Some_0,
                step_number: u16_member(j, "step_number"@)->Some_0,
                cycle_remaining: u16_member(j, "cycle_remaining"@)->Some_0,
                step_remaining: u16_member(j, "step_remaining"@)->Some_0,
                step_count: u16_member(j, "step_count"@)->Some_0,
                temperature: u16_member(j, "temperature"@)->Some_0,
                level: u16_member(j, "level"@)->Some_0,
                speed: u16_member(j, "speed"@)->Some_0,
            },
        )
    } else {
        None
    }
}

/// Read a telemetry snapshot out of a decoded document, as `state_of_json`
/// describes; a document of any other shape is a `Protocol` error.
pub fn state_from_json(v: &JsonValue) -> (r: Result<State, Error>)
    ensures
        match state_of_json(v@) {
            Some(s) => r matches Ok(rs) && rs@ == s,
            None => r matches Err(e) && e is Protocol,
        },
{
    let r = State {
        alarm_code: get_u16(v, "alarm_code")?,
        credit: get_u16(v, "credit")?,
        name: get_string(v, "name")?,
        porthole_open: get_bool(v, "porthole_open")?,
        state: get_u16(v, "state")?,
        cycle: get_u16(v, "cycle")?,
        step_code: get_u16(v, "step_code")?,
        step_number: get_u16(v, "step_number")?,
        cycle_remaining: get_u16(v, "cycle_remaining")?,
        step_remaining: get_u16(v, "step_remaining")?,
        step_count: get_u16(v, "step_count")?,
        temperature: get_u16(v, "temperature")?,
        level: get_u16(v, "level")?,
        speed: get_u16(v, "speed")?,
    };
    proof {
        assert(r@ =~~= state_of_json(v@)->Some_0);
    }
    Ok(r)
}

/// Parse the body of `GET /state`.  The endpoint must supply every field of
/// the snapshot with its exact type; a missing or ill-typed field, like an
/// unparsable body, is a `Protocol` error.
pub fn parse_state_body(body: &str) -> (r: Result<State, Error>)
    ensures
        json_of(body@) is None ==> (r matches Err(e) && e is Protocol),
        json_of(body@) matches Some(j) ==> (match state_of_json(j) {
            Some(s) => r matches Ok(rs) && rs@ == s,
            None => r matches Err(e) && e is Protocol,
        }),
{
    match json_parse(body) {
        Ok(v) => state_from_json(&v),
        Err(_) => Err(Error::Protocol),
    }
}

/// One catalogue entry a document denotes: a name and a numeric kind.
pub open spec fn program_of_json(j: JsonView) -> Option<ProgramPreviewView> {
    if string_member(j, "name"@) is Some && u16_member(j, "wash_type"@) is Some {
        Some(
            ProgramPreviewView {
                name: string_member(j, "name"@)->Some_0,
                wash_type: u16_member(j, "wash_type"@)->Some_0,
            },
        )
    } else {
        None
    }
}

/// The catalogue entries of a list whose elements are all well-formed.
pub open spec fn program_items(items: Seq<JsonView>) -> Option<Seq<ProgramPreviewView>>
    decreases items.len(),
{
    if items.len() == 0 {
        Some(Seq::empty())
    } else {
        match (program_items(items.drop_last()), program_of_json(items.last())) {
            (Some(rest), Some(p)) => Some(rest.push(p)),
            _ => None,
        }
    }
}

pub proof fn lemma_program_items_none(items: Seq<JsonView>, k: int)
    requires
        0 <= k < items.len(),
        program_of_json(items[k]) is None,
    ensures
        program_items(items) is None,
    decreases items.len(),
{
    if k < items.len() - 1 {
        lemma_program_items_none(items.drop_last(), k);
    }
}

/// The configuration a document denotes: identity strings, the machine
/// list, and the program catalogue, each with its exact type.
pub open spec fn configuration_of_json(j: JsonView) -> Option<
    crate::washing_machine::ConfigurationView,
> {
    if string_member(j, "name"@) is Some && string_member(j, "app_version"@) is Some
        && crate::jsonread::string_list_member(j, "machines"@) is Some && list_member(
        j,
        "programs"@,
    ) is Some && program_items(list_member(j, "programs"@)->Some_0) is Some {
        Some(
            crate::washing_machine::ConfigurationView {
                name: string_member(j, "name"@)->Some_0,
                app_version: string_member(j, "app_version"@)->Some_0,
                machines: crate::jsonread::string_list_member(j, "machines"@)->Some_0,
                programs: program_items(list_member(j, "programs"@)->Some_0)->Some_0,
            },
        )
    } else {
        None
    }
}

/// Read a configuration out of a decoded document, as
/// `configuration_of_json` describes.
pub fn configuration_from_json(v: &JsonValue) -> (r: Result<Configuration, Error>)
    ensures
        match configuration_of_json(v@) {
            Some(c) => r matches Ok(rc) && rc@ == c,
            None => r matches Err(e) && e is Protocol,
        },
{
    let name = get_string(v, "name")?;
    let app_version = get_string(v, "app_version")?;
    let machines = get_string_vec(v, "machines")?;
    let items = get_list(v, "programs")?;
    let ghost shaped = crate::json::views_of(items@);
    let mut programs: Vec<super::ProgramPreview> = Vec::new();
    proof {
        assert(shaped.take(0) =~~= Seq::<JsonView>::empty());
        assert(crate::things5_api::programs_view(programs@) =~~= Seq::<
            ProgramPreviewView,
        >::empty());
    }
    let mut i: usize = 0;
    while i < items.len()
        invariant
            i <= items@.len(),
            shaped == crate::json::views_of(items@),
            shaped.len() == items@.len(),
            list_member(v@, "programs"@) == Some(shaped),
            program_items(shaped.take(i as int)) == Some(
                crate::things5_api::programs_view(programs@),
            ),
        decreases items@.len() - i,
    {
        proof {
            assert(shaped.take(i as int + 1).drop_last() =~~= shaped.take(i as int));
            assert(shaped.take(i as int + 1).last() == shaped[i as int]);
            assert(shaped[i as int] == items@[i as int]@);
        }
        let program_name = match get_string(&items[i], "name") {
            Ok(n) => n,
            Err(_) => {
                proof {
                    lemma_program_items_none(shaped, i as int);
                }
                return Err(Error::Protocol);
            },
        };
        let wash_type = match get_u16(&items[i], "wash_type") {
            Ok(w) => w,
            Err(_) => {
                proof {
                    lemma_program_items_none(shaped, i as int);
                }
                return Err(Error::Protocol);
            },
        };
        programs.push(super::ProgramPreview { name: program_name, wash_type });
        proof {
            assert(crate::things5_api::programs_view(programs@) =~~= program_items(
                shaped.take(i as int + 1),
            )->Some_0);
        }
        i = i + 1;
    }
    proof {
        assert(shaped.take(shaped.len() as int) =~~= shaped);
    }
    let r = Configuration { name, app_version, machines, programs };
    proof {
        assert(r@ =~~= configuration_of_json(v@)->Some_0);
    }
    Ok(r)
}

/// Parse the body of `GET /machine`: the machine's identity and its program
/// catalogue, as `configuration_of_json` describes.
pub fn parse_configuration_body(body: &str) -> (r: Result<Configuration, Error>)
    ensures
        json_of(body@) is None ==> (r matches Err(e) && e is Protocol),
        json_of(body@) matches Some(j) ==> (match configuration_of_json(j) {
            Some(c) => r matches Ok(rc) && rc@ == c,
            None => r matches Err(e) && e is Protocol,
        }),
{
    match json_parse(body) {
        Ok(v) => configuration_from_json(&v),
        Err(_) => Err(Error::Protocol),
    }
}

/// The usage counters a document denotes, wrapped in its `total` member.
pub open spec fn statistics_of_json(j: JsonView) -> Option<
    crate::washing_machine::StatisticsView,
> {
    match member(j, "total"@) {
        Some(t) => if u16_member(t, "cycles"@) is Some && u16_member(
            t,
            "interrupted_cycles"@,
        ) is Some && u16_member(t, "loop_cycles"@) is Some && u32_member(t, "on_time"@) is Some
            && u32_member(t, "work_time"@) is Some && u32_member(t, "rotation_time"@) is Some
            && u32_member(t, "heating_time"@) is Some && u32_member(t, "cold_water_time"@) is Some
            && u32_member(t, "warm_water_time"@) is Some && u32_member(
            t,
            "recovery_water_time"@,
        ) is Some && u32_member(t, "flux_water_time"@) is Some && u32_member(
            t,
            "porthole_closings"@,
        ) is Some && u32_member(t, "porthole_openings"@) is Some
            && crate::jsonread::u32_list_member(t, "soap_times"@) is Some {
            Some(
                crate::washing_machine::StatisticsView {
                    cycles: u16_member(t, "cycles"@)->Some_0,
                    interrupted_cycles: u16_member(t, "interrupted_cycles"@)->Some_0,
                    loop_cycles: u16_member(t, "loop_cycles"@)->Some_0,
                    on_time: u32_member(t, "on_time"@)->Some_0,
                    work_time: u32_member(t, "work_time"@)->Some_0,
                    rotation_time: u32_member(t, "rotation_time"@)->Some_0,
                    heating_time: u32_member(t, "heating_time"@)->Some_0,
                    cold_water_time: u32_member(t, "cold_water_time"@)->Some_0,
                    warm_water_time: u32_member(t, "warm_water_time"@)->Some_0,
                    recovery_water_time: u32_member(t, "recovery_water_time"@)->Some_0,
                    flux_water_time: u32_member(t, "flux_water_time"@)->Some_0,
                    porthole_closings: u32_member(t, "porthole_closings"@)->Some_0,
                    porthole_openings: u32_member(t, "porthole_openings"@)->Some_0,
                    soap_times: crate::jsonread::u32_list_member(t, "soap_times"@)->Some_0,
                },
            )
        } else {
            None
        },
        None => None,
    }
}

/// Read the usage counters out of a decoded document, as
/// `statistics_of_json` describes.
pub fn statistics_from_json(v: &JsonValue) -> (r: Result<Statistics, Error>)
    ensures
        match statistics_of_json(v@) {
            Some(s) => r matches Ok(rs) && rs@ == s,
            None => r matches Err(e) && e is Protocol,
        },
{
    let total = match v.get("total") {
        Some(t) => t,
        None => {
            return Err(Error::Protocol);
        },
    };
    let pair = super::StatisticsPair {
        total: Statistics {
            cycles: get_u16(total, "cycles")?,
            interrupted_cycles: get_u16(total, "interrupted_cycles")?,
            loop_cycles: get_u16(total, "loop_cycles")?,
            on_time: get_u32(total, "on_time")?,
            work_time: get_u32(total, "work_time")?,
            rotation_time: get_u32(total, "rotation_time")?,
            heating_time: get_u32(total, "heating_time")?,
            cold_water_time: get_u32(total, "cold_water_time")?,
            warm_water_time: get_u32(total, "warm_water_time")?,
            recovery_water_time: get_u32(total, "recovery_water_time")?,
            flux_water_time: get_u32(total, "flux_water_time")?,
            porthole_closings: get_u32(total, "porthole_closings")?,
            porthole_openings: get_u32(total, "porthole_openings")?,
            soap_times: get_u32_vec(total, "soap_times")?,
        },
    };
    proof {
        assert(pair.total@ =~~= statistics_of_json(v@)->Some_0);
    }
    Ok(pair.total)
}

/// Parse the body of `GET /statistics`: the usage counters, wrapped in a
/// `total` object, as `statistics_of_json` describes.
pub fn parse_statistics_body(body: &str) -> (r: Result<Statistics, Error>)
    ensures
        json_of(body@) is None ==> (r matches Err(e) && e is Protocol),
        json_of(body@) matches Some(j) ==> (match statistics_of_json(j) {
            Some(s) => r matches Ok(rs) && rs@ == s,
            None => r matches Err(e) && e is Protocol,
        }),
{
    match json_parse(body) {
        Ok(v) => statistics_from_json(&v),
        Err(_) => Err(Error::Protocol),
    }
}

/// Round trip: uploading configuration bytes and then downloading the same
/// archive yields those bytes unchanged, provided the device answers the
/// download successfully with exactly the stored blob — upload and download
/// address the blob through the same percent-encoded URL, and neither
/// direction rewrites the bytes.
pub proof fn lemma_configuration_round_trip(data: Seq<u8>)
    ensures
        download_outcome(true, true, true, upload_body(data)) == Some(data),
{
}

/// What the next refresh has to fetch.
#[derive(Debug, PartialEq, Eq, Structural, Clone, Copy)]
pub enum RefreshPlan {
    /// Re-attempt the whole three-step bootstrap: telemetry, configuration,
    /// statistics.
    Full,
    /// Re-fetch only telemetry and statistics; keep the configuration.
    Partial,
}

/// A direct HTTP session with one machine, addressed by `ip`.
pub struct Connection {
    pub ip: String,
    pub connection_state: ConnectionState,
}

/// The outcome of a three-step bootstrap: `Connected` exactly when all three
/// fetches succeeded, with the machine's address as its display name.
pub open spec fn bootstrap_outcome(
    ip: Seq<char>,
    state: Result<State, Error>,
    configuration: Result<Configuration, Error>,
    stats: Result<Statistics, Error>,
) -> crate::washing_machine::ConnectionStateView {
    if state is Ok && configuration is Ok && stats is Ok {
        crate::washing_machine::ConnectionStateView::Connected {
            active: true,
            name: ip,
            state: state->Ok_0@,
            configuration: configuration->Ok_0@,
            stats: stats->Ok_0@,
        }
    } else {
        crate::washing_machine::ConnectionStateView::Error
    }
}

impl Connection {
    /// First connection: the full bootstrap.  All three fetches succeed and
    /// the session is `Connected`, holding exactly the fetched telemetry,
    /// configuration and statistics; any single failure leaves it in `Error`,
    /// regardless of which fetch failed.
    pub fn new(
        ip: String,
        state: Result<State, Error>,
        configuration: Result<Configuration, Error>,
        stats: Result<Statistics, Error>,
    ) -> (r: Connection)
        ensures
            r.ip@ == ip@,
            r.connection_state@ == bootstrap_outcome(ip@, state, configuration, stats),
    {
        let connection_state = Self::bootstrap(&ip, state, configuration, stats);
        Connection { ip, connection_state }
    }

    fn bootstrap(
        ip: &String,
        state: Result<State, Error>,
        configuration: Result<Configuration, Error>,
        stats: Result<Statistics, Error>,
    ) -> (r: ConnectionState)
        ensures
            r@ == bootstrap_outcome(ip@, state, configuration, stats),
    {
        match (state, configuration, stats) {
            (Ok(state), Ok(configuration), Ok(stats)) => ConnectionState::Connected {
                active: true,
                name: ip.clone(),
                state,
                configuration,
                stats,
            },
            _ => ConnectionState::Error,
        }
    }

    /// From `Error` the next refresh re-attempts the full bootstrap — never a
    /// partial refresh; from `Connected` it performs the cheaper two-call
    /// refresh.
    pub fn refresh_plan(&self) -> (r: RefreshPlan)
        requires
            !(self.connection_state is Disconnected),
        ensures
            r == RefreshPlan::Full <==> self.connection_state is Error,
            r == RefreshPlan::Partial <==> self.connection_state is Connected,
    {
        match self.connection_state {
            ConnectionState::Connected { .. } => RefreshPlan::Partial,
            _ => RefreshPlan::Full,
        }
    }

    /// Apply the results of a full bootstrap, reached from any state.
    pub fn apply_bootstrap(
        &mut self,
        state: Result<State, Error>,
        configuration: Result<Configuration, Error>,
        stats: Result<Statistics, Error>,
    )
        ensures
            final(self).ip@ == old(self).ip@,
            final(self).connection_state@ == bootstrap_outcome(
                old(self).ip@,
                state,
                configuration,
                stats,
            ),
    {
        self.connection_state = Self::bootstrap(&self.ip, state, configuration, stats);
    }

    /// Apply the results of the cheaper two-call refresh: on success the new
    /// telemetry and statistics replace the old ones wholesale while the
    /// previously fetched configuration is preserved; on any failure the
    /// state collapses to `Error`.
    pub fn apply_partial_refresh(
        &mut self,
        state: Result<State, Error>,
        stats: Result<Statistics, Error>,
    )
        requires
            old(self).connection_state is Connected,
        ensures
            final(self).ip@ == old(self).ip@,
            state is Ok && stats is Ok ==> final(self).connection_state@
                == (crate::washing_machine::ConnectionStateView::Connected {
                active: old(self).connection_state@->Connected_active,
                name: old(self).connection_state@->Connected_name,
                state: state->Ok_0@,
                configuration: old(self).connection_state@->Connected_configuration,
                stats: stats->Ok_0@,
            }),
            !(state is Ok && stats is Ok) ==> final(self).connection_state is Error,
    {
        match (state, stats) {
            (Ok(state), Ok(stats)) => {
                let (active, name, _, configuration, _) = self.connection_state.connected_parts();
                self.connection_state = ConnectionState::Connected {
                    active,
                    name,
                    state,
                    configuration,
                    stats,
                };
            },
            _ => {
                self.connection_state = ConnectionState::Error;
            },
        }
    }

    /// Apply the result of an explicit configuration re-fetch: on success only
    /// the configuration is replaced; on failure the state collapses to
    /// `Error`.
    pub fn apply_configuration_refresh(&mut self, configuration: Result<Configuration, Error>)
        requires
            old(self).connection_state is Connected,
        ensures
            final(self).ip@ == old(self).ip@,
            configuration is Ok ==> final(self).connection_state@
                == (crate::washing_machine::ConnectionStateView::Connected {
                active: old(self).connection_state@->Connected_active,
                name: old(self).connection_state@->Connected_name,
                state: old(self).connection_state@->Connected_state,
                configuration: configuration->Ok_0@,
                stats: old(self).connection_state@->Connected_stats,
            }),
            configuration is Err ==> final(self).connection_state is Error,
    {
        match configuration {
            Ok(configuration) => {
                let (active, name, state, _, stats) = self.connection_state.connected_parts();
                self.connection_state = ConnectionState::Connected {
                    active,
                    name,
                    state,
                    configuration,
                    stats,
                };
            },
            Err(_) => {
                self.connection_state = ConnectionState::Error;
            },
        }
    }

    /// Pure read of the last computed state; performs no request.
    pub fn get_connection_state(&self) -> (r: ConnectionState)
        ensures
            r@ == self.connection_state@,
    {
        self.connection_state.duplicate()
    }
}

} // verus!
