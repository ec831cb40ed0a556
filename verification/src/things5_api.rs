//! Stateless client logic for the Things5 cloud device-management service:
//! request builders and response parsers.  The surrounding application only
//! moves the built requests onto the wire and hands the response bodies back.

use vstd::prelude::*;
use vstd::string::StringExecFns;

use crate::encoding::{base64_decode, base64_decoded_of, base64_encode, base64_of, percent_encode,
    percent_encoded_of};
use crate::error::Error;
use crate::json::{bool_member, list_member, member, string_member, JsonValue, JsonView};
use crate::jsonread::{get_bool, get_list, get_string};
use crate::jsonval::{json_of, json_parse};
use crate::numbers::{dec_digits_of, dec_string, parse_u16_or_zero, read_bool_or_false,
    read_u16_or_zero, read_u32_or_zero};
use crate::text::{split_fields, split_on, strings_view};
use crate::washing_machine::{Configuration, ProgramPreview, ProgramPreviewView, State, StateView,
    Statistics, StatisticsView};

verus! {

broadcast use vstd::std_specs::control_flow::group_control_flow_axioms;

/// One entry of the cloud device list: id and display name.  Used only to
/// populate a picker; never persisted.
#[derive(Debug)]
pub struct Device {
    pub id: String,
    pub name: String,
}

pub ghost struct DeviceView {
    pub id: Seq<char>,
    pub name: Seq<char>,
}

impl View for Device {
    type V = DeviceView;

    open spec fn view(&self) -> DeviceView {
        DeviceView { id: self.id@, name: self.name@ }
    }
}

/// A REST call ready to go onto the wire: its URL and its JSON body.
pub struct ApiRequest {
    pub url: String,
    pub body: String,
}

/// `POST {auth}/token`: the OAuth-style password grant endpoint.
pub fn authorize_url() -> (r: String)
    ensures
        r@ == "https://auth.things5.digital/auth/realms/hswsnc/protocol/openid-connect/token"@,
{
    String::from_str("https://auth.things5.digital/auth/realms/hswsnc/protocol/openid-connect/token")
}

/// The form fields of the password grant.
pub fn authorize_form(username: &str, password: &str) -> (r: Vec<(String, String)>)
    ensures
        r@.len() == 5,
        r@[0].0@ == "client_id"@ && r@[0].1@ == "api"@,
        r@[1].0@ == "grant_type"@ && r@[1].1@ == "password"@,
        r@[2].0@ == "scope"@ && r@[2].1@ == "openid"@,
        r@[3].0@ == "username"@ && r@[3].1@ == username@,
        r@[4].0@ == "password"@ && r@[4].1@ == password@,
{
    let mut r: Vec<(String, String)> = Vec::new();
    r.push((String::from_str("client_id"), String::from_str("api")));
    r.push((String::from_str("grant_type"), String::from_str("password")));
    r.push((String::from_str("scope"), String::from_str("openid")));
    r.push((String::from_str("username"), String::from_str(username)));
    r.push((String::from_str("password"), String::from_str(password)));
    r
}

/// `GET {api}/devices`: the device list.
pub fn devices_url() -> (r: String)
    ensures
        r@ == "https://api.things5.digital/v1/devices"@,
{
    String::from_str("https://api.things5.digital/v1/devices")
}

/// `GET {api}/devices/{id}`: one device's details.
pub open spec fn device_url_spec(device_id: Seq<char>) -> Seq<char> {
    "https://api.things5.digital/v1/devices/"@ + device_id
}

pub fn device_url(device_id: &str) -> (r: String)
    ensures
        r@ == device_url_spec(device_id@),
{
    let mut s = String::from_str("https://api.things5.digital/v1/devices/");
    s.append(device_id);
    s
}

/// `POST {api}/devices/{id}/parameters`: the generic parameter read/write
/// envelope every configuration transfer and command verb goes through.
pub open spec fn parameters_url_spec(device_id: Seq<char>) -> Seq<char> {
    "https://api.things5.digital/v1/devices/"@ + device_id + "/parameters"@
}

pub fn parameters_url(device_id: &str) -> (r: String)
    ensures
        r@ == parameters_url_spec(device_id@),
{
    let mut s = String::from_str("https://api.things5.digital/v1/devices/");
    s.append(device_id);
    s.append("/parameters");
    proof {
        assert(s@ =~~= parameters_url_spec(device_id@));
    }
    s
}

/// `GET {api}/devices/{id}/states?from&to`: the time-series query for the
/// last second of samples; the two ISO-8601 UTC bounds travel
/// percent-encoded in the query string.
pub open spec fn states_url_spec(device_id: Seq<char>, from: Seq<char>, to: Seq<char>) -> Seq<
    char,
> {
    "https://api.things5.digital/v1/devices/"@ + device_id + "/states?from="@
        + percent_encoded_of(from) + "&to="@ + percent_encoded_of(to)
}

pub fn states_url(device_id: &str, from: &str, to: &str) -> (r: String)
    ensures
        r@ == states_url_spec(device_id@, from@, to@),
{
    let encoded_from = percent_encode(from);
    let encoded_to = percent_encode(to);
    let mut s = String::from_str("https://api.things5.digital/v1/devices/");
    s.append(device_id);
    s.append("/states?from=");
    s.append(encoded_from.as_str());
    s.append("&to=");
    s.append(encoded_to.as_str());
    proof {
        assert(s@ =~~= states_url_spec(device_id@, from@, to@));
    }
    s
}

/// The JSON envelope writing one named value of the `configuration` asset.
/// No character is escaped: the names are fixed words of the protocol and
/// the values are machine-generated (decimal digits or base64), which JSON
/// carries verbatim.
pub open spec fn parameter_payload_spec(
    name: Seq<char>,
    typ: Seq<char>,
    value: Seq<char>,
) -> Seq<char> {
    "{\"assets\":[{\"name\":\"configuration\",\"values\":[{\"name\":\""@ + name + "\",\"type\":\""@
        + typ + "\",\"value\":\""@ + value + "\"}]}]}"@
}

pub fn parameter_payload(name: &str, typ: &str, value: &str) -> (r: String)
    ensures
        r@ == parameter_payload_spec(name@, typ@, value@),
{
    let mut s = String::from_str("{\"assets\":[{\"name\":\"configuration\",\"values\":[{\"name\":\"");
    s.append(name);
    s.append("\",\"type\":\"");
    s.append(typ);
    s.append("\",\"value\":\"");
    s.append(value);
    s.append("\"}]}]}");
    proof {
        assert(s@ =~~= parameter_payload_spec(name@, typ@, value@));
    }
    s
}

/// Ask the cloud to ingest fresh data from the physical device: the
/// `active` parameter is written with the integer value `1`.
pub fn refresh_data_ingestion_request(device_id: &str) -> (r: ApiRequest)
    ensures
        r.url@ == parameters_url_spec(device_id@),
        r.body@ == parameter_payload_spec("active"@, "integer"@, "1"@),
{
    ApiRequest {
        url: parameters_url(device_id),
        body: parameter_payload("active", "integer", "1"),
    }
}

/// Read the device's current configuration blob: the `machine` parameter is
/// queried with an empty value.
pub fn current_machine_request(device_id: &str) -> (r: ApiRequest)
    ensures
        r.url@ == parameters_url_spec(device_id@),
        r.body@ == parameter_payload_spec("machine"@, "integer"@, ""@),
{
    ApiRequest {
        url: parameters_url(device_id),
        body: parameter_payload("machine", "integer", ""),
    }
}

/// Write the device's current configuration blob: the bytes travel
/// base64-encoded inside the `machine` parameter.
pub fn put_current_machine_request(device_id: &str, machine: &Vec<u8>) -> (r: ApiRequest)
    ensures
        r.url@ == parameters_url_spec(device_id@),
        r.body@ == parameter_payload_spec("machine"@, "integer"@, base64_of(machine@)),
{
    let encoded = base64_encode(machine);
    ApiRequest {
        url: parameters_url(device_id),
        body: parameter_payload("machine", "integer", encoded.as_str()),
    }
}

/// A command verb sent through the generic parameter-write endpoint, with
/// the verb as the parameter name.
pub fn send_command_request(device_id: &str, command: &str, value: &str) -> (r: ApiRequest)
    ensures
        r.url@ == parameters_url_spec(device_id@),
        r.body@ == parameter_payload_spec(command@, "string"@, value@),
{
    ApiRequest { url: parameters_url(device_id), body: parameter_payload(command, "string", value) }
}

/// Start the program with the given id.
pub fn start(device_id: &str, program: u16) -> (r: ApiRequest)
    ensures
        r.url@ == parameters_url_spec(device_id@),
        r.body@ == parameter_payload_spec("start"@, "string"@, dec_digits_of(program as int)),
{
    let value = dec_string(program);
    send_command_request(device_id, "start", value.as_str())
}

/// Resume the machine; the wire verb is `start` with an empty value.
pub fn restart(device_id: &str) -> (r: ApiRequest)
    ensures
        r.url@ == parameters_url_spec(device_id@),
        r.body@ == parameter_payload_spec("start"@, "string"@, ""@),
{
    send_command_request(device_id, "start", "")
}

/// Pause the running program.
pub fn pause(device_id: &str) -> (r: ApiRequest)
    ensures
        r.url@ == parameters_url_spec(device_id@),
        r.body@ == parameter_payload_spec("pause"@, "string"@, ""@),
{
    send_command_request(device_id, "pause", "")
}

/// Stop the running program.
pub fn stop(device_id: &str) -> (r: ApiRequest)
    ensures
        r.url@ == parameters_url_spec(device_id@),
        r.body@ == parameter_payload_spec("stop"@, "string"@, ""@),
{
    send_command_request(device_id, "stop", "")
}

/// Clear the machine's alarms.
pub fn clear_alarms(device_id: &str) -> (r: ApiRequest)
    ensures
        r.url@ == parameters_url_spec(device_id@),
        r.body@ == parameter_payload_spec("clear_alarms"@, "string"@, ""@),
{
    send_command_request(device_id, "clear_alarms", "")
}

/// One named sample of the time-series endpoint.
#[derive(Debug)]
pub struct Sample {
    pub name: String,
    pub value: String,
}

pub ghost struct SampleView {
    pub name: Seq<char>,
    pub value: Seq<char>,
}

impl View for Sample {
    type V = SampleView;

    open spec fn view(&self) -> SampleView {
        SampleView { name: self.name@, value: self.value@ }
    }
}

/// The views of a vector of samples.
pub open spec fn samples_view(v: Seq<Sample>) -> Seq<SampleView> {
    Seq::new(v.len(), |i: int| v[i]@)
}

/// One sample assigned into the telemetry pair by name.  A name that keys a
/// numeric field folds through the tolerant readers — an unparsable value
/// becomes zero, never a failure — and an unknown name changes nothing.
pub open spec fn sample_applied(
    state: StateView,
    stats: StatisticsView,
    s: SampleView,
) -> (StateView, StatisticsView) {
    if s.name == "cycles"@ {
        (state, StatisticsView { cycles: parse_u16_or_zero(s.value), ..stats })
    } else if s.name == "interrupted_cycles"@ {
        (state, StatisticsView { interrupted_cycles: parse_u16_or_zero(s.value), ..stats })
    } else if s.name == "loop_cycles"@ {
        (state, StatisticsView { loop_cycles: parse_u16_or_zero(s.value), ..stats })
    } else if s.name == "on_time"@ {
        (state, StatisticsView { on_time: crate::numbers::parse_u32_or_zero(s.value), ..stats })
    } else if s.name == "work_time"@ {
        (state, StatisticsView { work_time: crate::numbers::parse_u32_or_zero(s.value), ..stats })
    } else if s.name == "rotation_time"@ {
        (
            state,
            StatisticsView { rotation_time: crate::numbers::parse_u32_or_zero(s.value), ..stats },
        )
    } else if s.name == "heating_time"@ {
        (
            state,
            StatisticsView { heating_time: crate::numbers::parse_u32_or_zero(s.value), ..stats },
        )
    } else if s.name == "cold_water_time"@ {
        (
            state,
            StatisticsView {
                cold_water_time: crate::numbers::parse_u32_or_zero(s.value),
                ..stats
            },
        )
    } else if s.name == "warm_water_time"@ {
        (
            state,
            StatisticsView {
                warm_water_time: crate::numbers::parse_u32_or_zero(s.value),
                ..stats
            },
        )
    } else if s.name == "recovery_water_time"@ {
        (
            state,
            StatisticsView {
                recovery_water_time: crate::numbers::parse_u32_or_zero(s.value),
                ..stats
            },
        )
    } else if s.name == "flux_water_time"@ {
        (
            state,
            StatisticsView {
                flux_water_time: crate::numbers::parse_u32_or_zero(s.value),
                ..stats
            },
        )
    } else if s.name == "porthole_closings"@ {
        (
            state,
            StatisticsView {
                porthole_closings: crate::numbers::parse_u32_or_zero(s.value),
                ..stats
            },
        )
    } else if s.name == "porthole_openings"@ {
        (
            state,
            StatisticsView {
                porthole_openings: crate::numbers::parse_u32_or_zero(s.value),
                ..stats
            },
        )
    } else if s.name == "alarm_code"@ {
        (StateView { alarm_code: parse_u16_or_zero(s.value), ..state }, stats)
    } else if s.name == "credit"@ {
        (StateView { credit: parse_u16_or_zero(s.value), ..state }, stats)
    } else if s.name == "name"@ {
        (StateView { name: s.value, ..state }, stats)
    } else if s.name == "porthole_open"@ {
        (StateView { porthole_open: crate::numbers::parse_bool_or_false(s.value), ..state }, stats)
    } else if s.name == "state"@ {
        (StateView { state: parse_u16_or_zero(s.value), ..state }, stats)
    } else if s.name == "cycle"@ {
        (StateView { cycle: parse_u16_or_zero(s.value), ..state }, stats)
    } else if s.name == "step_code"@ {
        (StateView { step_code: parse_u16_or_zero(s.value), ..state }, stats)
    } else if s.name == "step_number"@ {
        (StateView { step_number: parse_u16_or_zero(s.value), ..state }, stats)
    } else if s.name == "cycle_remaining"@ {
        (StateView { cycle_remaining: parse_u16_or_zero(s.value), ..state }, stats)
    } else if s.name == "step_count"@ {
        (StateView { step_count: parse_u16_or_zero(s.value), ..state }, stats)
    } else if s.name == "temperature"@ {
        (StateView { temperature: parse_u16_or_zero(s.value), ..state }, stats)
    } else if s.name == "level"@ {
        (StateView { level: parse_u16_or_zero(s.value), ..state }, stats)
    } else if s.name == "speed"@ {
        (StateView { speed: parse_u16_or_zero(s.value), ..state }, stats)
    } else {
        (state, stats)
    }
}

/// All samples folded in arrival order into a telemetry pair, starting from
/// the all-zero snapshot; a later sample of the same name wins.
pub open spec fn folded_samples(samples: Seq<SampleView>) -> (StateView, StatisticsView)
    decreases samples.len(),
{
    if samples.len() == 0 {
        (StateView::zeroed(), StatisticsView::zeroed())
    } else {
        let prev = folded_samples(samples.drop_last());
        sample_applied(prev.0, prev.1, samples.last())
    }
}

fn name_is(s: &String, lit: &str) -> (r: bool)
    ensures
        r == (s@ == lit@),
{
    let owned = lit.to_owned();
    s.eq(&owned)
}

/// Fold named samples into a `State`/`Statistics` pair by name-keyed
/// assignment, exactly as `folded_samples` describes.
pub fn fold_state_and_statistics(samples: &Vec<Sample>) -> (r: (State, Statistics))
    ensures
        r.0@ == folded_samples(samples_view(samples@)).0,
        r.1@ == folded_samples(samples_view(samples@)).1,
{
    let mut state = State::default();
    let mut stats = Statistics::default();
    proof {
        assert(samples_view(samples@).take(0) =~~= Seq::<SampleView>::empty());
    }
    let mut i: usize = 0;
    while i < samples.len()
        invariant
            i <= samples@.len(),
            state@ == folded_samples(samples_view(samples@).take(i as int)).0,
            stats@ == folded_samples(samples_view(samples@).take(i as int)).1,
        decreases samples@.len() - i,
    {
        let s = &samples[i];
        if name_is(&s.name, "cycles") {
            stats.cycles = read_u16_or_zero(s.value.as_str());
        } else if name_is(&s.name, "interrupted_cycles") {
            stats.interrupted_cycles = read_u16_or_zero(s.value.as_str());
        } else if name_is(&s.name, "loop_cycles") {
            stats.loop_cycles = read_u16_or_zero(s.value.as_str());
        } else if name_is(&s.name, "on_time") {
            stats.on_time = read_u32_or_zero(s.value.as_str());
        } else if name_is(&s.name, "work_time") {
            stats.work_time = read_u32_or_zero(s.value.as_str());
        } else if name_is(&s.name, "rotation_time") {
            stats.rotation_time = read_u32_or_zero(s.value.as_str());
        } else if name_is(&s.name, "heating_time") {
            stats.heating_time = read_u32_or_zero(s.value.as_str());
        } else if name_is(&s.name, "cold_water_time") {
            stats.cold_water_time = read_u32_or_zero(s.value.as_str());
        } else if name_is(&s.name, "warm_water_time") {
            stats.warm_water_time = read_u32_or_zero(s.value.as_str());
        } else if name_is(&s.name, "recovery_water_time") {
            stats.recovery_water_time = read_u32_or_zero(s.value.as_str());
        } else if name_is(&s.name, "flux_water_time") {
            stats.flux_water_time = read_u32_or_zero(s.value.as_str());
        } else if name_is(&s.name, "porthole_closings") {
            stats.porthole_closings = read_u32_or_zero(s.value.as_str());
        } else if name_is(&s.name, "porthole_openings") {
            stats.porthole_openings = read_u32_or_zero(s.value.as_str());
        } else if name_is(&s.name, "alarm_code") {
            state.alarm_code = read_u16_or_zero(s.value.as_str());
        } else if name_is(&s.name, "credit") {
            state.credit = read_u16_or_zero(s.value.as_str());
        } else if name_is(&s.name, "name") {
            state.name = s.value.clone();
        } else if name_is(&s.name, "porthole_open") {
            state.porthole_open = read_bool_or_false(s.value.as_str());
        } else if name_is(&s.name, "state") {
            state.state = read_u16_or_zero(s.value.as_str());
        } else if name_is(&s.name, "cycle") {
            state.cycle = read_u16_or_zero(s.value.as_str());
        } else if name_is(&s.name, "step_code") {
            state.step_code = read_u16_or_zero(s.value.as_str());
        } else if name_is(&s.name, "step_number") {
            state.step_number = read_u16_or_zero(s.value.as_str());
        } else if name_is(&s.name, "cycle_remaining") {
            state.cycle_remaining = read_u16_or_zero(s.value.as_str());
        } else if name_is(&s.name, "step_count") {
            state.step_count = read_u16_or_zero(s.value.as_str());
        } else if name_is(&s.name, "temperature") {
            state.temperature = read_u16_or_zero(s.value.as_str());
        } else if name_is(&s.name, "level") {
            state.level = read_u16_or_zero(s.value.as_str());
        } else if name_is(&s.name, "speed") {
            state.speed = read_u16_or_zero(s.value.as_str());
        }
        proof {
            assert(samples_view(samples@).take(i as int + 1).drop_last() =~~= samples_view(
                samples@,
            ).take(i as int));
            assert(samples_view(samples@).take(i as int + 1).last() == samples@[i as int]@);
            assert(state@ =~~= folded_samples(samples_view(samples@).take(i as int + 1)).0);
            assert(stats@ =~~= folded_samples(samples_view(samples@).take(i as int + 1)).1);
        }
        i = i + 1;
    }
    proof {
        assert(samples_view(samples@).take(samples@.len() as int) =~~= samples_view(samples@));
    }
    (state, stats)
}

/// One named sample a document denotes: id, time range, name and value as
/// strings, with metadata absent, null or a string.
pub open spec fn sample_of_json(j: JsonView) -> Option<SampleView> {
    if string_member(j, "id"@) is Some && string_member(j, "start_time"@) is Some && string_member(
        j,
        "end_time"@,
    ) is Some && (match member(j, "metadata"@) {
        None => true,
        Some(m) => m is Null || m is Text,
    }) && string_member(j, "name"@) is Some && string_member(j, "value"@) is Some {
        Some(
            SampleView {
                name: string_member(j, "name"@)->Some_0,
                value: string_member(j, "value"@)->Some_0,
            },
        )
    } else {
        None
    }
}

/// The samples of a list whose elements are all well-formed.
pub open spec fn sample_items(items: Seq<JsonView>) -> Option<Seq<SampleView>>
    decreases items.len(),
{
    if items.len() == 0 {
        Some(Seq::empty())
    } else {
        match (sample_items(items.drop_last()), sample_of_json(items.last())) {
            (Some(rest), Some(s)) => Some(rest.push(s)),
            _ => None,
        }
    }
}

pub proof fn lemma_sample_items_none(items: Seq<JsonView>, k: int)
    requires
        0 <= k < items.len(),
        sample_of_json(items[k]) is None,
    ensures
        sample_items(items) is None,
    decreases items.len(),
{
    if k < items.len() - 1 {
        lemma_sample_items_none(items.drop_last(), k);
    }
}

/// The sample list a time-series response denotes: its `data` member, every
/// entry well-formed.
pub open spec fn states_of_json(j: JsonView) -> Option<Seq<SampleView>> {
    match list_member(j, "data"@) {
        Some(items) => sample_items(items),
        None => None,
    }
}

fn sample_from_json(v: &JsonValue) -> (r: Result<Sample, Error>)
    ensures
        match sample_of_json(v@) {
            Some(s) => r matches Ok(rs) && rs@ == s,
            None => r matches Err(e) && e is Protocol,
        },
{
    let _id = get_string(v, "id")?;
    let _start = get_string(v, "start_time")?;
    let _end = get_string(v, "end_time")?;
    match v.get("metadata") {
        Some(m) => {
            if !m.is_null() && m.as_text().is_none() {
                return Err(Error::Protocol);
            }
        },
        None => {},
    }
    let name = get_string(v, "name")?;
    let value = get_string(v, "value")?;
    Ok(Sample { name, value })
}

/// Parse the body of the time-series query into its named samples, as
/// `states_of_json` describes.  Every sample must carry its id, time range,
/// name and value as strings, with an optional metadata string; anything
/// else, like an unparsable body or a missing `data` list, is a `Protocol`
/// error.
pub fn parse_states_response(body: &str) -> (r: Result<Vec<Sample>, Error>)
    ensures
        json_of(body@) is None ==> (r matches Err(e) && e is Protocol),
        json_of(body@) matches Some(j) ==> (match states_of_json(j) {
            Some(expected) => r matches Ok(rs) && samples_view(rs@) == expected,
            None => r matches Err(e) && e is Protocol,
        }),
{
    let root = match json_parse(body) {
        Ok(v) => v,
        Err(_) => {
            return Err(Error::Protocol);
        },
    };
    let items = get_list(&root, "data")?;
    let ghost shaped = crate::json::views_of(items@);
    let mut samples: Vec<Sample> = Vec::new();
    proof {
        assert(shaped.take(0) =~~= Seq::<JsonView>::empty());
        assert(samples_view(samples@) =~~= Seq::<SampleView>::empty());
    }
    let mut i: usize = 0;
    while i < items.len()
        invariant
            i <= items@.len(),
            shaped == crate::json::views_of(items@),
            shaped.len() == items@.len(),
            json_of(body@) == Some(root@),
            list_member(root@, "data"@) == Some(shaped),
            sample_items(shaped.take(i as int)) == Some(samples_view(samples@)),
        decreases items@.len() - i,
    {
        proof {
            assert(shaped.take(i as int + 1).drop_last() =~~= shaped.take(i as int));
            assert(shaped.take(i as int + 1).last() == shaped[i as int]);
            assert(shaped[i as int] == items@[i as int]@);
        }
        match sample_from_json(&items[i]) {
            Ok(sample) => samples.push(sample),
            Err(_) => {
                proof {
                    lemma_sample_items_none(shaped, i as int);
                }
                return Err(Error::Protocol);
            },
        }
        proof {
            assert(samples_view(samples@) =~~= sample_items(shaped.take(i as int + 1))->Some_0);
        }
        i = i + 1;
    }
    proof {
        assert(shaped.take(shaped.len() as int) =~~= shaped);
    }
    Ok(samples)
}

/// Decide a login response.  A response without success status is a logical
/// rejection — bad credentials — and so is a well-formed body that misses
/// the `access_token` string; an unparsable body is a `Protocol` error; a
/// granted token is returned exactly as the body carries it.
pub fn parse_authorize_response(success: bool, body: &str) -> (r: Result<String, Error>)
    ensures
        !success ==> (r matches Err(e) && e is Value),
        success && json_of(body@) is None ==> (r matches Err(e) && e is Protocol),
        success ==> (json_of(body@) matches Some(j) ==> (match string_member(j, "access_token"@) {
            Some(t) => r matches Ok(rt) && rt@ == t,
            None => r matches Err(e) && e is Value,
        })),
{
    if !success {
        return Err(Error::Value);
    }
    let root = match json_parse(body) {
        Ok(v) => v,
        Err(_) => {
            return Err(Error::Protocol);
        },
    };
    match get_string(&root, "access_token") {
        Ok(token) => Ok(token),
        Err(_) => Err(Error::Value),
    }
}

/// One device-list entry a document denotes: id and name as strings.
pub open spec fn device_of_json(j: JsonView) -> Option<DeviceView> {
    if string_member(j, "id"@) is Some && string_member(j, "name"@) is Some {
        Some(
            DeviceView {
                id: string_member(j, "id"@)->Some_0,
                name: string_member(j, "name"@)->Some_0,
            },
        )
    } else {
        None
    }
}

/// The devices of a list whose entries are all well-formed.
pub open spec fn device_items(items: Seq<JsonView>) -> Option<Seq<DeviceView>>
    decreases items.len(),
{
    if items.len() == 0 {
        Some(Seq::empty())
    } else {
        match (device_items(items.drop_last()), device_of_json(items.last())) {
            (Some(rest), Some(d)) => Some(rest.push(d)),
            _ => None,
        }
    }
}

pub proof fn lemma_device_items_none(items: Seq<JsonView>, k: int)
    requires
        0 <= k < items.len(),
        device_of_json(items[k]) is None,
    ensures
        device_items(items) is None,
    decreases items.len(),
{
    if k < items.len() - 1 {
        lemma_device_items_none(items.drop_last(), k);
    }
}

/// The device list a response denotes: its `data` member, in order, every
/// entry keeping its id and name.
pub open spec fn devices_of_json(j: JsonView) -> Option<Seq<DeviceView>> {
    match list_member(j, "data"@) {
        Some(items) => device_items(items),
        None => None,
    }
}

/// The views of a vector of devices.
pub open spec fn devices_view(v: Seq<Device>) -> Seq<DeviceView> {
    Seq::new(v.len(), |i: int| v[i]@)
}

/// Parse the device list, as `devices_of_json` describes: the entries under
/// `data`, in response order, each keeping its id and name.
pub fn parse_devices_response(body: &str) -> (r: Result<Vec<Device>, Error>)
    ensures
        json_of(body@) is None ==> (r matches Err(e) && e is Protocol),
        json_of(body@) matches Some(j) ==> (match devices_of_json(j) {
            Some(expected) => r matches Ok(rd) && devices_view(rd@) == expected,
            None => r matches Err(e) && e is Protocol,
        }),
{
    let root = match json_parse(body) {
        Ok(v) => v,
        Err(_) => {
            return Err(Error::Protocol);
        },
    };
    let items = get_list(&root, "data")?;
    let ghost shaped = crate::json::views_of(items@);
    let mut devices: Vec<Device> = Vec::new();
    proof {
        assert(shaped.take(0) =~~= Seq::<JsonView>::empty());
        assert(devices_view(devices@) =~~= Seq::<DeviceView>::empty());
    }
    let mut i: usize = 0;
    while i < items.len()
        invariant
            i <= items@.len(),
            shaped == crate::json::views_of(items@),
            shaped.len() == items@.len(),
            json_of(body@) == Some(root@),
            list_member(root@, "data"@) == Some(shaped),
            device_items(shaped.take(i as int)) == Some(devices_view(devices@)),
        decreases items@.len() - i,
    {
        proof {
            assert(shaped.take(i as int + 1).drop_last() =~~= shaped.take(i as int));
            assert(shaped.take(i as int + 1).last() == shaped[i as int]);
            assert(shaped[i as int] == items@[i as int]@);
        }
        let id = match get_string(&items[i], "id") {
            Ok(s) => s,
            Err(_) => {
                proof {
                    lemma_device_items_none(shaped, i as int);
                }
                return Err(Error::Protocol);
            },
        };
        let name = match get_string(&items[i], "name") {
            Ok(s) => s,
            Err(_) => {
                proof {
                    lemma_device_items_none(shaped, i as int);
                }
                return Err(Error::Protocol);
            },
        };
        devices.push(Device { id, name });
        proof {
            assert(devices_view(devices@) =~~= device_items(shaped.take(i as int + 1))->Some_0);
        }
        i = i + 1;
    }
    proof {
        assert(shaped.take(shaped.len() as int) =~~= shaped);
    }
    Ok(devices)
}

/// The details a response denotes: `data.name` as a string and
/// `data.is_connected` as a boolean.
pub open spec fn details_of_json(j: JsonView) -> Option<(Seq<char>, bool)> {
    match member(j, "data"@) {
        Some(data) => if string_member(data, "name"@) is Some && bool_member(
            data,
            "is_connected"@,
        ) is Some {
            Some((string_member(data, "name"@)->Some_0, bool_member(data, "is_connected"@)->Some_0))
        } else {
            None
        },
        None => None,
    }
}

/// Parse one device's details, as `details_of_json` describes: its display
/// name and whether it is connected, both under the `data` member; a
/// missing or mistyped field is a `Protocol` error.
pub fn parse_device_details_response(body: &str) -> (r: Result<(String, bool), Error>)
    ensures
        json_of(body@) is None ==> (r matches Err(e) && e is Protocol),
        json_of(body@) matches Some(j) ==> (match details_of_json(j) {
            Some(expected) => r matches Ok(d) && d.0@ == expected.0 && d.1 == expected.1,
            None => r matches Err(e) && e is Protocol,
        }),
{
    let root = match json_parse(body) {
        Ok(v) => v,
        Err(_) => {
            return Err(Error::Protocol);
        },
    };
    let data = match root.get("data") {
        Some(d) => d,
        None => {
            return Err(Error::Protocol);
        },
    };
    let name = get_string(data, "name")?;
    let connected = get_bool(data, "is_connected")?;
    Ok((name, connected))
}

/// One variable echoed by a parameter write.
#[derive(Debug)]
pub struct VariableEcho {
    pub name: String,
    pub value: String,
}

pub ghost struct VariableEchoView {
    pub name: Seq<char>,
    pub value: Seq<char>,
}

impl View for VariableEcho {
    type V = VariableEchoView;

    open spec fn view(&self) -> VariableEchoView {
        VariableEchoView { name: self.name@, value: self.value@ }
    }
}

/// One asset echoed by a parameter write.
#[derive(Debug)]
pub struct AssetEcho {
    pub name: String,
    pub variables: Vec<VariableEcho>,
}

pub ghost struct AssetEchoView {
    pub name: Seq<char>,
    pub variables: Seq<VariableEchoView>,
}

impl View for AssetEcho {
    type V = AssetEchoView;

    open spec fn view(&self) -> AssetEchoView {
        AssetEchoView {
            name: self.name@,
            variables: Seq::new(self.variables@.len(), |i: int| self.variables@[i]@),
        }
    }
}

/// One echoed variable a document denotes: name, value and type as strings;
/// the type is checked and dropped.
pub open spec fn variable_of_json(j: JsonView) -> Option<VariableEchoView> {
    if string_member(j, "name"@) is Some && string_member(j, "value"@) is Some && string_member(
        j,
        "type"@,
    ) is Some {
        Some(
            VariableEchoView {
                name: string_member(j, "name"@)->Some_0,
                value: string_member(j, "value"@)->Some_0,
            },
        )
    } else {
        None
    }
}

/// The echoed variables of a list whose entries are all well-formed.
pub open spec fn variable_items(items: Seq<JsonView>) -> Option<Seq<VariableEchoView>>
    decreases items.len(),
{
    if items.len() == 0 {
        Some(Seq::empty())
    } else {
        match (variable_items(items.drop_last()), variable_of_json(items.last())) {
            (Some(rest), Some(v)) => Some(rest.push(v)),
            _ => None,
        }
    }
}

pub proof fn lemma_variable_items_none(items: Seq<JsonView>, k: int)
    requires
        0 <= k < items.len(),
        variable_of_json(items[k]) is None,
    ensures
        variable_items(items) is None,
    decreases items.len(),
{
    if k < items.len() - 1 {
        lemma_variable_items_none(items.drop_last(), k);
    }
}

/// One echoed asset a document denotes: its name and its variable list.
pub open spec fn asset_of_json(j: JsonView) -> Option<AssetEchoView> {
    if string_member(j, "name"@) is Some && list_member(j, "variables"@) is Some && variable_items(
        list_member(j, "variables"@)->Some_0,
    ) is Some {
        Some(
            AssetEchoView {
                name: string_member(j, "name"@)->Some_0,
                variables: variable_items(list_member(j, "variables"@)->Some_0)->Some_0,
            },
        )
    } else {
        None
    }
}

/// The echoed assets of a list whose entries are all well-formed.
pub open spec fn asset_items(items: Seq<JsonView>) -> Option<Seq<AssetEchoView>>
    decreases items.len(),
{
    if items.len() == 0 {
        Some(Seq::empty())
    } else {
        match (asset_items(items.drop_last()), asset_of_json(items.last())) {
            (Some(rest), Some(a)) => Some(rest.push(a)),
            _ => None,
        }
    }
}

pub proof fn lemma_asset_items_none(items: Seq<JsonView>, k: int)
    requires
        0 <= k < items.len(),
        asset_of_json(items[k]) is None,
    ensures
        asset_items(items) is None,
    decreases items.len(),
{
    if k < items.len() - 1 {
        lemma_asset_items_none(items.drop_last(), k);
    }
}

/// The `errors` list a document denotes: empty when absent, else a list of
/// strings.
pub open spec fn errors_of_json(j: JsonView) -> Option<Seq<Seq<char>>> {
    match member(j, "errors"@) {
        None => Some(Seq::empty()),
        Some(JsonView::List(items)) => crate::jsonread::text_items(items),
        Some(_) => None,
    }
}

/// The whole structured response of the parameter-write endpoint: the
/// echoed assets under `assets` and the `errors` list.
pub open spec fn write_echo_of_json(j: JsonView) -> Option<(Seq<AssetEchoView>, Seq<Seq<char>>)> {
    match list_member(j, "assets"@) {
        None => None,
        Some(items) => match (asset_items(items), errors_of_json(j)) {
            (Some(assets), Some(errors)) => Some((assets, errors)),
            _ => None,
        },
    }
}

/// The views of a vector of echoed variables.
pub open spec fn variables_view(v: Seq<VariableEcho>) -> Seq<VariableEchoView> {
    Seq::new(v.len(), |i: int| v[i]@)
}

fn variable_from_json(v: &JsonValue) -> (r: Result<VariableEcho, Error>)
    ensures
        match variable_of_json(v@) {
            Some(echo) => r matches Ok(re) && re@ == echo,
            None => r matches Err(e) && e is Protocol,
        },
{
    let name = get_string(v, "name")?;
    let value = get_string(v, "value")?;
    let _typ = get_string(v, "type")?;
    Ok(VariableEcho { name, value })
}

fn asset_from_json(v: &JsonValue) -> (r: Result<AssetEcho, Error>)
    ensures
        match asset_of_json(v@) {
            Some(echo) => r matches Ok(re) && re@ == echo,
            None => r matches Err(e) && e is Protocol,
        },
{
    let name = get_string(v, "name")?;
    let items = get_list(v, "variables")?;
    let ghost shaped = crate::json::views_of(items@);
    let mut variables: Vec<VariableEcho> = Vec::new();
    proof {
        assert(shaped.take(0) =~~= Seq::<JsonView>::empty());
        assert(variables_view(variables@) =~~= Seq::<VariableEchoView>::empty());
    }
    let mut j: usize = 0;
    while j < items.len()
        invariant
            j <= items@.len(),
            shaped == crate::json::views_of(items@),
            shaped.len() == items@.len(),
            list_member(v@, "variables"@) == Some(shaped),
            variable_items(shaped.take(j as int)) == Some(variables_view(variables@)),
        decreases items@.len() - j,
    {
        proof {
            assert(shaped.take(j as int + 1).drop_last() =~~= shaped.take(j as int));
            assert(shaped.take(j as int + 1).last() == shaped[j as int]);
            assert(shaped[j as int] == items@[j as int]@);
        }
        match variable_from_json(&items[j]) {
            Ok(variable) => variables.push(variable),
            Err(_) => {
                proof {
                    lemma_variable_items_none(shaped, j as int);
                }
                return Err(Error::Protocol);
            },
        }
        proof {
            assert(variables_view(variables@) =~~= variable_items(
                shaped.take(j as int + 1),
            )->Some_0);
        }
        j = j + 1;
    }
    proof {
        assert(shaped.take(shaped.len() as int) =~~= shaped);
    }
    let r = AssetEcho { name, variables };
    proof {
        assert(r@ =~~= asset_of_json(v@)->Some_0);
    }
    Ok(r)
}

/// Decode the structured response of the parameter-write endpoint, as
/// `write_echo_of_json` describes: the per-asset variable echoes and the
/// `errors` list, which is empty when absent.  A body that does not decode
/// to that structure is a `Json` error carrying a decoder message.
pub fn decode_write_response(body: &str) -> (r: Result<(Vec<AssetEcho>, Vec<String>), Error>)
    ensures
        json_of(body@) is None ==> (r matches Err(e) && e is Json),
        json_of(body@) matches Some(j) ==> (match write_echo_of_json(j) {
            Some(echo) => r matches Ok(p) && assets_view(p.0@) == echo.0 && strings_view(p.1@)
                == echo.1,
            None => r matches Err(e) && e is Json,
        }),
{
    let root = match json_parse(body) {
        Ok(v) => v,
        Err(m) => {
            return Err(Error::Json(m));
        },
    };
    let asset_items_vec = match get_list(&root, "assets") {
        Ok(items) => items,
        Err(_) => {
            return Err(Error::Json(String::from_str("missing assets list")));
        },
    };
    let ghost shaped = crate::json::views_of(asset_items_vec@);
    let mut assets: Vec<AssetEcho> = Vec::new();
    proof {
        assert(shaped.take(0) =~~= Seq::<JsonView>::empty());
        assert(assets_view(assets@) =~~= Seq::<AssetEchoView>::empty());
    }
    let mut i: usize = 0;
    while i < asset_items_vec.len()
        invariant
            i <= asset_items_vec@.len(),
            shaped == crate::json::views_of(asset_items_vec@),
            shaped.len() == asset_items_vec@.len(),
            json_of(body@) == Some(root@),
            list_member(root@, "assets"@) == Some(shaped),
            asset_items(shaped.take(i as int)) == Some(assets_view(assets@)),
        decreases asset_items_vec@.len() - i,
    {
        proof {
            assert(shaped.take(i as int + 1).drop_last() =~~= shaped.take(i as int));
            assert(shaped.take(i as int + 1).last() == shaped[i as int]);
            assert(shaped[i as int] == asset_items_vec@[i as int]@);
        }
        match asset_from_json(&asset_items_vec[i]) {
            Ok(asset) => assets.push(asset),
            Err(_) => {
                proof {
                    lemma_asset_items_none(shaped, i as int);
                }
                return Err(Error::Json(String::from_str("malformed asset echo")));
            },
        }
        proof {
            assert(assets_view(assets@) =~~= asset_items(shaped.take(i as int + 1))->Some_0);
        }
        i = i + 1;
    }
    proof {
        assert(shaped.take(shaped.len() as int) =~~= shaped);
    }
    let errors = match root.get("errors") {
        Some(e) => match e.as_list() {
            Some(items) => match crate::jsonread::read_text_items(items) {
                Some(list) => list,
                None => {
                    return Err(Error::Json(String::from_str("malformed errors list")));
                },
            },
            None => {
                return Err(Error::Json(String::from_str("errors is not a list")));
            },
        },
        None => Vec::new(),
    };
    proof {
        assert(strings_view(errors@) =~~= errors_of_json(json_of(body@)->Some_0)->Some_0);
    }
    Ok((assets, errors))
}

/// A non-empty `errors` list converts to a `Server` error carrying the
/// first message; an empty one means the write was accepted.
pub fn write_outcome(errors: &Vec<String>) -> (r: Result<(), Error>)
    ensures
        errors@.len() == 0 ==> r is Ok,
        errors@.len() > 0 ==> (r matches Err(e) && e matches Error::Server(m) && m@
            == errors@[0]@),
{
    if errors.len() > 0 {
        Err(Error::Server(errors[0].clone()))
    } else {
        Ok(())
    }
}

/// Decide a parameter write: decode the echo structure, then judge the
/// `errors` list as `write_outcome` describes — a non-empty list is a
/// `Server` error carrying its first message.
pub fn parse_write_response(body: &str) -> (r: Result<(), Error>)
    ensures
        json_of(body@) is None ==> (r matches Err(e) && e is Json),
        json_of(body@) matches Some(j) ==> (match write_echo_of_json(j) {
            Some(echo) => {
                &&& echo.1.len() == 0 ==> r is Ok
                &&& echo.1.len() > 0 ==> (r matches Err(e) && e matches Error::Server(m) && m@
                    == echo.1[0])
            },
            None => r matches Err(e) && e is Json,
        }),
{
    let (_assets, errors) = decode_write_response(body)?;
    write_outcome(&errors)
}

/// The value of the first `machine` variable inside an asset, provided the
/// asset is the `configuration` one.
pub open spec fn machine_value_in(asset: AssetEchoView) -> Option<Seq<char>> {
    if asset.name == "configuration"@ {
        first_variable_named(asset.variables, "machine"@)
    } else {
        None
    }
}

/// The value of the first variable with the given name.
pub open spec fn first_variable_named(
    variables: Seq<VariableEchoView>,
    name: Seq<char>,
) -> Option<Seq<char>>
    decreases variables.len(),
{
    if variables.len() == 0 {
        None
    } else if variables[0].name == name {
        Some(variables[0].value)
    } else {
        first_variable_named(variables.skip(1), name)
    }
}

/// The base64 text of the configuration blob inside a write echo: the first
/// `machine` variable of the first matching `configuration` asset.
pub open spec fn machine_value_of(assets: Seq<AssetEchoView>) -> Option<Seq<char>>
    decreases assets.len(),
{
    if assets.len() == 0 {
        None
    } else {
        match machine_value_in(assets[0]) {
            Some(v) => Some(v),
            None => machine_value_of(assets.skip(1)),
        }
    }
}

/// The views of a vector of asset echoes.
pub open spec fn assets_view(v: Seq<AssetEcho>) -> Seq<AssetEchoView> {
    Seq::new(v.len(), |i: int| v[i]@)
}

/// Find the configuration blob inside a write echo, as `machine_value_of`
/// describes.
pub fn find_machine_value(assets: &Vec<AssetEcho>) -> (r: Option<String>)
    ensures
        r matches Some(v) ==> machine_value_of(assets_view(assets@)) == Some(v@),
        r is None ==> machine_value_of(assets_view(assets@)) is None,
{
    let ghost full = assets_view(assets@);
    proof {
        assert(full.skip(0) =~~= full);
    }
    let mut i: usize = 0;
    while i < assets.len()
        invariant
            i <= assets@.len(),
            full == assets_view(assets@),
            machine_value_of(full) == machine_value_of(full.skip(i as int)),
        decreases assets@.len() - i,
    {
        let asset = &assets[i];
        proof {
            assert(full.skip(i as int)[0] == assets@[i as int]@);
            assert(full.skip(i as int).skip(1) =~~= full.skip(i as int + 1));
        }
        if name_is(&asset.name, "configuration") {
            let ghost variables = assets@[i as int]@.variables;
            proof {
                assert(variables.skip(0) =~~= variables);
            }
            let mut j: usize = 0;
            while j < asset.variables.len()
                invariant
                    j <= asset.variables@.len(),
                    i < assets@.len(),
                    full == assets_view(assets@),
                    machine_value_of(full) == machine_value_of(full.skip(i as int)),
                    full.skip(i as int)[0] == assets@[i as int]@,
                    asset@ == assets@[i as int]@,
                    asset@.name == "configuration"@,
                    variables == asset@.variables,
                    first_variable_named(variables, "machine"@) == first_variable_named(
                        variables.skip(j as int),
                        "machine"@,
                    ),
                decreases asset.variables@.len() - j,
            {
                proof {
                    assert(variables.skip(j as int)[0] == asset.variables@[j as int]@);
                    assert(variables.skip(j as int).skip(1) =~~= variables.skip(j as int + 1));
                }
                if name_is(&asset.variables[j].name, "machine") {
                    proof {
                        assert(first_variable_named(variables, "machine"@) == Some(
                            asset.variables@[j as int]@.value,
                        ));
                        assert(machine_value_in(full.skip(i as int)[0]) == Some(
                            asset.variables@[j as int]@.value,
                        ));
                        assert(machine_value_of(full.skip(i as int)) == Some(
                            asset.variables@[j as int]@.value,
                        ));
                    }
                    return Some(asset.variables[j].value.clone());
                }
                j = j + 1;
            }
            proof {
                assert(variables.skip(variables.len() as int) =~~= Seq::<
                    VariableEchoView,
                >::empty());
            }
        }
        i = i + 1;
    }
    proof {
        assert(full.skip(full.len() as int) =~~= Seq::<AssetEchoView>::empty());
    }
    None
}

/// Read back the device's current configuration blob: the `machine`
/// variable of the `configuration` asset, decoded from base64.  A missing
/// variable, like a value that is not well-formed base64, is a `Protocol`
/// error; a body that does not decode to the echo structure is a `Json`
/// error.
pub fn parse_current_machine_response(body: &str) -> (r: Result<Vec<u8>, Error>)
    ensures
        json_of(body@) is None ==> (r matches Err(e) && e is Json),
        json_of(body@) matches Some(j) ==> (match write_echo_of_json(j) {
            Some(echo) => (match machine_value_of(echo.0) {
                Some(value) => (match base64_decoded_of(value) {
                    Some(bytes) => r matches Ok(rb) && rb@ == bytes,
                    None => r matches Err(e) && e is Protocol,
                }),
                None => r matches Err(e) && e is Protocol,
            }),
            None => r matches Err(e) && e is Json,
        }),
{
    let (assets, _errors) = decode_write_response(body)?;
    match find_machine_value(&assets) {
        Some(value) => match base64_decode(value.as_str()) {
            Some(bytes) => Ok(bytes),
            None => Err(Error::Protocol),
        },
        None => Err(Error::Protocol),
    }
}

/// The program catalogue carried in one comma-separated string: fields
/// alternate between a program's name and its numeric kind, and an
/// unparsable kind folds to zero.  A trailing unpaired field is dropped.
pub open spec fn programs_of(s: Seq<char>) -> Seq<ProgramPreviewView> {
    let parts = split_on(s, ',');
    Seq::new(
        parts.len() / 2,
        |i: int|
            ProgramPreviewView { name: parts[2 * i], wash_type: parse_u16_or_zero(parts[2 * i + 1]) },
    )
}

/// The views of a vector of program previews.
pub open spec fn programs_view(v: Seq<ProgramPreview>) -> Seq<ProgramPreviewView> {
    Seq::new(v.len(), |i: int| v[i]@)
}

/// Parse the comma-separated program catalogue, as `programs_of` describes.
pub fn parse_programs(s: &str) -> (r: Vec<ProgramPreview>)
    ensures
        programs_view(r@) == programs_of(s@),
{
    let fields = split_fields(s, ',');
    let total = fields.len() / 2;
    let mut programs: Vec<ProgramPreview> = Vec::new();
    let mut i: usize = 0;
    while i < total
        invariant
            total == split_on(s@, ',').len() / 2,
            strings_view(fields@) == split_on(s@, ','),
            fields@.len() == split_on(s@, ',').len(),
            fields@.len() <= usize::MAX,
            i <= total,
            programs@.len() == i,
            forall|j: int| 0 <= j < i ==> programs@[j]@ == programs_of(s@)[j],
        decreases total - i,
    {
        proof {
            assert(2 * i + 1 < fields@.len());
        }
        let name = fields[2 * i].clone();
        let wash_type = read_u16_or_zero(fields[2 * i + 1].as_str());
        programs.push(ProgramPreview { name, wash_type });
        i = i + 1;
    }
    proof {
        assert(programs_view(programs@) =~~= programs_of(s@));
    }
    programs
}

/// The first asset named `configuration`.  The scan stops at the first
/// match; an earlier asset without a string name stops the whole lookup.
pub open spec fn first_configuration(items: Seq<JsonView>) -> Option<JsonView>
    decreases items.len(),
{
    if items.len() == 0 {
        None
    } else {
        match string_member(items[0], "name"@) {
            None => None,
            Some(n) => if n == "configuration"@ {
                Some(items[0])
            } else {
                first_configuration(items.skip(1))
            },
        }
    }
}

/// The variables of the configuration asset folded in order into a
/// configuration: `name` sets the machine's name, `app_version` and
/// `machine_version` both set the version — the last wins — and `programs`
/// sets the catalogue through `programs_of`; an unknown variable changes
/// nothing, but every matched variable must carry a string value.
pub open spec fn preview_fold(
    variables: Seq<JsonView>,
    acc: crate::washing_machine::ConfigurationView,
) -> Option<crate::washing_machine::ConfigurationView>
    decreases variables.len(),
{
    if variables.len() == 0 {
        Some(acc)
    } else {
        match string_member(variables[0], "name"@) {
            None => None,
            Some(n) => if n == "name"@ {
                match string_member(variables[0], "value"@) {
                    None => None,
                    Some(v) => preview_fold(
                        variables.skip(1),
                        crate::washing_machine::ConfigurationView { name: v, ..acc },
                    ),
                }
            } else if n == "app_version"@ {
                match string_member(variables[0], "value"@) {
                    None => None,
                    Some(v) => preview_fold(
                        variables.skip(1),
                        crate::washing_machine::ConfigurationView { app_version: v, ..acc },
                    ),
                }
            } else if n == "machine_version"@ {
                match string_member(variables[0], "value"@) {
                    None => None,
                    Some(v) => preview_fold(
                        variables.skip(1),
                        crate::washing_machine::ConfigurationView { app_version: v, ..acc },
                    ),
                }
            } else if n == "programs"@ {
                match string_member(variables[0], "value"@) {
                    None => None,
                    Some(v) => preview_fold(
                        variables.skip(1),
                        crate::washing_machine::ConfigurationView {
                            programs: programs_of(v),
                            ..acc
                        },
                    ),
                }
            } else {
                preview_fold(variables.skip(1), acc)
            },
        }
    }
}

/// The configuration preview a parameters response denotes: the variables
/// of the first `configuration` asset, folded over the empty configuration.
pub open spec fn preview_of_json(j: JsonView) -> Option<
    crate::washing_machine::ConfigurationView,
> {
    match list_member(j, "assets"@) {
        None => None,
        Some(items) => match first_configuration(items) {
            None => None,
            Some(asset) => match list_member(asset, "variables"@) {
                None => None,
                Some(variables) => preview_fold(
                    variables,
                    crate::washing_machine::ConfigurationView::emptied(),
                ),
            },
        },
    }
}

/// Parse the configuration preview read through the parameters endpoint, as
/// `preview_of_json` describes.  Any asset without a string name before the
/// match, a missing `configuration` asset or variable list, or a matched
/// variable without a string value is a `Protocol` error.
pub fn parse_preview_configuration(body: &str) -> (r: Result<Configuration, Error>)
    ensures
        json_of(body@) is None ==> (r matches Err(e) && e is Protocol),
        json_of(body@) matches Some(j) ==> (match preview_of_json(j) {
            Some(c) => r matches Ok(rc) && rc@ == c,
            None => r matches Err(e) && e is Protocol,
        }),
{
    let root = match json_parse(body) {
        Ok(v) => v,
        Err(_) => {
            return Err(Error::Protocol);
        },
    };
    let assets = get_list(&root, "assets")?;
    let ghost shaped = crate::json::views_of(assets@);
    proof {
        assert(shaped.skip(0) =~~= shaped);
    }
    let mut found: Option<usize> = None;
    let mut i: usize = 0;
    while i < assets.len() && found.is_none()
        invariant
            i <= assets@.len(),
            shaped == crate::json::views_of(assets@),
            shaped.len() == assets@.len(),
            json_of(body@) == Some(root@),
            list_member(root@, "assets"@) == Some(shaped),
            found is None ==> first_configuration(shaped) == first_configuration(
                shaped.skip(i as int),
            ),
            found matches Some(k) ==> k < assets@.len() && first_configuration(shaped) == Some(
                shaped[k as int],
            ),
        decreases assets@.len() - i,
    {
        proof {
            assert(shaped.skip(i as int)[0] == shaped[i as int]);
            assert(shaped[i as int] == assets@[i as int]@);
            assert(shaped.skip(i as int).skip(1) =~~= shaped.skip(i as int + 1));
        }
        let name = match get_string(&assets[i], "name") {
            Ok(n) => n,
            Err(_) => {
                return Err(Error::Protocol);
            },
        };
        if name_is(&name, "configuration") {
            found = Some(i);
        }
        i = i + 1;
    }
    let idx = match found {
        Some(k) => k,
        None => {
            proof {
                assert(shaped.skip(shaped.len() as int) =~~= Seq::<JsonView>::empty());
            }
            return Err(Error::Protocol);
        },
    };
    let asset = &assets[idx];
    let variables = get_list(asset, "variables")?;
    let ghost shaped_vars = crate::json::views_of(variables@);
    let mut config = Configuration::default();
    proof {
        assert(shaped_vars.skip(0) =~~= shaped_vars);
        assert(config@ =~~= crate::washing_machine::ConfigurationView::emptied());
    }
    let mut k: usize = 0;
    while k < variables.len()
        invariant
            k <= variables@.len(),
            shaped_vars == crate::json::views_of(variables@),
            shaped_vars.len() == variables@.len(),
            json_of(body@) == Some(root@),
            list_member(root@, "assets"@) == Some(shaped),
            shaped == crate::json::views_of(assets@),
            idx < shaped.len(),
            first_configuration(shaped) == Some(shaped[idx as int]),
            asset@ == shaped[idx as int],
            list_member(asset@, "variables"@) == Some(shaped_vars),
            preview_fold(shaped_vars, crate::washing_machine::ConfigurationView::emptied())
                == preview_fold(shaped_vars.skip(k as int), config@),
        decreases variables@.len() - k,
    {
        let ghost acc0 = config@;
        proof {
            assert(shaped_vars.skip(k as int)[0] == shaped_vars[k as int]);
            assert(shaped_vars[k as int] == variables@[k as int]@);
            assert(shaped_vars.skip(k as int).skip(1) =~~= shaped_vars.skip(k as int + 1));
        }
        let name = match get_string(&variables[k], "name") {
            Ok(n) => n,
            Err(_) => {
                return Err(Error::Protocol);
            },
        };
        if name_is(&name, "name") {
            config.name = match get_string(&variables[k], "value") {
                Ok(v) => v,
                Err(_) => {
                    return Err(Error::Protocol);
                },
            };
            proof {
                assert(config@ =~~= (crate::washing_machine::ConfigurationView {
                    name: string_member(shaped_vars[k as int], "value"@)->Some_0,
                    ..acc0
                }));
            }
        } else if name_is(&name, "app_version") {
            config.app_version = match get_string(&variables[k], "value") {
                Ok(v) => v,
                Err(_) => {
                    return Err(Error::Protocol);
                },
            };
            proof {
                assert(config@ =~~= (crate::washing_machine::ConfigurationView {
                    app_version: string_member(shaped_vars[k as int], "value"@)->Some_0,
                    ..acc0
                }));
            }
        } else if name_is(&name, "machine_version") {
            config.app_version = match get_string(&variables[k], "value") {
                Ok(v) => v,
                Err(_) => {
                    return Err(Error::Protocol);
                },
            };
            proof {
                assert(config@ =~~= (crate::washing_machine::ConfigurationView {
                    app_version: string_member(shaped_vars[k as int], "value"@)->Some_0,
                    ..acc0
                }));
            }
        } else if name_is(&name, "programs") {
            let value = match get_string(&variables[k], "value") {
                Ok(v) => v,
                Err(_) => {
                    return Err(Error::Protocol);
                },
            };
            config.programs = parse_programs(value.as_str());
            proof {
                assert(config@ =~~= (crate::washing_machine::ConfigurationView {
                    programs: programs_of(string_member(shaped_vars[k as int], "value"@)->Some_0),
                    ..acc0
                }));
            }
        }
        proof {
            assert(preview_fold(shaped_vars.skip(k as int), acc0) == preview_fold(
                shaped_vars.skip(k as int + 1),
                config@,
            ));
        }
        k = k + 1;
    }
    proof {
        assert(shaped_vars.skip(shaped_vars.len() as int) =~~= Seq::<JsonView>::empty());
    }
    Ok(config)
}

} // verus!
