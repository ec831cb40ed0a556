//! Data model shared by both connection backends: telemetry snapshots,
//! configuration catalogues, usage statistics, and the connection state that
//! the controller owns.

use vstd::prelude::*;

pub mod local;
pub mod things5;

verus! {

/// One wash program of the machine's catalogue: display name and numeric kind.
#[derive(Debug)]
pub struct ProgramPreview {
    pub name: String,
    pub wash_type: u16,
}

pub ghost struct ProgramPreviewView {
    pub name: Seq<char>,
    pub wash_type: u16,
}

impl View for ProgramPreview {
    type V = ProgramPreviewView;

    open spec fn view(&self) -> ProgramPreviewView {
        ProgramPreviewView { name: self.name@, wash_type: self.wash_type }
    }
}

/// Machine identity and the catalogue of available wash programs.
/// Refreshed on its own, because it changes far less often than telemetry.
#[derive(Debug)]
pub struct Configuration {
    pub name: String,
    pub app_version: String,
    pub machines: Vec<String>,
    pub programs: Vec<ProgramPreview>,
}

#[verifier::ext_equal]
pub ghost struct ConfigurationView {
    pub name: Seq<char>,
    pub app_version: Seq<char>,
    pub machines: Seq<Seq<char>>,
    pub programs: Seq<ProgramPreviewView>,
}

impl View for Configuration {
    type V = ConfigurationView;

    open spec fn view(&self) -> ConfigurationView {
        ConfigurationView {
            name: self.name@,
            app_version: self.app_version@,
            machines: Seq::new(self.machines@.len(), |i: int| self.machines@[i]@),
            programs: Seq::new(self.programs@.len(), |i: int| self.programs@[i]@),
        }
    }
}

/// A point-in-time telemetry snapshot.  Immutable once captured; superseded
/// wholesale by the next successful refresh, never patched field by field.
#[derive(Debug)]
pub struct State {
    pub alarm_code: u16,
    pub credit: u16,
    pub name: String,
    pub porthole_open: bool,
    pub state: u16,
    pub cycle: u16,
    pub step_code: u16,
    pub step_number: u16,
    pub cycle_remaining: u16,
    pub step_remaining: u16,
    pub step_count: u16,
    pub temperature: u16,
    pub level: u16,
    pub speed: u16,
}

#[verifier::ext_equal]
pub ghost struct StateView {
    pub alarm_code: u16,
    pub credit: u16,
    pub name: Seq<char>,
    pub porthole_open: bool,
    pub state: u16,
    pub cycle: u16,
    pub step_code: u16,
    pub step_number: u16,
    pub cycle_remaining: u16,
    pub step_remaining: u16,
    pub step_count: u16,
    pub temperature: u16,
    pub level: u16,
    pub speed: u16,
}

impl View for State {
    type V = StateView;

    open spec fn view(&self) -> StateView {
        StateView {
            alarm_code: self.alarm_code,
            credit: self.credit,
            name: self.name@,
            porthole_open: self.porthole_open,
            state: self.state,
            cycle: self.cycle,
            step_code: self.step_code,
            step_number: self.step_number,
            cycle_remaining: self.cycle_remaining,
            step_remaining: self.step_remaining,
            step_count: self.step_count,
            temperature: self.temperature,
            level: self.level,
            speed: self.speed,
        }
    }
}

/// Monotonic usage counters.  Always replaced wholesale from the latest poll;
/// the client never accumulates on its own.
#[derive(Debug)]
pub struct Statistics {
    pub cycles: u16,
    pub interrupted_cycles: u16,
    pub loop_cycles: u16,
    pub on_time: u32,
    pub work_time: u32,
    pub rotation_time: u32,
    pub heating_time: u32,
    pub cold_water_time: u32,
    pub warm_water_time: u32,
    pub recovery_water_time: u32,
    pub flux_water_time: u32,
    pub porthole_closings: u32,
    pub porthole_openings: u32,
    pub soap_times: Vec<u32>,
}

#[verifier::ext_equal]
pub ghost struct StatisticsView {
    pub cycles: u16,
    pub interrupted_cycles: u16,
    pub loop_cycles: u16,
    pub on_time: u32,
    pub work_time: u32,
    pub rotation_time: u32,
    pub heating_time: u32,
    pub cold_water_time: u32,
    pub warm_water_time: u32,
    pub recovery_water_time: u32,
    pub flux_water_time: u32,
    pub porthole_closings: u32,
    pub porthole_openings: u32,
    pub soap_times: Seq<u32>,
}

impl View for Statistics {
    type V = StatisticsView;

    open spec fn view(&self) -> StatisticsView {
        StatisticsView {
            cycles: self.cycles,
            interrupted_cycles: self.interrupted_cycles,
            loop_cycles: self.loop_cycles,
            on_time: self.on_time,
            work_time: self.work_time,
            rotation_time: self.rotation_time,
            heating_time: self.heating_time,
            cold_water_time: self.cold_water_time,
            warm_water_time: self.warm_water_time,
            recovery_water_time: self.recovery_water_time,
            flux_water_time: self.flux_water_time,
            porthole_closings: self.porthole_closings,
            porthole_openings: self.porthole_openings,
            soap_times: self.soap_times@,
        }
    }
}

/// The statistics endpoint wraps its counters in a `total` object.
#[derive(Debug)]
pub struct StatisticsPair {
    pub total: Statistics,
}

/// The connection state that the controller owns exclusively and replaces
/// atomically on every refresh or command outcome.
#[derive(Debug)]
pub enum ConnectionState {
    Disconnected,
    Connected {
        active: bool,
        name: String,
        state: State,
        configuration: Configuration,
        stats: Statistics,
    },
    Error,
}

#[verifier::ext_equal]
pub ghost enum ConnectionStateView {
    Disconnected,
    Connected {
        active: bool,
        name: Seq<char>,
        state: StateView,
        configuration: ConfigurationView,
        stats: StatisticsView,
    },
    Error,
}

impl View for ConnectionState {
    type V = ConnectionStateView;

    open spec fn view(&self) -> ConnectionStateView {
        match self {
            ConnectionState::Disconnected => ConnectionStateView::Disconnected,
            ConnectionState::Connected { active, name, state, configuration, stats } => (
            ConnectionStateView::Connected {
                active: *active,
                name: name@,
                state: state@,
                configuration: configuration@,
                stats: stats@,
            }),
            ConnectionState::Error => ConnectionStateView::Error,
        }
    }
}

impl State {
    /// A fresh copy carrying the same telemetry.
    pub fn duplicate(&self) -> (r: State)
        ensures
            r@ == self@,
    {
        let r = State {
            alarm_code: self.alarm_code,
            credit: self.credit,
            name: self.name.clone(),
            porthole_open: self.porthole_open,
            state: self.state,
            cycle: self.cycle,
            step_code: self.step_code,
            step_number: self.step_number,
            cycle_remaining: self.cycle_remaining,
            step_remaining: self.step_remaining,
            step_count: self.step_count,
            temperature: self.temperature,
            level: self.level,
            speed: self.speed,
        };
        proof {
            assert(r@ =~= self@);
        }
        r
    }
}

/// A fresh `Vec` holding the same numbers.
pub fn copy_u32_vec(v: &Vec<u32>) -> (r: Vec<u32>)
    ensures
        r@ == v@,
{
    let mut r: Vec<u32> = Vec::new();
    let mut i: usize = 0;
    while i < v.len()
        invariant
            i <= v.len(),
            r@ == v@.take(i as int),
        decreases v.len() - i,
    {
        r.push(v[i]);
        proof {
            assert(r@ =~= v@.take(i as int + 1));
        }
        i = i + 1;
    }
    proof {
        assert(v@.take(v@.len() as int) =~= v@);
    }
    r
}

/// A fresh `Vec` holding copies of the same strings.
pub fn copy_string_vec(v: &Vec<String>) -> (r: Vec<String>)
    ensures
        r@.len() == v@.len(),
        forall|i: int| 0 <= i < v@.len() ==> r@[i]@ == v@[i]@,
{
    let mut r: Vec<String> = Vec::new();
    let mut i: usize = 0;
    while i < v.len()
        invariant
            i <= v.len(),
            r@.len() == i,
            forall|j: int| 0 <= j < i ==> r@[j]@ == v@[j]@,
        decreases v.len() - i,
    {
        r.push(v[i].clone());
        i = i + 1;
    }
    r
}

impl ProgramPreview {
    /// A fresh copy of one catalogue entry.
    pub fn duplicate(&self) -> (r: ProgramPreview)
        ensures
            r@ == self@,
    {
        ProgramPreview { name: self.name.clone(), wash_type: self.wash_type }
    }
}

impl Configuration {
    /// A fresh copy carrying the same identity and catalogue.
    pub fn duplicate(&self) -> (r: Configuration)
        ensures
            r@ == self@,
    {
        let machines = copy_string_vec(&self.machines);
        let mut programs: Vec<ProgramPreview> = Vec::new();
        let mut i: usize = 0;
        while i < self.programs.len()
            invariant
                i <= self.programs.len(),
                programs@.len() == i,
                forall|j: int| 0 <= j < i ==> programs@[j]@ == self.programs@[j]@,
            decreases self.programs.len() - i,
        {
            programs.push(self.programs[i].duplicate());
            i = i + 1;
        }
        let r = Configuration {
            name: self.name.clone(),
            app_version: self.app_version.clone(),
            machines,
            programs,
        };
        proof {
            assert(r@.machines =~= self@.machines);
            assert(r@.programs =~= self@.programs);
            assert(r@ =~= self@);
        }
        r
    }
}

impl Statistics {
    /// A fresh copy carrying the same counters.
    pub fn duplicate(&self) -> (r: Statistics)
        ensures
            r@ == self@,
    {
        let r = Statistics {
            cycles: self.cycles,
            interrupted_cycles: self.interrupted_cycles,
            loop_cycles: self.loop_cycles,
            on_time: self.on_time,
            work_time: self.work_time,
            rotation_time: self.rotation_time,
            heating_time: self.heating_time,
            cold_water_time: self.cold_water_time,
            warm_water_time: self.warm_water_time,
            recovery_water_time: self.recovery_water_time,
            flux_water_time: self.flux_water_time,
            porthole_closings: self.porthole_closings,
            porthole_openings: self.porthole_openings,
            soap_times: copy_u32_vec(&self.soap_times),
        };
        proof {
            assert(r@ =~= self@);
        }
        r
    }
}

impl ConnectionState {
    /// The fields of a `Connected` snapshot, as fresh copies.
    pub fn connected_parts(&self) -> (r: (bool, String, State, Configuration, Statistics))
        requires
            self is Connected,
        ensures
            r.0 == self@->Connected_active,
            r.1@ == self@->Connected_name,
            r.2@ == self@->Connected_state,
            r.3@ == self@->Connected_configuration,
            r.4@ == self@->Connected_stats,
    {
        match self {
            ConnectionState::Connected { active, name, state, configuration, stats } => (
                *active,
                name.clone(),
                state.duplicate(),
                configuration.duplicate(),
                stats.duplicate(),
            ),
            _ => unreached(),
        }
    }

    /// A fresh copy of the whole snapshot.
    pub fn duplicate(&self) -> (r: ConnectionState)
        ensures
            r@ == self@,
    {
        match self {
            ConnectionState::Disconnected => ConnectionState::Disconnected,
            ConnectionState::Connected { active, name, state, configuration, stats } => {
                let r = ConnectionState::Connected {
                    active: *active,
                    name: name.clone(),
                    state: state.duplicate(),
                    configuration: configuration.duplicate(),
                    stats: stats.duplicate(),
                };
                proof {
                    assert(r@ =~= self@);
                }
                r
            },
            ConnectionState::Error => ConnectionState::Error,
        }
    }
}

impl Default for State {
    /// The all-zero telemetry snapshot that name-keyed folding starts from.
    fn default() -> (r: State)
        ensures
            r@ == StateView::zeroed(),
    {
        let r = State {
            alarm_code: 0,
            credit: 0,
            name: String::new(),
            porthole_open: false,
            state: 0,
            cycle: 0,
            step_code: 0,
            step_number: 0,
            cycle_remaining: 0,
            step_remaining: 0,
            step_count: 0,
            temperature: 0,
            level: 0,
            speed: 0,
        };
        proof {
            assert(r@ =~= StateView::zeroed());
        }
        r
    }
}

impl StateView {
    /// Every counter zero, the name empty, the porthole closed.
    pub open spec fn zeroed() -> StateView {
        StateView {
            alarm_code: 0,
            credit: 0,
            name: Seq::empty(),
            porthole_open: false,
            state: 0,
            cycle: 0,
            step_code: 0,
            step_number: 0,
            cycle_remaining: 0,
            step_remaining: 0,
            step_count: 0,
            temperature: 0,
            level: 0,
            speed: 0,
        }
    }
}

impl Default for Statistics {
    /// The all-zero counters that name-keyed folding starts from.
    fn default() -> (r: Statistics)
        ensures
            r@ == StatisticsView::zeroed(),
    {
        let r = Statistics {
            cycles: 0,
            interrupted_cycles: 0,
            loop_cycles: 0,
            on_time: 0,
            work_time: 0,
            rotation_time: 0,
            heating_time: 0,
            cold_water_time: 0,
            warm_water_time: 0,
            recovery_water_time: 0,
            flux_water_time: 0,
            porthole_closings: 0,
            porthole_openings: 0,
            soap_times: Vec::new(),
        };
        proof {
            assert(r@ =~= StatisticsView::zeroed());
        }
        r
    }
}

impl StatisticsView {
    /// Every counter zero, no soap timings.
    pub open spec fn zeroed() -> StatisticsView {
        StatisticsView {
            cycles: 0,
            interrupted_cycles: 0,
            loop_cycles: 0,
            on_time: 0,
            work_time: 0,
            rotation_time: 0,
            heating_time: 0,
            cold_water_time: 0,
            warm_water_time: 0,
            recovery_water_time: 0,
            flux_water_time: 0,
            porthole_closings: 0,
            porthole_openings: 0,
            soap_times: Seq::empty(),
        }
    }
}

impl Default for Configuration {
    /// The empty catalogue that the cloud preview parser fills in.
    fn default() -> (r: Configuration)
        ensures
            r@ == ConfigurationView::emptied(),
    {
        let r = Configuration {
            name: String::new(),
            app_version: String::new(),
            machines: Vec::new(),
            programs: Vec::new(),
        };
        proof {
            assert(r@ =~= ConfigurationView::emptied());
        }
        r
    }
}

impl ConfigurationView {
    /// Empty identity, no machines, no programs.
    pub open spec fn emptied() -> ConfigurationView {
        ConfigurationView {
            name: Seq::empty(),
            app_version: Seq::empty(),
            machines: Seq::empty(),
            programs: Seq::empty(),
        }
    }
}

} // verus!
