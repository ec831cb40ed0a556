//! State machine of the cloud (Things5) connection backend.
//!
//! The surrounding application performs the REST calls and hands their parsed
//! results back as plain values; the rate-limiting window, the bootstrap
//! outcome and every state transition are decided and proved here.  Times are
//! carried as milliseconds of a monotonic clock.

use vstd::prelude::*;

use crate::error::Error;
use super::{Configuration, ConnectionState, State, Statistics};

verus! {

/// A full ingestion-triggering refresh happens at most once per this window.
pub const FULL_REFRESH_WINDOW_MS: u64 = 120_000;

/// Steady-cadence polling period suggested to the controller for this backend.
pub const SUGGESTED_REFRESH_PERIOD_MS: u64 = 5_000;

/// What the next refresh has to do.
#[derive(Debug, PartialEq, Eq, Structural, Clone, Copy)]
pub enum RefreshPlan {
    /// Ask the cloud to ingest fresh data from the device, then run the full
    /// bootstrap; afterwards the window timestamp is reset.
    FullWithIngestion,
    /// Run the full bootstrap without a new ingestion request (error
    /// recovery inside the window bypasses the rate limiting).
    Bootstrap,
    /// Re-fetch device details, telemetry and statistics; keep the cached
    /// configuration.
    Partial,
}

/// A session with one machine mediated by the cloud service, addressed by
/// device id and bearer token.
pub struct Connection {
    pub token: String,
    pub device_id: String,
    pub connection_state: ConnectionState,
    pub last_complete_update: u64,
}

/// The outcome of a full bootstrap: `Connected` exactly when the device
/// details, the telemetry-and-statistics query and the configuration preview
/// all succeeded.
pub open spec fn bootstrap_outcome(
    details: Result<(String, bool), Error>,
    state_stats: Result<(State, Statistics), Error>,
    configuration: Result<Configuration, Error>,
) -> crate::washing_machine::ConnectionStateView {
    if details is Ok && state_stats is Ok && configuration is Ok {
        crate::washing_machine::ConnectionStateView::Connected {
            active: details->Ok_0.1,
            name: details->Ok_0.0@,
            state: state_stats->Ok_0.0@,
            configuration: configuration->Ok_0@,
            stats: state_stats->Ok_0.1@,
        }
    } else {
        crate::washing_machine::ConnectionStateView::Error
    }
}

/// The outcome of construction: an ingestion failure alone already leaves the
/// session in `Error`, whatever the other fetches returned.
pub open spec fn construction_outcome(
    ingestion: Result<(), Error>,
    details: Result<(String, bool), Error>,
    state_stats: Result<(State, Statistics), Error>,
    configuration: Result<Configuration, Error>,
) -> crate::washing_machine::ConnectionStateView {
    if ingestion is Err {
        crate::washing_machine::ConnectionStateView::Error
    } else {
        bootstrap_outcome(details, state_stats, configuration)
    }
}

impl Connection {
    /// Construction: first a data-ingestion refresh request, then the full
    /// bootstrap.  The rate-limiting window starts now.
    pub fn new(
        token: String,
        device_id: String,
        now: u64,
        ingestion: Result<(), Error>,
        details: Result<(String, bool), Error>,
        state_stats: Result<(State, Statistics), Error>,
        configuration: Result<Configuration, Error>,
    ) -> (r: Connection)
        ensures
            r.token@ == token@,
            r.device_id@ == device_id@,
            r.last_complete_update == now,
            r.connection_state@ == construction_outcome(
                ingestion,
                details,
                state_stats,
                configuration,
            ),
    {
        let connection_state = match ingestion {
            Ok(()) => Self::bootstrap(details, state_stats, configuration),
            Err(_) => ConnectionState::Error,
        };
        Connection { token, device_id, connection_state, last_complete_update: now }
    }

    fn bootstrap(
        details: Result<(String, bool), Error>,
        state_stats: Result<(State, Statistics), Error>,
        configuration: Result<Configuration, Error>,
    ) -> (r: ConnectionState)
        ensures
            r@ == bootstrap_outcome(details, state_stats, configuration),
    {
        match (details, state_stats, configuration) {
            (Ok((name, active)), Ok((state, stats)), Ok(configuration)) => (
            ConnectionState::Connected { active, name, state, configuration, stats }),
            _ => ConnectionState::Error,
        }
    }

    /// Which refresh the rate-limiting window allows at `now`.  Outside the
    /// window a full ingestion-triggering refresh is due; inside it a
    /// `Connected` session takes the cheap partial refresh, while an `Error`
    /// session re-attempts the full bootstrap regardless of the window —
    /// error recovery bypasses the rate limiting.
    pub fn refresh_plan(&self, now: u64) -> (r: RefreshPlan)
        requires
            !(self.connection_state is Disconnected),
        ensures
            r == RefreshPlan::FullWithIngestion <==> now > self.last_complete_update
                + FULL_REFRESH_WINDOW_MS,
            r == RefreshPlan::Partial <==> (now <= self.last_complete_update
                + FULL_REFRESH_WINDOW_MS && self.connection_state is Connected),
            r == RefreshPlan::Bootstrap <==> (now <= self.last_complete_update
                + FULL_REFRESH_WINDOW_MS && self.connection_state is Error),
    {
        if now > self.last_complete_update && now - self.last_complete_update
            > FULL_REFRESH_WINDOW_MS {
            RefreshPlan::FullWithIngestion
        } else {
            match self.connection_state {
                ConnectionState::Connected { .. } => RefreshPlan::Partial,
                _ => RefreshPlan::Bootstrap,
            }
        }
    }

    /// Apply the results of a full ingestion-triggering refresh; the window
    /// timestamp is reset to `now`.
    pub fn apply_full_refresh(
        &mut self,
        now: u64,
        ingestion: Result<(), Error>,
        details: Result<(String, bool), Error>,
        state_stats: Result<(State, Statistics), Error>,
        configuration: Result<Configuration, Error>,
    )
        ensures
            final(self).token@ == old(self).token@,
            final(self).device_id@ == old(self).device_id@,
            final(self).last_complete_update == now,
            final(self).connection_state@ == construction_outcome(
                ingestion,
                details,
                state_stats,
                configuration,
            ),
    {
        self.connection_state = match ingestion {
            Ok(()) => Self::bootstrap(details, state_stats, configuration),
            Err(_) => ConnectionState::Error,
        };
        self.last_complete_update = now;
    }

    /// Apply the results of a bootstrap run for error recovery; the window
    /// timestamp is left as it was.
    pub fn apply_bootstrap(
        &mut self,
        details: Result<(String, bool), Error>,
        state_stats: Result<(State, Statistics), Error>,
        configuration: Result<Configuration, Error>,
    )
        ensures
            final(self).token@ == old(self).token@,
            final(self).device_id@ == old(self).device_id@,
            final(self).last_complete_update == old(self).last_complete_update,
            final(self).connection_state@ == bootstrap_outcome(
                details,
                state_stats,
                configuration,
            ),
    {
        self.connection_state = Self::bootstrap(details, state_stats, configuration);
    }

    /// Apply the results of a partial refresh: fresh details and telemetry
    /// replace the old ones while the cached configuration is preserved; any
    /// failure collapses the state to `Error`.
    pub fn apply_partial_refresh(
        &mut self,
        details: Result<(String, bool), Error>,
        state_stats: Result<(State, Statistics), Error>,
    )
        requires
            old(self).connection_state is Connected,
        ensures
            final(self).token@ == old(self).token@,
            final(self).device_id@ == old(self).device_id@,
            final(self).last_complete_update == old(self).last_complete_update,
            details is Ok && state_stats is Ok ==> final(self).connection_state@ == (
            crate::washing_machine::ConnectionStateView::Connected {
                active: details->Ok_0.1,
                name: details->Ok_0.0@,
                state: state_stats->Ok_0.0@,
                configuration: old(self).connection_state@->Connected_configuration,
                stats: state_stats->Ok_0.1@,
            }),
            !(details is Ok && state_stats is Ok) ==> final(self).connection_state is Error,
    {
        match (details, state_stats) {
            (Ok((name, active)), Ok((state, stats))) => {
                let (_, _, _, configuration, _) = self.connection_state.connected_parts();
                self.connection_state = ConnectionState::Connected {
                    active,
                    name,
                    state,
                    configuration,
                    stats,
                };
            },
            _ => {
                self.connection_state = ConnectionState::Error;
            },
        }
    }

    /// Pure read of the last computed state; performs no request.
    pub fn get_connection_state(&self) -> (r: ConnectionState)
        ensures
            r@ == self.connection_state@,
    {
        self.connection_state.duplicate()
    }

    /// The cloud backend exposes no configuration-selection capability: this
    /// is a documented permanent stub that contacts no endpoint and always
    /// reports success, so that the gap never surfaces to the operator.
    pub fn select_machine_configuration(&self, _archive: &str) -> (r: Result<(), Error>)
        ensures
            r is Ok,
    {
        Ok(())
    }

    /// Steady-cadence polling period suggested to the controller.
    pub fn suggested_refresh_period_ms(&self) -> (r: u64)
        ensures
            r == SUGGESTED_REFRESH_PERIOD_MS,
    {
        SUGGESTED_REFRESH_PERIOD_MS
    }
}

} // verus!
