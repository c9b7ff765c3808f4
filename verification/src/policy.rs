//! Operator policy vocabulary: safety policy, operator state, overrides and the
//! per-route and per-destination runtime signals derived from a status
//! snapshot.
use vstd::prelude::*;

use crate::text::{str_equal, utf8};
use crate::values::{duplicate_all, OperatorValue};

verus! {

/// How strictly startup and reloads treat warnings and missing fallbacks.
#[derive(Clone, Copy, Debug, Default, PartialEq, Eq, Structural)]
pub struct ProxyRuntimeSafetyPolicy {
    pub fail_on_warnings: bool,
    pub require_fallback_ready: bool,
}

/// Which signals a signals view keeps.
#[derive(Clone, Copy, Debug, Default, PartialEq, Eq, Structural)]
pub enum ProxyOperatorSignalScope {
    #[default]
    All,
    Problematic,
}

impl ProxyOperatorSignalScope {
    /// Reads `all` or `problematic`.
    pub fn parse(value: &str) -> (r: Option<Self>)
        ensures
            r == (if value@ == "all"@ {
                Some(ProxyOperatorSignalScope::All)
            } else if value@ == "problematic"@ {
                Some(ProxyOperatorSignalScope::Problematic)
            } else {
                None
            }),
    {
        if str_equal(value, "all") {
            Some(ProxyOperatorSignalScope::All)
        } else if str_equal(value, "problematic") {
            Some(ProxyOperatorSignalScope::Problematic)
        } else {
            None
        }
    }
}

/// The overall operator state of the proxy.
#[derive(Clone, Copy, Debug, PartialEq, Eq, Structural)]
pub enum ProxyOperatorState {
    Healthy,
    Warning,
    Blocked,
}

/// The label of an operator state.
pub open spec fn state_label_of(state: ProxyOperatorState) -> Seq<char> {
    match state {
        ProxyOperatorState::Healthy => "healthy"@,
        ProxyOperatorState::Warning => "warning"@,
        ProxyOperatorState::Blocked => "blocked"@,
    }
}

impl ProxyOperatorState {
    /// The lower-case label used in reports and payloads.
    pub fn as_str(&self) -> (r: &'static str)
        ensures
            r@ == state_label_of(*self),
    {
        match self {
            ProxyOperatorState::Healthy => "healthy",
            ProxyOperatorState::Warning => "warning",
            ProxyOperatorState::Blocked => "blocked",
        }
    }
}

/// The label of an operator state as an owned string.
pub fn state_label(state: ProxyOperatorState) -> (r: String)
    ensures
        r@ == state_label_of(state),
{
    state.as_str().to_owned()
}

/// Operator overrides in force.
#[derive(Clone, Debug, Default)]
pub struct ProxyOperatorOverrides {
    pub launch_profile_mode: String,
    pub traffic_frozen: bool,
    pub isolated_route_ids: Vec<String>,
    pub disabled_capture_routes: Vec<String>,
    pub disabled_replay_routes: Vec<String>,
    pub disabled_restart_rehydrate_routes: Vec<String>,
}

/// Identifiers of the ingresses, routes and destinations showing each kind of runtime pressure.
#[derive(Clone, Debug, Default)]
pub struct ProxyOperatorRuntimeSignals {
    pub ingresses_with_drops: Vec<String>,
    pub routes_with_dispatch_failures: Vec<String>,
    pub routes_with_transform_failures: Vec<String>,
    pub destinations_with_drops: Vec<String>,
    pub destinations_with_send_failures: Vec<String>,
    pub destinations_with_open_breakers: Vec<String>,
    pub destinations_with_half_open_breakers: Vec<String>,
}

/// What the operator sees of one route.
#[derive(Clone, Debug)]
pub struct ProxyOperatorRouteSignal {
    pub route_id: String,
    pub active: bool,
    pub isolated: bool,
    pub direct_udp_fallback_available: bool,
    pub config_warnings: Vec<String>,
    pub dispatch_failures_total: u64,
    pub transform_failures_total: u64,
}

/// A route is problematic when it is inactive, isolated, lacks a direct UDP
/// fallback, carries configuration warnings or has seen failures.
pub open spec fn route_signal_problematic(signal: ProxyOperatorRouteSignal) -> bool {
    ||| !signal.active
    ||| signal.isolated
    ||| !signal.direct_udp_fallback_available
    ||| signal.config_warnings@.len() > 0
    ||| signal.dispatch_failures_total > 0
    ||| signal.transform_failures_total > 0
}

impl ProxyOperatorRouteSignal {
    /// Whether the route needs operator attention.
    pub fn is_problematic(&self) -> (r: bool)
        ensures
            r == route_signal_problematic(*self),
    {
        !self.active || self.isolated || !self.direct_udp_fallback_available
            || self.config_warnings.len() > 0 || self.dispatch_failures_total > 0
            || self.transform_failures_total > 0
    }
}

/// State of a destination's circuit breaker.
#[derive(Clone, Copy, Debug, PartialEq, Eq, Structural)]
pub enum BreakerStateSnapshot {
    Closed,
    Open,
    HalfOpen,
}

/// What the operator sees of one destination.
#[derive(Clone, Debug)]
pub struct ProxyOperatorDestinationSignal {
    pub destination_id: String,
    pub queue_depth: usize,
    pub send_total: u64,
    pub send_failures_total: u64,
    pub drops_total: u64,
    pub breaker_state: Option<BreakerStateSnapshot>,
}

/// A destination is problematic when it has a backlog, failures, drops, or a
/// breaker that is open or half-open.
pub open spec fn destination_signal_problematic(signal: ProxyOperatorDestinationSignal) -> bool {
    ||| signal.queue_depth > 0
    ||| signal.send_failures_total > 0
    ||| signal.drops_total > 0
    ||| signal.breaker_state == Some(BreakerStateSnapshot::Open)
    ||| signal.breaker_state == Some(BreakerStateSnapshot::HalfOpen)
}

impl ProxyOperatorDestinationSignal {
    /// Whether the destination needs operator attention.
    pub fn is_problematic(&self) -> (r: bool)
        ensures
            r == destination_signal_problematic(*self),
    {
        self.queue_depth > 0 || self.send_failures_total > 0 || self.drops_total > 0
            || match self.breaker_state {
            Some(BreakerStateSnapshot::Open) => true,
            Some(BreakerStateSnapshot::HalfOpen) => true,
            _ => false,
        }
    }
}

/// The contents of a route signal.
pub struct RouteSignalView {
    pub route_id: Seq<char>,
    pub active: bool,
    pub isolated: bool,
    pub direct_udp_fallback_available: bool,
    pub config_warnings: Seq<Seq<char>>,
    pub dispatch_failures_total: u64,
    pub transform_failures_total: u64,
}

impl DeepView for ProxyOperatorRouteSignal {
    type V = RouteSignalView;

    open spec fn deep_view(&self) -> RouteSignalView {
        RouteSignalView {
            route_id: self.route_id@,
            active: self.active,
            isolated: self.isolated,
            direct_udp_fallback_available: self.direct_udp_fallback_available,
            config_warnings: self.config_warnings.deep_view(),
            dispatch_failures_total: self.dispatch_failures_total,
            transform_failures_total: self.transform_failures_total,
        }
    }
}

impl OperatorValue for ProxyOperatorRouteSignal {
    fn duplicate(&self) -> (r: Self) {
        ProxyOperatorRouteSignal {
            route_id: self.route_id.duplicate(),
            active: self.active,
            isolated: self.isolated,
            direct_udp_fallback_available: self.direct_udp_fallback_available,
            config_warnings: duplicate_all(&self.config_warnings),
            dispatch_failures_total: self.dispatch_failures_total,
            transform_failures_total: self.transform_failures_total,
        }
    }

    fn same_value(&self, other: &Self) -> (r: bool) {
        self.route_id.same_value(&other.route_id) && self.active == other.active && self.isolated
            == other.isolated && self.direct_udp_fallback_available
            == other.direct_udp_fallback_available && self.config_warnings.same_value(
            &other.config_warnings,
        ) && self.dispatch_failures_total == other.dispatch_failures_total
            && self.transform_failures_total == other.transform_failures_total
    }
}

/// The contents of a destination signal.
pub struct DestinationSignalView {
    pub destination_id: Seq<char>,
    pub queue_depth: usize,
    pub send_total: u64,
    pub send_failures_total: u64,
    pub drops_total: u64,
    pub breaker_state: Option<BreakerStateSnapshot>,
}

impl DeepView for ProxyOperatorDestinationSignal {
    type V = DestinationSignalView;

    open spec fn deep_view(&self) -> DestinationSignalView {
        DestinationSignalView {
            destination_id: self.destination_id@,
            queue_depth: self.queue_depth,
            send_total: self.send_total,
            send_failures_total: self.send_failures_total,
            drops_total: self.drops_total,
            breaker_state: self.breaker_state,
        }
    }
}

impl OperatorValue for ProxyOperatorDestinationSignal {
    fn duplicate(&self) -> (r: Self) {
        ProxyOperatorDestinationSignal {
            destination_id: self.destination_id.duplicate(),
            queue_depth: self.queue_depth,
            send_total: self.send_total,
            send_failures_total: self.send_failures_total,
            drops_total: self.drops_total,
            breaker_state: self.breaker_state,
        }
    }

    fn same_value(&self, other: &Self) -> (r: bool) {
        self.destination_id.same_value(&other.destination_id) && self.queue_depth
            == other.queue_depth && self.send_total == other.send_total && self.send_failures_total
            == other.send_failures_total && self.drops_total == other.drops_total
            && self.breaker_state == other.breaker_state
    }
}

/// The contents of the runtime signals.
pub struct RuntimeSignalsView {
    pub ingresses_with_drops: Seq<Seq<char>>,
    pub routes_with_dispatch_failures: Seq<Seq<char>>,
    pub routes_with_transform_failures: Seq<Seq<char>>,
    pub destinations_with_drops: Seq<Seq<char>>,
    pub destinations_with_send_failures: Seq<Seq<char>>,
    pub destinations_with_open_breakers: Seq<Seq<char>>,
    pub destinations_with_half_open_breakers: Seq<Seq<char>>,
}

impl DeepView for ProxyOperatorRuntimeSignals {
    type V = RuntimeSignalsView;

    open spec fn deep_view(&self) -> RuntimeSignalsView {
        RuntimeSignalsView {
            ingresses_with_drops: self.ingresses_with_drops.deep_view(),
            routes_with_dispatch_failures: self.routes_with_dispatch_failures.deep_view(),
            routes_with_transform_failures: self.routes_with_transform_failures.deep_view(),
            destinations_with_drops: self.destinations_with_drops.deep_view(),
            destinations_with_send_failures: self.destinations_with_send_failures.deep_view(),
            destinations_with_open_breakers: self.destinations_with_open_breakers.deep_view(),
            destinations_with_half_open_breakers: self.destinations_with_half_open_breakers.deep_view(),
        }
    }
}

impl OperatorValue for ProxyOperatorRuntimeSignals {
    fn duplicate(&self) -> (r: Self) {
        ProxyOperatorRuntimeSignals {
            ingresses_with_drops: duplicate_all(&self.ingresses_with_drops),
            routes_with_dispatch_failures: duplicate_all(&self.routes_with_dispatch_failures),
            routes_with_transform_failures: duplicate_all(&self.routes_with_transform_failures),
            destinations_with_drops: duplicate_all(&self.destinations_with_drops),
            destinations_with_send_failures: duplicate_all(&self.destinations_with_send_failures),
            destinations_with_open_breakers: duplicate_all(&self.destinations_with_open_breakers),
            destinations_with_half_open_breakers: duplicate_all(
                &self.destinations_with_half_open_breakers,
            ),
        }
    }

    fn same_value(&self, other: &Self) -> (r: bool) {
        self.ingresses_with_drops.same_value(&other.ingresses_with_drops)
            && self.routes_with_dispatch_failures.same_value(&other.routes_with_dispatch_failures)
            && self.routes_with_transform_failures.same_value(&other.routes_with_transform_failures)
            && self.destinations_with_drops.same_value(&other.destinations_with_drops)
            && self.destinations_with_send_failures.same_value(
            &other.destinations_with_send_failures,
        ) && self.destinations_with_open_breakers.same_value(&other.destinations_with_open_breakers)
            && self.destinations_with_half_open_breakers.same_value(
            &other.destinations_with_half_open_breakers,
        )
    }
}

/// The contents of the operator overrides.
pub struct OverridesView {
    pub launch_profile_mode: Seq<char>,
    pub traffic_frozen: bool,
    pub isolated_route_ids: Seq<Seq<char>>,
    pub disabled_capture_routes: Seq<Seq<char>>,
    pub disabled_replay_routes: Seq<Seq<char>>,
    pub disabled_restart_rehydrate_routes: Seq<Seq<char>>,
}

impl DeepView for ProxyOperatorOverrides {
    type V = OverridesView;

    open spec fn deep_view(&self) -> OverridesView {
        OverridesView {
            launch_profile_mode: self.launch_profile_mode@,
            traffic_frozen: self.traffic_frozen,
            isolated_route_ids: self.isolated_route_ids.deep_view(),
            disabled_capture_routes: self.disabled_capture_routes.deep_view(),
            disabled_replay_routes: self.disabled_replay_routes.deep_view(),
            disabled_restart_rehydrate_routes: self.disabled_restart_rehydrate_routes.deep_view(),
        }
    }
}

} // verus!
