//! What the policy reads of a proxy status snapshot: the route and
//! destination summary, the launch profile in force, per-route assessments
//! and, once the proxy runs, its runtime counters and recent history.
use vstd::prelude::*;

use crate::launch::ProxyLaunchProfileStatus;
use crate::policy::BreakerStateSnapshot;
use crate::values::{duplicate_all, OperatorValue};

verus! {

/// A named counter. As part of a status snapshot, counters keyed by id are
/// held in increasing byte order of their ids, each id once.
#[derive(Clone, Debug)]
pub struct ProxyOperatorCounterEntry {
    pub id: String,
    pub total: u64,
}

impl DeepView for ProxyOperatorCounterEntry {
    type V = (Seq<char>, u64);

    open spec fn deep_view(&self) -> (Seq<char>, u64) {
        (self.id@, self.total)
    }
}

impl OperatorValue for ProxyOperatorCounterEntry {
    fn duplicate(&self) -> (r: Self) {
        ProxyOperatorCounterEntry { id: self.id.duplicate(), total: self.total }
    }

    fn same_value(&self, other: &Self) -> (r: bool) {
        self.id.same_value(&other.id) && self.total == other.total
    }
}

/// The counter for `id`, zero when there is none.
pub open spec fn counter_value(counters: Seq<(Seq<char>, u64)>, id: Seq<char>) -> u64
    decreases counters.len(),
{
    if counters.len() == 0 {
        0
    } else if counters[0].0 == id {
        counters[0].1
    } else {
        counter_value(counters.drop_first(), id)
    }
}

/// Reads the counter for `id`, zero when there is none.
pub fn counter_for(counters: &Vec<ProxyOperatorCounterEntry>, id: &str) -> (r: u64)
    ensures
        r == counter_value(counters.deep_view(), id@),
{
    let ghost s = counters.deep_view();
    let mut i: usize = 0;
    assert(s.subrange(0, s.len() as int) =~= s);
    while i < counters.len()
        invariant
            i <= s.len(),
            s == counters.deep_view(),
            s.len() == counters@.len(),
            counter_value(s, id@) == counter_value(s.subrange(i as int, s.len() as int), id@),
        decreases counters@.len() - i,
    {
        let ghost rest = s.subrange(i as int, s.len() as int);
        assert(rest[0] == s[i as int]);
        assert(rest.drop_first() =~= s.subrange(i + 1, s.len() as int));
        assert(s[i as int] == counters@[i as int].deep_view());
        if crate::text::str_equal(counters[i].id.as_str(), id) {
            return counters[i].total;
        }
        i = i + 1;
    }
    0
}

/// Kinds of configuration event.
#[derive(Clone, Copy, Debug, PartialEq, Eq, Structural)]
pub enum RecentConfigEventKind {
    Applied,
    Rejected,
    Blocked,
    ReloadFailed,
    LaunchProfileChanged,
}

/// A recent configuration event.
#[derive(Clone, Debug)]
pub struct RecentConfigEvent {
    pub kind: RecentConfigEventKind,
    pub recorded_at_unix_ms: u64,
    pub revision: Option<u64>,
    pub launch_profile_mode: Option<String>,
    pub details: Vec<String>,
}

/// The contents of a configuration event.
pub struct ConfigEventView {
    pub kind: RecentConfigEventKind,
    pub recorded_at_unix_ms: u64,
    pub revision: Option<u64>,
    pub launch_profile_mode: Option<Seq<char>>,
    pub details: Seq<Seq<char>>,
}

impl DeepView for RecentConfigEvent {
    type V = ConfigEventView;

    open spec fn deep_view(&self) -> ConfigEventView {
        ConfigEventView {
            kind: self.kind,
            recorded_at_unix_ms: self.recorded_at_unix_ms,
            revision: self.revision,
            launch_profile_mode: self.launch_profile_mode.deep_view(),
            details: self.details.deep_view(),
        }
    }
}

impl OperatorValue for RecentConfigEvent {
    fn duplicate(&self) -> (r: Self) {
        RecentConfigEvent {
            kind: self.kind,
            recorded_at_unix_ms: self.recorded_at_unix_ms,
            revision: self.revision,
            launch_profile_mode: self.launch_profile_mode.duplicate(),
            details: duplicate_all(&self.details),
        }
    }

    fn same_value(&self, other: &Self) -> (r: bool) {
        self.kind == other.kind && self.recorded_at_unix_ms == other.recorded_at_unix_ms
            && self.revision == other.revision && self.launch_profile_mode.same_value(
            &other.launch_profile_mode,
        ) && self.details.same_value(&other.details)
    }
}

/// A recent operator action.
#[derive(Clone, Debug)]
pub struct RecentOperatorAction {
    pub action: String,
    pub recorded_at_unix_ms: u64,
    pub details: Vec<String>,
}

/// The contents of an operator action.
pub struct OperatorActionView {
    pub action: Seq<char>,
    pub recorded_at_unix_ms: u64,
    pub details: Seq<Seq<char>>,
}

impl DeepView for RecentOperatorAction {
    type V = OperatorActionView;

    open spec fn deep_view(&self) -> OperatorActionView {
        OperatorActionView {
            action: self.action@,
            recorded_at_unix_ms: self.recorded_at_unix_ms,
            details: self.details.deep_view(),
        }
    }
}

impl OperatorValue for RecentOperatorAction {
    fn duplicate(&self) -> (r: Self) {
        RecentOperatorAction {
            action: self.action.duplicate(),
            recorded_at_unix_ms: self.recorded_at_unix_ms,
            details: duplicate_all(&self.details),
        }
    }

    fn same_value(&self, other: &Self) -> (r: bool) {
        self.action.same_value(&other.action) && self.recorded_at_unix_ms
            == other.recorded_at_unix_ms && self.details.same_value(&other.details)
    }
}

/// Counts of routes, ingresses and destinations, and of configuration warnings.
#[derive(Clone, Copy, Debug, Default)]
pub struct UdpProxySummary {
    pub active_routes: usize,
    pub disabled_routes: usize,
    pub active_ingresses: usize,
    pub active_destinations: usize,
    pub fallback_ready_routes: usize,
    pub fallback_missing_routes: usize,
    pub warning_count: usize,
}

/// How a route was assessed against the configuration.
#[derive(Clone, Debug)]
pub struct UdpProxyRouteAssessment {
    pub route_id: String,
    pub active: bool,
    pub direct_udp_fallback_available: bool,
    pub warnings: Vec<String>,
}

/// A configured route. Its mode, traffic class and cache and capture
/// policies are held by their configuration labels.
#[derive(Clone, Debug)]
pub struct UdpProxyRouteStatus {
    pub id: String,
    pub enabled: bool,
    pub mode: String,
    pub traffic_class: String,
    pub ingress_ids: Vec<String>,
    pub address_patterns: Vec<String>,
    pub destination_ids: Vec<String>,
    pub rename_address: Option<String>,
    pub cache_policy: String,
    pub capture_policy: String,
    pub rehydrate_on_connect: bool,
    pub replay_allowed: bool,
}

/// Whether a route has direct UDP fallback, and to which targets.
#[derive(Clone, Debug)]
pub struct UdpProxyFallbackStatus {
    pub route_id: String,
    pub available: bool,
    pub direct_udp_targets: Vec<String>,
}

/// A configured destination. Its drop policy is held by its configuration label.
#[derive(Clone, Debug)]
pub struct UdpProxyDestinationStatus {
    pub id: String,
    pub bind: String,
    pub target: String,
    pub route_ids: Vec<String>,
    pub queue_depth: usize,
    pub drop_policy: String,
    pub breaker_open_after_consecutive_failures: u32,
    pub breaker_open_after_consecutive_queue_overflows: u32,
    pub breaker_cooldown_ms: u64,
}

/// Runtime state of a destination.
#[derive(Clone, Debug)]
pub struct UdpProxyDestinationRuntimeStatus {
    pub destination_id: String,
    pub queue_depth: usize,
    pub send_total: u64,
    pub send_failures_total: u64,
    pub breaker_state: Option<BreakerStateSnapshot>,
}

/// The contents of a destination's runtime state.
pub struct DestinationRuntimeView {
    pub destination_id: Seq<char>,
    pub queue_depth: usize,
    pub send_total: u64,
    pub send_failures_total: u64,
    pub breaker_state: Option<BreakerStateSnapshot>,
}

impl DeepView for UdpProxyDestinationRuntimeStatus {
    type V = DestinationRuntimeView;

    open spec fn deep_view(&self) -> DestinationRuntimeView {
        DestinationRuntimeView {
            destination_id: self.destination_id@,
            queue_depth: self.queue_depth,
            send_total: self.send_total,
            send_failures_total: self.send_failures_total,
            breaker_state: self.breaker_state,
        }
    }
}

impl crate::values::Identified for UdpProxyDestinationRuntimeStatus {
    open spec fn id_of(v: DestinationRuntimeView) -> Seq<char> {
        v.destination_id
    }

    fn id_text(&self) -> (r: &str) {
        self.destination_id.as_str()
    }
}

/// Runtime state of the proxy: overrides, configuration counters, traffic
/// counters keyed by ingress, route or destination id, destination states and
/// recent history (oldest first).
#[derive(Clone, Debug)]
pub struct UdpProxyRuntimeStatus {
    pub traffic_frozen: bool,
    pub isolated_route_ids: Vec<String>,
    pub config_revision: u64,
    pub config_rejections_total: u64,
    pub config_blocked_total: u64,
    pub config_reload_failures_total: u64,
    pub ingress_packets_total: Vec<ProxyOperatorCounterEntry>,
    pub ingress_drops_total: Vec<ProxyOperatorCounterEntry>,
    pub route_matches_total: Vec<ProxyOperatorCounterEntry>,
    pub dispatch_failures_total: Vec<ProxyOperatorCounterEntry>,
    pub route_transform_failures_total: Vec<ProxyOperatorCounterEntry>,
    pub destination_drops_total: Vec<ProxyOperatorCounterEntry>,
    pub destinations: Vec<UdpProxyDestinationRuntimeStatus>,
    pub recent_operator_actions: Vec<RecentOperatorAction>,
    pub recent_config_events: Vec<RecentConfigEvent>,
}

/// A status snapshot of the proxy.
#[derive(Clone, Debug)]
pub struct UdpProxyStatusSnapshot {
    pub summary: UdpProxySummary,
    pub launch_profile: ProxyLaunchProfileStatus,
    pub routes: Vec<UdpProxyRouteStatus>,
    pub fallback_routes: Vec<UdpProxyFallbackStatus>,
    pub route_assessments: Vec<UdpProxyRouteAssessment>,
    pub destinations: Vec<UdpProxyDestinationStatus>,
    pub runtime: Option<UdpProxyRuntimeStatus>,
}

} // verus!
