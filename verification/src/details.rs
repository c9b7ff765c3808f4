//! Route and destination details of a snapshot: each configured route and
//! destination joined with its assessment, signal, fallback and runtime
//! state, and the state shown for it.
use vstd::prelude::*;

use crate::casebook::sorted_unique;
use crate::dashboard::{
    destination_detail_state, merge_route_warnings, route_detail_state, route_warning_texts,
    ProxyOperatorDestinationDetailState, ProxyOperatorRouteDetailState,
};
use crate::policy::{
    BreakerStateSnapshot, DestinationSignalView, ProxyOperatorDestinationSignal,
    ProxyOperatorRouteSignal, RouteSignalView,
};
use crate::snapshot::ProxyOperatorSnapshot;
use crate::status::{
    DestinationRuntimeView, UdpProxyDestinationRuntimeStatus, UdpProxyDestinationStatus,
    UdpProxyFallbackStatus, UdpProxyRouteAssessment, UdpProxyRouteStatus, UdpProxyStatusSnapshot,
};
use crate::values::{
    duplicate_all, find_last_by_id, last_position_by_id, lemma_map_prefix_push, push_value,
    Identified, OperatorValue,
};

verus! {

/// The contents of a route assessment.
pub struct AssessmentView {
    pub route_id: Seq<char>,
    pub active: bool,
    pub direct_udp_fallback_available: bool,
    pub warnings: Seq<Seq<char>>,
}

impl DeepView for UdpProxyRouteAssessment {
    type V = AssessmentView;

    open spec fn deep_view(&self) -> AssessmentView {
        AssessmentView {
            route_id: self.route_id@,
            active: self.active,
            direct_udp_fallback_available: self.direct_udp_fallback_available,
            warnings: self.warnings.deep_view(),
        }
    }
}

impl Identified for UdpProxyRouteAssessment {
    open spec fn id_of(v: AssessmentView) -> Seq<char> {
        v.route_id
    }

    fn id_text(&self) -> (r: &str) {
        self.route_id.as_str()
    }
}

/// The contents of a fallback status.
pub struct FallbackView {
    pub route_id: Seq<char>,
    pub available: bool,
    pub direct_udp_targets: Seq<Seq<char>>,
}

impl DeepView for UdpProxyFallbackStatus {
    type V = FallbackView;

    open spec fn deep_view(&self) -> FallbackView {
        FallbackView {
            route_id: self.route_id@,
            available: self.available,
            direct_udp_targets: self.direct_udp_targets.deep_view(),
        }
    }
}

impl Identified for UdpProxyFallbackStatus {
    open spec fn id_of(v: FallbackView) -> Seq<char> {
        v.route_id
    }

    fn id_text(&self) -> (r: &str) {
        self.route_id.as_str()
    }
}

impl Identified for ProxyOperatorRouteSignal {
    open spec fn id_of(v: RouteSignalView) -> Seq<char> {
        v.route_id
    }

    fn id_text(&self) -> (r: &str) {
        self.route_id.as_str()
    }
}

impl Identified for ProxyOperatorDestinationSignal {
    open spec fn id_of(v: DestinationSignalView) -> Seq<char> {
        v.destination_id
    }

    fn id_text(&self) -> (r: &str) {
        self.destination_id.as_str()
    }
}

// ---------------------------------------------------------------------------
// Route details
// ---------------------------------------------------------------------------

/// The detail of a route.
#[derive(Clone, Debug)]
pub struct ProxyOperatorRouteDetail {
    pub route_id: String,
    pub state: ProxyOperatorRouteDetailState,
    pub enabled: bool,
    pub isolated: bool,
    pub mode: String,
    pub traffic_class: String,
    pub ingress_ids: Vec<String>,
    pub address_patterns: Vec<String>,
    pub destination_ids: Vec<String>,
    pub rename_address: Option<String>,
    pub cache_policy: String,
    pub capture_policy: String,
    pub rehydrate_on_connect: bool,
    pub replay_allowed: bool,
    pub direct_udp_fallback_available: bool,
    pub direct_udp_targets: Vec<String>,
    pub warnings: Vec<String>,
    pub dispatch_failures_total: u64,
    pub transform_failures_total: u64,
}

/// The contents of a route detail.
pub struct RouteDetailView {
    pub route_id: Seq<char>,
    pub state: ProxyOperatorRouteDetailState,
    pub enabled: bool,
    pub isolated: bool,
    pub mode: Seq<char>,
    pub traffic_class: Seq<char>,
    pub ingress_ids: Seq<Seq<char>>,
    pub address_patterns: Seq<Seq<char>>,
    pub destination_ids: Seq<Seq<char>>,
    pub rename_address: Option<Seq<char>>,
    pub cache_policy: Seq<char>,
    pub capture_policy: Seq<char>,
    pub rehydrate_on_connect: bool,
    pub replay_allowed: bool,
    pub direct_udp_fallback_available: bool,
    pub direct_udp_targets: Seq<Seq<char>>,
    pub warnings: Seq<Seq<char>>,
    pub dispatch_failures_total: u64,
    pub transform_failures_total: u64,
}

impl DeepView for ProxyOperatorRouteDetail {
    type V = RouteDetailView;

    open spec fn deep_view(&self) -> RouteDetailView {
        RouteDetailView {
            route_id: self.route_id@,
            state: self.state,
            enabled: self.enabled,
            isolated: self.isolated,
            mode: self.mode@,
            traffic_class: self.traffic_class@,
            ingress_ids: self.ingress_ids.deep_view(),
            address_patterns: self.address_patterns.deep_view(),
            destination_ids: self.destination_ids.deep_view(),
            rename_address: self.rename_address.deep_view(),
            cache_policy: self.cache_policy@,
            capture_policy: self.capture_policy@,
            rehydrate_on_connect: self.rehydrate_on_connect,
            replay_allowed: self.replay_allowed,
            direct_udp_fallback_available: self.direct_udp_fallback_available,
            direct_udp_targets: self.direct_udp_targets.deep_view(),
            warnings: self.warnings.deep_view(),
            dispatch_failures_total: self.dispatch_failures_total,
            transform_failures_total: self.transform_failures_total,
        }
    }
}

impl OperatorValue for ProxyOperatorRouteDetail {
    fn duplicate(&self) -> (r: Self) {
        ProxyOperatorRouteDetail {
            route_id: self.route_id.duplicate(),
            state: self.state,
            enabled: self.enabled,
            isolated: self.isolated,
            mode: self.mode.duplicate(),
            traffic_class: self.traffic_class.duplicate(),
            ingress_ids: duplicate_all(&self.ingress_ids),
            address_patterns: duplicate_all(&self.address_patterns),
            destination_ids: duplicate_all(&self.destination_ids),
            rename_address: self.rename_address.duplicate(),
            cache_policy: self.cache_policy.duplicate(),
            capture_policy: self.capture_policy.duplicate(),
            rehydrate_on_connect: self.rehydrate_on_connect,
            replay_allowed: self.replay_allowed,
            direct_udp_fallback_available: self.direct_udp_fallback_available,
            direct_udp_targets: duplicate_all(&self.direct_udp_targets),
            warnings: duplicate_all(&self.warnings),
            dispatch_failures_total: self.dispatch_failures_total,
            transform_failures_total: self.transform_failures_total,
        }
    }

    fn same_value(&self, other: &Self) -> (r: bool) {
        self.route_id.same_value(&other.route_id) && self.state == other.state && self.enabled
            == other.enabled && self.isolated == other.isolated && self.mode.same_value(&other.mode)
            && self.traffic_class.same_value(&other.traffic_class) && self.ingress_ids.same_value(
            &other.ingress_ids,
        ) && self.address_patterns.same_value(&other.address_patterns)
            && self.destination_ids.same_value(&other.destination_ids)
            && self.rename_address.same_value(&other.rename_address)
            && self.cache_policy.same_value(&other.cache_policy)
            && self.capture_policy.same_value(&other.capture_policy) && self.rehydrate_on_connect
            == other.rehydrate_on_connect && self.replay_allowed == other.replay_allowed
            && self.direct_udp_fallback_available == other.direct_udp_fallback_available
            && self.direct_udp_targets.same_value(&other.direct_udp_targets)
            && self.warnings.same_value(&other.warnings) && self.dispatch_failures_total
            == other.dispatch_failures_total && self.transform_failures_total
            == other.transform_failures_total
    }
}

impl Identified for ProxyOperatorRouteDetail {
    open spec fn id_of(v: RouteDetailView) -> Seq<char> {
        v.route_id
    }

    fn id_text(&self) -> (r: &str) {
        self.route_id.as_str()
    }
}

/// The state shown for a route.
pub open spec fn route_detail_state_of(enabled: bool, isolated: bool, warnings_empty: bool) -> ProxyOperatorRouteDetailState {
    if !enabled {
        ProxyOperatorRouteDetailState::Disabled
    } else if isolated {
        ProxyOperatorRouteDetailState::Isolated
    } else if warnings_empty {
        ProxyOperatorRouteDetailState::Healthy
    } else {
        ProxyOperatorRouteDetailState::Warning
    }
}

/// The detail of a configured route: joined with the last assessment, signal
/// and fallback status of its id.
pub open spec fn route_detail_view(
    assessments: Seq<AssessmentView>,
    signals: Seq<RouteSignalView>,
    fallbacks: Seq<FallbackView>,
    route: UdpProxyRouteStatus,
) -> RouteDetailView {
    let id = route.id@;
    let a = find_last_by_id::<UdpProxyRouteAssessment>(assessments, id);
    let s = find_last_by_id::<ProxyOperatorRouteSignal>(signals, id);
    let f = find_last_by_id::<UdpProxyFallbackStatus>(fallbacks, id);
    let warnings = sorted_unique(
        route_warning_texts(
            match a {
                Some(a) => Some(a.warnings),
                None => None,
            },
            s,
        ),
    );
    let isolated = match s {
        Some(s) => s.isolated,
        None => false,
    };
    RouteDetailView {
        route_id: id,
        state: route_detail_state_of(route.enabled, isolated, warnings.len() == 0),
        enabled: route.enabled,
        isolated,
        mode: route.mode@,
        traffic_class: route.traffic_class@,
        ingress_ids: route.ingress_ids.deep_view(),
        address_patterns: route.address_patterns.deep_view(),
        destination_ids: route.destination_ids.deep_view(),
        rename_address: route.rename_address.deep_view(),
        cache_policy: route.cache_policy@,
        capture_policy: route.capture_policy@,
        rehydrate_on_connect: route.rehydrate_on_connect,
        replay_allowed: route.replay_allowed,
        direct_udp_fallback_available: match a {
            Some(a) => a.direct_udp_fallback_available,
            None => match f {
                Some(f) => f.available,
                None => false,
            },
        },
        direct_udp_targets: match f {
            Some(f) => f.direct_udp_targets,
            None => Seq::empty(),
        },
        warnings,
        dispatch_failures_total: match s {
            Some(s) => s.dispatch_failures_total,
            None => 0,
        },
        transform_failures_total: match s {
            Some(s) => s.transform_failures_total,
            None => 0,
        },
    }
}

fn route_detail(
    status: &UdpProxyStatusSnapshot,
    signals: &Vec<ProxyOperatorRouteSignal>,
    route: &UdpProxyRouteStatus,
) -> (r: ProxyOperatorRouteDetail)
    ensures
        r.deep_view() == route_detail_view(
            status.route_assessments.deep_view(),
            signals.deep_view(),
            status.fallback_routes.deep_view(),
            *route,
        ),
{
    let id = route.id.as_str();
    let ai = last_position_by_id(&status.route_assessments, id);
    let si = last_position_by_id(signals, id);
    let fi = last_position_by_id(&status.fallback_routes, id);
    let assessment: Option<&UdpProxyRouteAssessment> = match ai {
        Some(k) => {
            assert(status.route_assessments.deep_view()[k as int]
                == status.route_assessments@[k as int].deep_view());
            Some(&status.route_assessments[k])
        },
        None => None,
    };
    let signal: Option<&ProxyOperatorRouteSignal> = match si {
        Some(k) => {
            assert(signals.deep_view()[k as int] == signals@[k as int].deep_view());
            Some(&signals[k])
        },
        None => None,
    };
    let warnings = merge_route_warnings(assessment, signal);
    let isolated = match signal {
        Some(s) => s.isolated,
        None => false,
    };
    let (fallback_available, targets) = match fi {
        Some(k) => {
            let f = &status.fallback_routes[k];
            assert(status.fallback_routes.deep_view()[k as int] == f.deep_view());
            (f.available, duplicate_all(&f.direct_udp_targets))
        },
        None => {
            let t: Vec<String> = Vec::new();
            assert(t.deep_view() =~= Seq::<Seq<char>>::empty());
            (false, t)
        },
    };
    let direct_udp_fallback_available = match assessment {
        Some(a) => a.direct_udp_fallback_available,
        None => fallback_available,
    };
    let state = route_detail_state(route.enabled, isolated, warnings.len() == 0);
    let (dispatch_failures_total, transform_failures_total) = match signal {
        Some(s) => (s.dispatch_failures_total, s.transform_failures_total),
        None => (0, 0),
    };
    ProxyOperatorRouteDetail {
        route_id: route.id.duplicate(),
        state,
        enabled: route.enabled,
        isolated,
        mode: route.mode.duplicate(),
        traffic_class: route.traffic_class.duplicate(),
        ingress_ids: duplicate_all(&route.ingress_ids),
        address_patterns: duplicate_all(&route.address_patterns),
        destination_ids: duplicate_all(&route.destination_ids),
        rename_address: route.rename_address.duplicate(),
        cache_policy: route.cache_policy.duplicate(),
        capture_policy: route.capture_policy.duplicate(),
        rehydrate_on_connect: route.rehydrate_on_connect,
        replay_allowed: route.replay_allowed,
        direct_udp_fallback_available,
        direct_udp_targets: targets,
        warnings,
        dispatch_failures_total,
        transform_failures_total,
    }
}

/// The details of every configured route, in configuration order.
pub open spec fn route_details_view(snapshot: ProxyOperatorSnapshot) -> Seq<RouteDetailView> {
    snapshot.overview.status.routes@.map_values(
        |r: UdpProxyRouteStatus|
            route_detail_view(
                snapshot.overview.status.route_assessments.deep_view(),
                snapshot.overview.report.route_signals.deep_view(),
                snapshot.overview.status.fallback_routes.deep_view(),
                r,
            ),
    )
}

/// Builds the details of every configured route.
pub fn route_details_from_snapshot(snapshot: &ProxyOperatorSnapshot) -> (r: Vec<ProxyOperatorRouteDetail>)
    ensures
        r.deep_view() == route_details_view(*snapshot),
{
    let status = &snapshot.overview.status;
    let signals = &snapshot.overview.report.route_signals;
    let mut out: Vec<ProxyOperatorRouteDetail> = Vec::new();
    let mut i: usize = 0;
    while i < status.routes.len()
        invariant
            i <= snapshot.overview.status.routes@.len(),
            status == &snapshot.overview.status,
            signals == &snapshot.overview.report.route_signals,
            out.deep_view() == route_details_view(*snapshot).subrange(0, i as int),
        decreases snapshot.overview.status.routes@.len() - i,
    {
        push_value(&mut out, route_detail(status, signals, &status.routes[i]));
        assert(out.deep_view() =~= route_details_view(*snapshot).subrange(0, i + 1));
        i = i + 1;
    }
    assert(route_details_view(*snapshot).subrange(0, i as int) =~= route_details_view(*snapshot));
    out
}

// ---------------------------------------------------------------------------
// Destination details
// ---------------------------------------------------------------------------

/// The detail of a destination.
#[derive(Clone, Debug)]
pub struct ProxyOperatorDestinationDetail {
    pub destination_id: String,
    pub state: ProxyOperatorDestinationDetailState,
    pub bind: String,
    pub target: String,
    pub route_ids: Vec<String>,
    pub configured_queue_depth: usize,
    pub live_queue_depth: usize,
    pub drop_policy: String,
    pub breaker_open_after_consecutive_failures: u32,
    pub breaker_open_after_consecutive_queue_overflows: u32,
    pub breaker_cooldown_ms: u64,
    pub send_total: u64,
    pub send_failures_total: u64,
    pub drops_total: u64,
    pub breaker_state: Option<BreakerStateSnapshot>,
}

/// The contents of a destination detail.
pub struct DestinationDetailView {
    pub destination_id: Seq<char>,
    pub state: ProxyOperatorDestinationDetailState,
    pub bind: Seq<char>,
    pub target: Seq<char>,
    pub route_ids: Seq<Seq<char>>,
    pub configured_queue_depth: usize,
    pub live_queue_depth: usize,
    pub drop_policy: Seq<char>,
    pub breaker_open_after_consecutive_failures: u32,
    pub breaker_open_after_consecutive_queue_overflows: u32,
    pub breaker_cooldown_ms: u64,
    pub send_total: u64,
    pub send_failures_total: u64,
    pub drops_total: u64,
    pub breaker_state: Option<BreakerStateSnapshot>,
}

impl DeepView for ProxyOperatorDestinationDetail {
    type V = DestinationDetailView;

    open spec fn deep_view(&self) -> DestinationDetailView {
        DestinationDetailView {
            destination_id: self.destination_id@,
            state: self.state,
            bind: self.bind@,
            target: self.target@,
            route_ids: self.route_ids.deep_view(),
            configured_queue_depth: self.configured_queue_depth,
            live_queue_depth: self.live_queue_depth,
            drop_policy: self.drop_policy@,
            breaker_open_after_consecutive_failures: self.breaker_open_after_consecutive_failures,
            breaker_open_after_consecutive_queue_overflows: self.breaker_open_after_consecutive_queue_overflows,
            breaker_cooldown_ms: self.breaker_cooldown_ms,
            send_total: self.send_total,
            send_failures_total: self.send_failures_total,
            drops_total: self.drops_total,
            breaker_state: self.breaker_state,
        }
    }
}

impl OperatorValue for ProxyOperatorDestinationDetail {
    fn duplicate(&self) -> (r: Self) {
        ProxyOperatorDestinationDetail {
            destination_id: self.destination_id.duplicate(),
            state: self.state,
            bind: self.bind.duplicate(),
            target: self.target.duplicate(),
            route_ids: duplicate_all(&self.route_ids),
            configured_queue_depth: self.configured_queue_depth,
            live_queue_depth: self.live_queue_depth,
            drop_policy: self.drop_policy.duplicate(),
            breaker_open_after_consecutive_failures: self.breaker_open_after_consecutive_failures,
            breaker_open_after_consecutive_queue_overflows: self.breaker_open_after_consecutive_queue_overflows,
            breaker_cooldown_ms: self.breaker_cooldown_ms,
            send_total: self.send_total,
            send_failures_total: self.send_failures_total,
            drops_total: self.drops_total,
            breaker_state: self.breaker_state,
        }
    }

    fn same_value(&self, other: &Self) -> (r: bool) {
        self.destination_id.same_value(&other.destination_id) && self.state == other.state
            && self.bind.same_value(&other.bind) && self.target.same_value(&other.target)
            && self.route_ids.same_value(&other.route_ids) && self.configured_queue_depth
            == other.configured_queue_depth && self.live_queue_depth == other.live_queue_depth
            && self.drop_policy.same_value(&other.drop_policy)
            && self.breaker_open_after_consecutive_failures
            == other.breaker_open_after_consecutive_failures
            && self.breaker_open_after_consecutive_queue_overflows
            == other.breaker_open_after_consecutive_queue_overflows && self.breaker_cooldown_ms
            == other.breaker_cooldown_ms && self.send_total == other.send_total
            && self.send_failures_total == other.send_failures_total && self.drops_total
            == other.drops_total && self.breaker_state == other.breaker_state
    }
}

impl Identified for ProxyOperatorDestinationDetail {
    open spec fn id_of(v: DestinationDetailView) -> Seq<char> {
        v.destination_id
    }

    fn id_text(&self) -> (r: &str) {
        self.destination_id.as_str()
    }
}

/// The state shown for a destination.
pub open spec fn destination_detail_state_of(
    live_queue_depth: usize,
    send_failures_total: u64,
    drops_total: u64,
    breaker_state: Option<BreakerStateSnapshot>,
) -> ProxyOperatorDestinationDetailState {
    if breaker_state == Some(BreakerStateSnapshot::Open) {
        ProxyOperatorDestinationDetailState::Blocked
    } else if live_queue_depth > 0 || send_failures_total > 0 || drops_total > 0 || breaker_state
        == Some(BreakerStateSnapshot::HalfOpen) {
        ProxyOperatorDestinationDetailState::Warning
    } else {
        ProxyOperatorDestinationDetailState::Healthy
    }
}

/// The runtime states of the destinations, none before the proxy runs.
pub open spec fn runtime_destinations(status: UdpProxyStatusSnapshot) -> Seq<DestinationRuntimeView> {
    match status.runtime {
        Some(rt) => rt.destinations.deep_view(),
        None => Seq::empty(),
    }
}

/// The detail of a configured destination: joined with the last runtime
/// state and signal of its id; without a runtime state its live queue depth
/// is its configured one.
pub open spec fn destination_detail_view(
    runtime: Seq<DestinationRuntimeView>,
    signals: Seq<DestinationSignalView>,
    d: UdpProxyDestinationStatus,
) -> DestinationDetailView {
    let id = d.id@;
    let rt = find_last_by_id::<UdpProxyDestinationRuntimeStatus>(runtime, id);
    let s = find_last_by_id::<ProxyOperatorDestinationSignal>(signals, id);
    let live = match rt {
        Some(x) => x.queue_depth,
        None => d.queue_depth,
    };
    let failures = match s {
        Some(x) => x.send_failures_total,
        None => 0,
    };
    let drops = match s {
        Some(x) => x.drops_total,
        None => 0,
    };
    let breaker = match rt {
        Some(x) => x.breaker_state,
        None => None,
    };
    DestinationDetailView {
        destination_id: id,
        state: destination_detail_state_of(live, failures, drops, breaker),
        bind: d.bind@,
        target: d.target@,
        route_ids: d.route_ids.deep_view(),
        configured_queue_depth: d.queue_depth,
        live_queue_depth: live,
        drop_policy: d.drop_policy@,
        breaker_open_after_consecutive_failures: d.breaker_open_after_consecutive_failures,
        breaker_open_after_consecutive_queue_overflows: d.breaker_open_after_consecutive_queue_overflows,
        breaker_cooldown_ms: d.breaker_cooldown_ms,
        send_total: match rt {
            Some(x) => x.send_total,
            None => 0,
        },
        send_failures_total: failures,
        drops_total: drops,
        breaker_state: breaker,
    }
}

fn destination_detail(
    runtime: &Vec<UdpProxyDestinationRuntimeStatus>,
    signals: &Vec<ProxyOperatorDestinationSignal>,
    d: &UdpProxyDestinationStatus,
) -> (r: ProxyOperatorDestinationDetail)
    ensures
        r.deep_view() == destination_detail_view(runtime.deep_view(), signals.deep_view(), *d),
{
    let id = d.id.as_str();
    let ri = last_position_by_id(runtime, id);
    let si = last_position_by_id(signals, id);
    let (live, send_total, breaker) = match ri {
        Some(k) => {
            let x = &runtime[k];
            assert(runtime.deep_view()[k as int] == x.deep_view());
            (x.queue_depth, x.send_total, x.breaker_state)
        },
        None => (d.queue_depth, 0, None),
    };
    let (failures, drops) = match si {
        Some(k) => {
            let x = &signals[k];
            assert(signals.deep_view()[k as int] == x.deep_view());
            (x.send_failures_total, x.drops_total)
        },
        None => (0, 0),
    };
    ProxyOperatorDestinationDetail {
        destination_id: d.id.duplicate(),
        state: destination_detail_state(live, failures, drops, breaker),
        bind: d.bind.duplicate(),
        target: d.target.duplicate(),
        route_ids: duplicate_all(&d.route_ids),
        configured_queue_depth: d.queue_depth,
        live_queue_depth: live,
        drop_policy: d.drop_policy.duplicate(),
        breaker_open_after_consecutive_failures: d.breaker_open_after_consecutive_failures,
        breaker_open_after_consecutive_queue_overflows: d.breaker_open_after_consecutive_queue_overflows,
        breaker_cooldown_ms: d.breaker_cooldown_ms,
        send_total,
        send_failures_total: failures,
        drops_total: drops,
        breaker_state: breaker,
    }
}

/// The details of every configured destination, in configuration order.
pub open spec fn destination_details_view(snapshot: ProxyOperatorSnapshot) -> Seq<DestinationDetailView> {
    snapshot.overview.status.destinations@.map_values(
        |d: UdpProxyDestinationStatus|
            destination_detail_view(
                runtime_destinations(snapshot.overview.status),
                snapshot.overview.report.destination_signals.deep_view(),
                d,
            ),
    )
}

/// Builds the details of every configured destination.
pub fn destination_details_from_snapshot(snapshot: &ProxyOperatorSnapshot) -> (r: Vec<
    ProxyOperatorDestinationDetail,
>)
    ensures
        r.deep_view() == destination_details_view(*snapshot),
{
    let status = &snapshot.overview.status;
    let empty: Vec<UdpProxyDestinationRuntimeStatus> = Vec::new();
    let runtime: &Vec<UdpProxyDestinationRuntimeStatus> = match &status.runtime {
        Some(rt) => &rt.destinations,
        None => &empty,
    };
    assert(runtime.deep_view() =~= runtime_destinations(*status));
    let signals = &snapshot.overview.report.destination_signals;
    let mut out: Vec<ProxyOperatorDestinationDetail> = Vec::new();
    let mut i: usize = 0;
    while i < status.destinations.len()
        invariant
            i <= snapshot.overview.status.destinations@.len(),
            status == &snapshot.overview.status,
            signals == &snapshot.overview.report.destination_signals,
            runtime.deep_view() == runtime_destinations(snapshot.overview.status),
            out.deep_view() == destination_details_view(*snapshot).subrange(0, i as int),
        decreases snapshot.overview.status.destinations@.len() - i,
    {
        push_value(&mut out, destination_detail(runtime, signals, &status.destinations[i]));
        assert(out.deep_view() =~= destination_details_view(*snapshot).subrange(0, i + 1));
        i = i + 1;
    }
    assert(destination_details_view(*snapshot).subrange(0, i as int) =~= destination_details_view(
        *snapshot,
    ));
    out
}

} // verus!
