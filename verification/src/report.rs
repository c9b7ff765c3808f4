//! The operator report of a status snapshot: overrides, per-route and
//! per-destination signals, the runtime signals they add up to, the operator
//! state, the latest history highlights and the report lines.
use vstd::prelude::*;

use crate::launch::mode_label;
use crate::policy::{
    route_signal_problematic, destination_signal_problematic, state_label_of, BreakerStateSnapshot,
    DestinationSignalView, OverridesView, ProxyOperatorDestinationSignal, ProxyOperatorOverrides,
    ProxyOperatorRouteSignal, ProxyOperatorRuntimeSignals, ProxyOperatorSignalScope,
    ProxyOperatorState, ProxyRuntimeSafetyPolicy, RouteSignalView, RuntimeSignalsView,
};
use crate::snapshot::ProxyOperatorReport;
use crate::status::{
    counter_for, counter_value, ConfigEventView, DestinationRuntimeView, OperatorActionView,
    RecentConfigEvent, RecentConfigEventKind, RecentOperatorAction, UdpProxyDestinationRuntimeStatus,
    UdpProxyDestinationStatus, UdpProxyRouteAssessment, UdpProxyRuntimeStatus,
    UdpProxyStatusSnapshot,
};
use crate::text::{
    append_count, append_flag, append_text, append_total, bool_text, decimal, owned, prefixed,
    push_prefixed,
};
use crate::launch::ProxyLaunchProfileStatus;
use crate::status::UdpProxySummary;
use crate::values::{
    contains_value, duplicate_all, find_by_id, lemma_map_prefix_push, position_by_id, push_value,
    OperatorValue,
};

verus! {

// ---------------------------------------------------------------------------
// Overrides
// ---------------------------------------------------------------------------

/// Whether the runtime has frozen traffic (false before the proxy runs).
pub open spec fn runtime_frozen(status: UdpProxyStatusSnapshot) -> bool {
    match status.runtime {
        Some(rt) => rt.traffic_frozen,
        None => false,
    }
}

/// The routes the runtime has isolated (none before the proxy runs).
pub open spec fn runtime_isolated(status: UdpProxyStatusSnapshot) -> Seq<Seq<char>> {
    match status.runtime {
        Some(rt) => rt.isolated_route_ids.deep_view(),
        None => Seq::empty(),
    }
}

/// The overrides in force: the launch profile and what it disabled, and the
/// runtime's freeze and isolations.
pub open spec fn overrides_view(status: UdpProxyStatusSnapshot) -> OverridesView {
    OverridesView {
        launch_profile_mode: mode_label(status.launch_profile.mode),
        traffic_frozen: runtime_frozen(status),
        isolated_route_ids: runtime_isolated(status),
        disabled_capture_routes: status.launch_profile.disabled_capture_routes.deep_view(),
        disabled_replay_routes: status.launch_profile.disabled_replay_routes.deep_view(),
        disabled_restart_rehydrate_routes: status.launch_profile.disabled_restart_rehydrate_routes.deep_view(),
    }
}

/// Reads the overrides of a status snapshot.
pub fn operator_overrides(status: &UdpProxyStatusSnapshot) -> (r: ProxyOperatorOverrides)
    ensures
        r.deep_view() == overrides_view(*status),
{
    let (traffic_frozen, isolated_route_ids) = match &status.runtime {
        Some(rt) => (rt.traffic_frozen, duplicate_all(&rt.isolated_route_ids)),
        None => {
            let v: Vec<String> = Vec::new();
            assert(v.deep_view() =~= Seq::<Seq<char>>::empty());
            (false, v)
        },
    };
    ProxyOperatorOverrides {
        launch_profile_mode: owned(status.launch_profile.mode.as_str()),
        traffic_frozen,
        isolated_route_ids,
        disabled_capture_routes: duplicate_all(&status.launch_profile.disabled_capture_routes),
        disabled_replay_routes: duplicate_all(&status.launch_profile.disabled_replay_routes),
        disabled_restart_rehydrate_routes: duplicate_all(
            &status.launch_profile.disabled_restart_rehydrate_routes,
        ),
    }
}

// ---------------------------------------------------------------------------
// Route and destination signals
// ---------------------------------------------------------------------------

/// A runtime counter keyed by id, zero before the proxy runs or without an entry.
pub open spec fn runtime_counter(
    status: UdpProxyStatusSnapshot,
    pick: int,
    id: Seq<char>,
) -> u64 {
    match status.runtime {
        Some(rt) => counter_value(
            (if pick == 0 {
                rt.dispatch_failures_total
            } else if pick == 1 {
                rt.route_transform_failures_total
            } else {
                rt.destination_drops_total
            }).deep_view(),
            id,
        ),
        None => 0,
    }
}

fn runtime_counter_exec(status: &UdpProxyStatusSnapshot, pick: u8, id: &str) -> (r: u64)
    ensures
        r == runtime_counter(*status, pick as int, id@),
{
    match &status.runtime {
        Some(rt) => {
            if pick == 0 {
                counter_for(&rt.dispatch_failures_total, id)
            } else if pick == 1 {
                counter_for(&rt.route_transform_failures_total, id)
            } else {
                counter_for(&rt.destination_drops_total, id)
            }
        },
        None => 0,
    }
}

/// The signal of an assessed route.
pub open spec fn route_signal_of(status: UdpProxyStatusSnapshot, a: UdpProxyRouteAssessment) -> RouteSignalView {
    RouteSignalView {
        route_id: a.route_id@,
        active: a.active,
        isolated: runtime_isolated(status).contains(a.route_id@),
        direct_udp_fallback_available: a.direct_udp_fallback_available,
        config_warnings: a.warnings.deep_view(),
        dispatch_failures_total: runtime_counter(status, 0, a.route_id@),
        transform_failures_total: runtime_counter(status, 1, a.route_id@),
    }
}

/// The signals of every assessed route, in assessment order.
pub fn operator_route_signals(status: &UdpProxyStatusSnapshot) -> (r: Vec<ProxyOperatorRouteSignal>)
    ensures
        r.deep_view() == status.route_assessments@.map_values(
            |a: UdpProxyRouteAssessment| route_signal_of(*status, a),
        ),
{
    let assessments = &status.route_assessments;
    let mut out: Vec<ProxyOperatorRouteSignal> = Vec::new();
    let mut i: usize = 0;
    while i < assessments.len()
        invariant
            i <= assessments@.len(),
            out.deep_view() == assessments@.subrange(0, i as int).map_values(
                |a: UdpProxyRouteAssessment| route_signal_of(*status, a),
            ),
        decreases assessments@.len() - i,
    {
        let a = &assessments[i];
        let id = a.route_id.as_str();
        let isolated = match &status.runtime {
            Some(rt) => contains_value(&rt.isolated_route_ids, &a.route_id),
            None => false,
        };
        let signal = ProxyOperatorRouteSignal {
            route_id: a.route_id.duplicate(),
            active: a.active,
            isolated,
            direct_udp_fallback_available: a.direct_udp_fallback_available,
            config_warnings: duplicate_all(&a.warnings),
            dispatch_failures_total: runtime_counter_exec(status, 0, id),
            transform_failures_total: runtime_counter_exec(status, 1, id),
        };
        push_value(&mut out, signal);
        proof {
            lemma_map_prefix_push(
                assessments@,
                i as int,
                |a: UdpProxyRouteAssessment| route_signal_of(*status, a),
            );
        }
        i = i + 1;
    }
    assert(assessments@.subrange(0, i as int) =~= assessments@);
    out
}

/// The runtime state of destination `id`, if the proxy runs and reports one.
pub open spec fn runtime_destination(status: UdpProxyStatusSnapshot, id: Seq<char>) -> Option<
    DestinationRuntimeView,
> {
    match status.runtime {
        Some(rt) => find_by_id::<UdpProxyDestinationRuntimeStatus>(rt.destinations.deep_view(), id),
        None => None,
    }
}

/// The signal of a configured destination.
pub open spec fn destination_signal_of(status: UdpProxyStatusSnapshot, d: UdpProxyDestinationStatus) -> DestinationSignalView {
    let rt = runtime_destination(status, d.id@);
    DestinationSignalView {
        destination_id: d.id@,
        queue_depth: match rt {
            Some(x) => x.queue_depth,
            None => 0,
        },
        send_total: match rt {
            Some(x) => x.send_total,
            None => 0,
        },
        send_failures_total: match rt {
            Some(x) => x.send_failures_total,
            None => 0,
        },
        drops_total: runtime_counter(status, 2, d.id@),
        breaker_state: match rt {
            Some(x) => x.breaker_state,
            None => None,
        },
    }
}

fn destination_signal(status: &UdpProxyStatusSnapshot, d: &UdpProxyDestinationStatus) -> (r:
    ProxyOperatorDestinationSignal)
    ensures
        r.deep_view() == destination_signal_of(*status, *d),
{
    let id = d.id.as_str();
    let drops_total = runtime_counter_exec(status, 2, id);
    match &status.runtime {
        Some(rt) => match position_by_id(&rt.destinations, id) {
            Some(k) => {
                let x = &rt.destinations[k];
                assert(rt.destinations.deep_view()[k as int] == x.deep_view());
                ProxyOperatorDestinationSignal {
                    destination_id: d.id.duplicate(),
                    queue_depth: x.queue_depth,
                    send_total: x.send_total,
                    send_failures_total: x.send_failures_total,
                    drops_total,
                    breaker_state: x.breaker_state,
                }
            },
            None => ProxyOperatorDestinationSignal {
                destination_id: d.id.duplicate(),
                queue_depth: 0,
                send_total: 0,
                send_failures_total: 0,
                drops_total,
                breaker_state: None,
            },
        },
        None => ProxyOperatorDestinationSignal {
            destination_id: d.id.duplicate(),
            queue_depth: 0,
            send_total: 0,
            send_failures_total: 0,
            drops_total,
            breaker_state: None,
        },
    }
}

/// The signals of every configured destination, in configuration order.
pub fn operator_destination_signals(status: &UdpProxyStatusSnapshot) -> (r: Vec<
    ProxyOperatorDestinationSignal,
>)
    ensures
        r.deep_view() == status.destinations@.map_values(
            |d: UdpProxyDestinationStatus| destination_signal_of(*status, d),
        ),
{
    let destinations = &status.destinations;
    let mut out: Vec<ProxyOperatorDestinationSignal> = Vec::new();
    let mut i: usize = 0;
    while i < destinations.len()
        invariant
            i <= destinations@.len(),
            out.deep_view() == destinations@.subrange(0, i as int).map_values(
                |d: UdpProxyDestinationStatus| destination_signal_of(*status, d),
            ),
        decreases destinations@.len() - i,
    {
        push_value(&mut out, destination_signal(status, &destinations[i]));
        proof {
            lemma_map_prefix_push(
                destinations@,
                i as int,
                |d: UdpProxyDestinationStatus| destination_signal_of(*status, d),
            );
        }
        i = i + 1;
    }
    assert(destinations@.subrange(0, i as int) =~= destinations@);
    out
}

// ---------------------------------------------------------------------------
// Runtime signals
// ---------------------------------------------------------------------------

/// Ids of the counters above zero, in counter order.
pub open spec fn positive_ids(counters: Seq<(Seq<char>, u64)>) -> Seq<Seq<char>>
    decreases counters.len(),
{
    if counters.len() == 0 {
        Seq::empty()
    } else {
        let prev = positive_ids(counters.drop_last());
        if counters.last().1 > 0 {
            prev.push(counters.last().0)
        } else {
            prev
        }
    }
}

/// Ids of the routes with dispatch failures (`dispatch`) or transform failures.
pub open spec fn failing_route_ids(signals: Seq<RouteSignalView>, dispatch: bool) -> Seq<Seq<char>>
    decreases signals.len(),
{
    if signals.len() == 0 {
        Seq::empty()
    } else {
        let prev = failing_route_ids(signals.drop_last(), dispatch);
        let s = signals.last();
        if (if dispatch {
            s.dispatch_failures_total
        } else {
            s.transform_failures_total
        }) > 0 {
            prev.push(s.route_id)
        } else {
            prev
        }
    }
}

/// Whether a destination shows the pressure `which` names: 0 drops, 1 send
/// failures, 2 an open breaker, 3 a half-open breaker.
pub open spec fn destination_shows(s: DestinationSignalView, which: int) -> bool {
    if which == 0 {
        s.drops_total > 0
    } else if which == 1 {
        s.send_failures_total > 0
    } else if which == 2 {
        s.breaker_state == Some(BreakerStateSnapshot::Open)
    } else {
        s.breaker_state == Some(BreakerStateSnapshot::HalfOpen)
    }
}

/// Ids of the destinations showing the pressure `which` names.
pub open spec fn pressured_destination_ids(signals: Seq<DestinationSignalView>, which: int) -> Seq<
    Seq<char>,
>
    decreases signals.len(),
{
    if signals.len() == 0 {
        Seq::empty()
    } else {
        let prev = pressured_destination_ids(signals.drop_last(), which);
        if destination_shows(signals.last(), which) {
            prev.push(signals.last().destination_id)
        } else {
            prev
        }
    }
}

fn positive_ids_exec(counters: &Vec<crate::status::ProxyOperatorCounterEntry>) -> (r: Vec<String>)
    ensures
        r.deep_view() == positive_ids(counters.deep_view()),
{
    let ghost s = counters.deep_view();
    let mut out: Vec<String> = Vec::new();
    let mut i: usize = 0;
    assert(out.deep_view() =~= positive_ids(s.subrange(0, 0)));
    while i < counters.len()
        invariant
            i <= counters@.len(),
            s == counters.deep_view(),
            out.deep_view() == positive_ids(s.subrange(0, i as int)),
        decreases counters@.len() - i,
    {
        let ghost prefix = s.subrange(0, i + 1);
        assert(prefix.drop_last() =~= s.subrange(0, i as int));
        assert(prefix.last() == counters@[i as int].deep_view());
        if counters[i].total > 0 {
            push_value(&mut out, counters[i].id.duplicate());
        }
        i = i + 1;
    }
    assert(s.subrange(0, i as int) =~= s);
    out
}

fn failing_route_ids_exec(signals: &Vec<ProxyOperatorRouteSignal>, dispatch: bool) -> (r: Vec<String>)
    ensures
        r.deep_view() == failing_route_ids(signals.deep_view(), dispatch),
{
    let ghost s = signals.deep_view();
    let mut out: Vec<String> = Vec::new();
    let mut i: usize = 0;
    assert(out.deep_view() =~= failing_route_ids(s.subrange(0, 0), dispatch));
    while i < signals.len()
        invariant
            i <= signals@.len(),
            s == signals.deep_view(),
            out.deep_view() == failing_route_ids(s.subrange(0, i as int), dispatch),
        decreases signals@.len() - i,
    {
        let ghost prefix = s.subrange(0, i + 1);
        assert(prefix.drop_last() =~= s.subrange(0, i as int));
        assert(prefix.last() == signals@[i as int].deep_view());
        let x = &signals[i];
        let total = if dispatch {
            x.dispatch_failures_total
        } else {
            x.transform_failures_total
        };
        if total > 0 {
            push_value(&mut out, x.route_id.duplicate());
        }
        i = i + 1;
    }
    assert(s.subrange(0, i as int) =~= s);
    out
}

fn pressured_destination_ids_exec(signals: &Vec<ProxyOperatorDestinationSignal>, which: u8) -> (r: Vec<
    String,
>)
    ensures
        r.deep_view() == pressured_destination_ids(signals.deep_view(), which as int),
{
    let ghost s = signals.deep_view();
    let mut out: Vec<String> = Vec::new();
    let mut i: usize = 0;
    assert(out.deep_view() =~= pressured_destination_ids(s.subrange(0, 0), which as int));
    while i < signals.len()
        invariant
            i <= signals@.len(),
            s == signals.deep_view(),
            out.deep_view() == pressured_destination_ids(s.subrange(0, i as int), which as int),
        decreases signals@.len() - i,
    {
        let ghost prefix = s.subrange(0, i + 1);
        assert(prefix.drop_last() =~= s.subrange(0, i as int));
        assert(prefix.last() == signals@[i as int].deep_view());
        let x = &signals[i];
        let shows = if which == 0 {
            x.drops_total > 0
        } else if which == 1 {
            x.send_failures_total > 0
        } else if which == 2 {
            x.breaker_state == Some(BreakerStateSnapshot::Open)
        } else {
            x.breaker_state == Some(BreakerStateSnapshot::HalfOpen)
        };
        if shows {
            push_value(&mut out, x.destination_id.duplicate());
        }
        i = i + 1;
    }
    assert(s.subrange(0, i as int) =~= s);
    out
}

/// The runtime signals: ingresses with drops (in counter order), then the
/// routes and destinations showing each kind of pressure, in signal order.
pub open spec fn runtime_signals_view(
    status: UdpProxyStatusSnapshot,
    routes: Seq<RouteSignalView>,
    destinations: Seq<DestinationSignalView>,
) -> RuntimeSignalsView {
    RuntimeSignalsView {
        ingresses_with_drops: match status.runtime {
            Some(rt) => positive_ids(rt.ingress_drops_total.deep_view()),
            None => Seq::empty(),
        },
        routes_with_dispatch_failures: failing_route_ids(routes, true),
        routes_with_transform_failures: failing_route_ids(routes, false),
        destinations_with_drops: pressured_destination_ids(destinations, 0),
        destinations_with_send_failures: pressured_destination_ids(destinations, 1),
        destinations_with_open_breakers: pressured_destination_ids(destinations, 2),
        destinations_with_half_open_breakers: pressured_destination_ids(destinations, 3),
    }
}

/// Collects the runtime signals.
pub fn operator_runtime_signals(
    status: &UdpProxyStatusSnapshot,
    route_signals: &Vec<ProxyOperatorRouteSignal>,
    destination_signals: &Vec<ProxyOperatorDestinationSignal>,
) -> (r: ProxyOperatorRuntimeSignals)
    ensures
        r.deep_view() == runtime_signals_view(
            *status,
            route_signals.deep_view(),
            destination_signals.deep_view(),
        ),
{
    let ingresses_with_drops = match &status.runtime {
        Some(rt) => positive_ids_exec(&rt.ingress_drops_total),
        None => {
            let v: Vec<String> = Vec::new();
            assert(v.deep_view() =~= Seq::<Seq<char>>::empty());
            v
        },
    };
    ProxyOperatorRuntimeSignals {
        ingresses_with_drops,
        routes_with_dispatch_failures: failing_route_ids_exec(route_signals, true),
        routes_with_transform_failures: failing_route_ids_exec(route_signals, false),
        destinations_with_drops: pressured_destination_ids_exec(destination_signals, 0),
        destinations_with_send_failures: pressured_destination_ids_exec(destination_signals, 1),
        destinations_with_open_breakers: pressured_destination_ids_exec(destination_signals, 2),
        destinations_with_half_open_breakers: pressured_destination_ids_exec(destination_signals, 3),
    }
}

// ---------------------------------------------------------------------------
// State and highlights
// ---------------------------------------------------------------------------

/// The operator state: blocked when there are blockers; a warning when there
/// are warnings or the runtime has frozen traffic or isolated a route;
/// healthy otherwise.
pub open spec fn operator_state_view(
    status: UdpProxyStatusSnapshot,
    warnings: Seq<Seq<char>>,
    blockers: Seq<Seq<char>>,
) -> ProxyOperatorState {
    if blockers.len() > 0 {
        ProxyOperatorState::Blocked
    } else if warnings.len() > 0 || runtime_frozen(status) || runtime_isolated(status).len() > 0 {
        ProxyOperatorState::Warning
    } else {
        ProxyOperatorState::Healthy
    }
}

/// Decides the operator state.
pub fn operator_state(status: &UdpProxyStatusSnapshot, warnings: &Vec<String>, blockers: &Vec<String>) -> (r:
    ProxyOperatorState)
    ensures
        r == operator_state_view(*status, warnings.deep_view(), blockers.deep_view()),
{
    if blockers.len() > 0 {
        return ProxyOperatorState::Blocked;
    }
    let has_runtime_override = match &status.runtime {
        Some(rt) => rt.traffic_frozen || rt.isolated_route_ids.len() > 0,
        None => false,
    };
    if warnings.len() > 0 || has_runtime_override {
        ProxyOperatorState::Warning
    } else {
        ProxyOperatorState::Healthy
    }
}

/// The latest operator action, and the latest configuration event that is an issue.
#[derive(Clone, Debug, Default)]
pub struct ProxyOperatorHighlights {
    pub latest_operator_action: Option<RecentOperatorAction>,
    pub latest_config_issue: Option<RecentConfigEvent>,
}

/// Whether a configuration event is an issue: anything but a successful
/// apply or a launch profile change.
pub open spec fn is_config_issue(kind: RecentConfigEventKind) -> bool {
    kind != RecentConfigEventKind::Applied && kind != RecentConfigEventKind::LaunchProfileChanged
}

/// The latest configuration event that is an issue.
pub open spec fn latest_issue(events: Seq<ConfigEventView>) -> Option<ConfigEventView>
    decreases events.len(),
{
    if events.len() == 0 {
        None
    } else if is_config_issue(events.last().kind) {
        Some(events.last())
    } else {
        latest_issue(events.drop_last())
    }
}

/// The highlights of the runtime history, none before the proxy runs.
pub open spec fn highlights_of(status: UdpProxyStatusSnapshot) -> (Option<OperatorActionView>, Option<
    ConfigEventView,
>) {
    match status.runtime {
        Some(rt) => (
            if rt.recent_operator_actions@.len() > 0 {
                Some(rt.recent_operator_actions.deep_view().last())
            } else {
                None
            },
            latest_issue(rt.recent_config_events.deep_view()),
        ),
        None => (None, None),
    }
}

fn latest_config_issue(events: &Vec<RecentConfigEvent>) -> (r: Option<RecentConfigEvent>)
    ensures
        r.deep_view() == latest_issue(events.deep_view()),
{
    let ghost s = events.deep_view();
    let mut i: usize = events.len();
    assert(s.subrange(0, s.len() as int) =~= s);
    while i > 0
        invariant
            i <= s.len(),
            s == events.deep_view(),
            s.len() == events@.len(),
            latest_issue(s) == latest_issue(s.subrange(0, i as int)),
        decreases i,
    {
        let ghost prefix = s.subrange(0, i as int);
        assert(prefix.last() == events@[i - 1].deep_view());
        assert(prefix.drop_last() =~= s.subrange(0, i - 1));
        if events[i - 1].kind != RecentConfigEventKind::Applied && events[i - 1].kind
            != RecentConfigEventKind::LaunchProfileChanged {
            return Some(events[i - 1].duplicate());
        }
        i = i - 1;
    }
    None
}

/// Reads the highlights of the runtime history.
pub fn operator_highlights(status: &UdpProxyStatusSnapshot) -> (r: ProxyOperatorHighlights)
    ensures
        (r.latest_operator_action.deep_view(), r.latest_config_issue.deep_view()) == highlights_of(
            *status,
        ),
{
    match &status.runtime {
        Some(rt) => {
            let n = rt.recent_operator_actions.len();
            let latest_operator_action = if n > 0 {
                assert(rt.recent_operator_actions.deep_view().last()
                    == rt.recent_operator_actions@[n - 1].deep_view());
                Some(rt.recent_operator_actions[n - 1].duplicate())
            } else {
                None
            };
            ProxyOperatorHighlights {
                latest_operator_action,
                latest_config_issue: latest_config_issue(&rt.recent_config_events),
            }
        },
        None => ProxyOperatorHighlights { latest_operator_action: None, latest_config_issue: None },
    }
}

/// The label of a configuration event kind.
pub open spec fn config_event_kind_label(kind: RecentConfigEventKind) -> Seq<char> {
    match kind {
        RecentConfigEventKind::Applied => "applied"@,
        RecentConfigEventKind::Rejected => "rejected"@,
        RecentConfigEventKind::Blocked => "blocked"@,
        RecentConfigEventKind::ReloadFailed => "reload_failed"@,
        RecentConfigEventKind::LaunchProfileChanged => "launch_profile_changed"@,
    }
}

/// Labels a configuration event kind.
pub fn recent_config_event_kind_label(kind: RecentConfigEventKind) -> (r: &'static str)
    ensures
        r@ == config_event_kind_label(kind),
{
    match kind {
        RecentConfigEventKind::Applied => "applied",
        RecentConfigEventKind::Rejected => "rejected",
        RecentConfigEventKind::Blocked => "blocked",
        RecentConfigEventKind::ReloadFailed => "reload_failed",
        RecentConfigEventKind::LaunchProfileChanged => "launch_profile_changed",
    }
}

// ---------------------------------------------------------------------------
// Signals view
// ---------------------------------------------------------------------------

/// The signals of a report, all of them or the problematic ones only.
#[derive(Clone, Debug)]
pub struct ProxyOperatorSignalsView {
    pub scope: ProxyOperatorSignalScope,
    pub runtime_signals: ProxyOperatorRuntimeSignals,
    pub route_signals: Vec<ProxyOperatorRouteSignal>,
    pub destination_signals: Vec<ProxyOperatorDestinationSignal>,
}

/// The problematic route signals, in order.
pub open spec fn problematic_routes(s: Seq<ProxyOperatorRouteSignal>) -> Seq<ProxyOperatorRouteSignal>
    decreases s.len(),
{
    if s.len() == 0 {
        Seq::empty()
    } else {
        let prev = problematic_routes(s.drop_last());
        if route_signal_problematic(s.last()) {
            prev.push(s.last())
        } else {
            prev
        }
    }
}

/// The problematic destination signals, in order.
pub open spec fn problematic_destinations(s: Seq<ProxyOperatorDestinationSignal>) -> Seq<
    ProxyOperatorDestinationSignal,
>
    decreases s.len(),
{
    if s.len() == 0 {
        Seq::empty()
    } else {
        let prev = problematic_destinations(s.drop_last());
        if destination_signal_problematic(s.last()) {
            prev.push(s.last())
        } else {
            prev
        }
    }
}

/// The contents of a sequence of route signals.
pub open spec fn route_views(s: Seq<ProxyOperatorRouteSignal>) -> Seq<RouteSignalView> {
    s.map_values(|x: ProxyOperatorRouteSignal| x.deep_view())
}

/// The contents of a sequence of destination signals.
pub open spec fn destination_views(s: Seq<ProxyOperatorDestinationSignal>) -> Seq<DestinationSignalView> {
    s.map_values(|x: ProxyOperatorDestinationSignal| x.deep_view())
}

/// Selects the signals of a report: under `All` every signal, under
/// `Problematic` the problematic ones, in report order; the runtime signals
/// are kept whole.
pub fn proxy_operator_signals_view(report: &ProxyOperatorReport, scope: ProxyOperatorSignalScope) -> (r:
    ProxyOperatorSignalsView)
    ensures
        r.scope == scope,
        r.runtime_signals.deep_view() == report.runtime_signals.deep_view(),
        r.route_signals.deep_view() == route_views(
            match scope {
                ProxyOperatorSignalScope::All => report.route_signals@,
                ProxyOperatorSignalScope::Problematic => problematic_routes(report.route_signals@),
            },
        ),
        r.destination_signals.deep_view() == destination_views(
            match scope {
                ProxyOperatorSignalScope::All => report.destination_signals@,
                ProxyOperatorSignalScope::Problematic => problematic_destinations(
                    report.destination_signals@,
                ),
            },
        ),
{
    let all = scope == ProxyOperatorSignalScope::All;
    let routes = &report.route_signals;
    let mut route_signals: Vec<ProxyOperatorRouteSignal> = Vec::new();
    let mut i: usize = 0;
    assert(route_signals.deep_view() =~= route_views(problematic_routes(routes@.subrange(0, 0))));
    assert(route_signals.deep_view() =~= route_views(routes@.subrange(0, 0)));
    while i < routes.len()
        invariant
            i <= routes@.len(),
            all == (scope == ProxyOperatorSignalScope::All),
            all ==> route_signals.deep_view() == route_views(routes@.subrange(0, i as int)),
            !all ==> route_signals.deep_view() == route_views(
                problematic_routes(routes@.subrange(0, i as int)),
            ),
        decreases routes@.len() - i,
    {
        let ghost prefix = routes@.subrange(0, i + 1);
        assert(prefix.drop_last() =~= routes@.subrange(0, i as int));
        assert(prefix.last() == routes@[i as int]);
        let ghost before = route_signals.deep_view();
        if all || routes[i].is_problematic() {
            push_value(&mut route_signals, routes[i].duplicate());
        }
        proof {
            if all {
                assert(route_signals.deep_view() =~= route_views(prefix));
            } else {
                let p = problematic_routes(prefix.drop_last());
                if route_signal_problematic(prefix.last()) {
                    assert(route_views(p.push(prefix.last())) =~= route_views(p).push(
                        prefix.last().deep_view(),
                    ));
                }
            }
        }
        i = i + 1;
    }
    assert(routes@.subrange(0, i as int) =~= routes@);
    let destinations = &report.destination_signals;
    let mut destination_signals: Vec<ProxyOperatorDestinationSignal> = Vec::new();
    let mut k: usize = 0;
    assert(destination_signals.deep_view() =~= destination_views(
        problematic_destinations(destinations@.subrange(0, 0)),
    ));
    assert(destination_signals.deep_view() =~= destination_views(destinations@.subrange(0, 0)));
    while k < destinations.len()
        invariant
            k <= destinations@.len(),
            all == (scope == ProxyOperatorSignalScope::All),
            all ==> destination_signals.deep_view() == destination_views(
                destinations@.subrange(0, k as int),
            ),
            !all ==> destination_signals.deep_view() == destination_views(
                problematic_destinations(destinations@.subrange(0, k as int)),
            ),
        decreases destinations@.len() - k,
    {
        let ghost prefix = destinations@.subrange(0, k + 1);
        assert(prefix.drop_last() =~= destinations@.subrange(0, k as int));
        assert(prefix.last() == destinations@[k as int]);
        if all || destinations[k].is_problematic() {
            push_value(&mut destination_signals, destinations[k].duplicate());
        }
        proof {
            if all {
                assert(destination_signals.deep_view() =~= destination_views(prefix));
            } else {
                let p = problematic_destinations(prefix.drop_last());
                if destination_signal_problematic(prefix.last()) {
                    assert(destination_views(p.push(prefix.last())) =~= destination_views(p).push(
                        prefix.last().deep_view(),
                    ));
                }
            }
        }
        k = k + 1;
    }
    assert(destinations@.subrange(0, k as int) =~= destinations@);
    ProxyOperatorSignalsView {
        scope,
        runtime_signals: report.runtime_signals.duplicate(),
        route_signals,
        destination_signals,
    }
}

// ---------------------------------------------------------------------------
// Report lines
// ---------------------------------------------------------------------------

/// The summary line.
pub open spec fn summary_line(s: UdpProxySummary) -> Seq<char> {
    "proxy summary: active_routes="@ + decimal(s.active_routes as nat) + " disabled_routes="@
        + decimal(s.disabled_routes as nat) + " active_ingresses="@ + decimal(
        s.active_ingresses as nat,
    ) + " active_destinations="@ + decimal(s.active_destinations as nat)
        + " fallback_ready_routes="@ + decimal(s.fallback_ready_routes as nat)
        + " fallback_missing_routes="@ + decimal(s.fallback_missing_routes as nat) + " warnings="@
        + decimal(s.warning_count as nat)
}

/// The launch profile line.
pub open spec fn launch_line(l: ProxyLaunchProfileStatus) -> Seq<char> {
    "proxy launch profile: mode="@ + mode_label(l.mode) + " disabled_capture_routes="@ + decimal(
        l.disabled_capture_routes@.len(),
    ) + " disabled_replay_routes="@ + decimal(l.disabled_replay_routes@.len())
        + " disabled_restart_rehydrate_routes="@ + decimal(
        l.disabled_restart_rehydrate_routes@.len(),
    )
}

/// The runtime line.
pub open spec fn runtime_line(rt: UdpProxyRuntimeStatus) -> Seq<char> {
    "proxy runtime: traffic_frozen="@ + bool_text(rt.traffic_frozen) + " isolated_routes="@
        + decimal(rt.isolated_route_ids@.len()) + " config_revision="@ + decimal(
        rt.config_revision as nat,
    ) + " config_rejections_total="@ + decimal(rt.config_rejections_total as nat)
        + " config_blocked_total="@ + decimal(rt.config_blocked_total as nat)
        + " config_reload_failures_total="@ + decimal(rt.config_reload_failures_total as nat)
}

/// The startup report: summary, launch profile, the runtime line once the
/// proxy runs, then one line per warning.
pub open spec fn startup_lines(status: UdpProxyStatusSnapshot, warnings: Seq<Seq<char>>) -> Seq<
    Seq<char>,
> {
    seq![summary_line(status.summary), launch_line(status.launch_profile)] + (match status.runtime {
        Some(rt) => seq![runtime_line(rt)],
        None => Seq::empty(),
    }) + prefixed("proxy warning: "@, warnings)
}

fn summary_line_exec(s: &UdpProxySummary) -> (r: String)
    ensures
        r@ == summary_line(*s),
{
    let mut line = owned("");
    append_count(&mut line, "proxy summary: active_routes=", s.active_routes);
    append_count(&mut line, " disabled_routes=", s.disabled_routes);
    append_count(&mut line, " active_ingresses=", s.active_ingresses);
    append_count(&mut line, " active_destinations=", s.active_destinations);
    append_count(&mut line, " fallback_ready_routes=", s.fallback_ready_routes);
    append_count(&mut line, " fallback_missing_routes=", s.fallback_missing_routes);
    append_count(&mut line, " warnings=", s.warning_count);
    proof {
        reveal_strlit("");
    }
    assert(line@ =~= summary_line(*s));
    line
}

fn launch_line_exec(l: &ProxyLaunchProfileStatus) -> (r: String)
    ensures
        r@ == launch_line(*l),
{
    let mut line = owned("");
    append_text(&mut line, "proxy launch profile: mode=", l.mode.as_str());
    append_count(&mut line, " disabled_capture_routes=", l.disabled_capture_routes.len());
    append_count(&mut line, " disabled_replay_routes=", l.disabled_replay_routes.len());
    append_count(
        &mut line,
        " disabled_restart_rehydrate_routes=",
        l.disabled_restart_rehydrate_routes.len(),
    );
    proof {
        reveal_strlit("");
    }
    assert(line@ =~= launch_line(*l));
    line
}

fn runtime_line_exec(rt: &UdpProxyRuntimeStatus) -> (r: String)
    ensures
        r@ == runtime_line(*rt),
{
    let mut line = owned("");
    append_flag(&mut line, "proxy runtime: traffic_frozen=", rt.traffic_frozen);
    append_count(&mut line, " isolated_routes=", rt.isolated_route_ids.len());
    append_total(&mut line, " config_revision=", rt.config_revision);
    append_total(&mut line, " config_rejections_total=", rt.config_rejections_total);
    append_total(&mut line, " config_blocked_total=", rt.config_blocked_total);
    append_total(&mut line, " config_reload_failures_total=", rt.config_reload_failures_total);
    proof {
        reveal_strlit("");
    }
    assert(line@ =~= runtime_line(*rt));
    line
}

/// The startup report lines of a status snapshot, given the warnings its
/// assessment produced.
pub fn proxy_startup_report_lines(status: &UdpProxyStatusSnapshot, warnings: &Vec<String>) -> (r: Vec<
    String,
>)
    ensures
        r.deep_view() == startup_lines(*status, warnings.deep_view()),
{
    let mut lines: Vec<String> = Vec::new();
    push_value(&mut lines, summary_line_exec(&status.summary));
    push_value(&mut lines, launch_line_exec(&status.launch_profile));
    let ghost head = lines.deep_view();
    match &status.runtime {
        Some(rt) => {
            push_value(&mut lines, runtime_line_exec(rt));
        },
        None => {},
    }
    let ghost middle = lines.deep_view();
    assert(middle =~= seq![summary_line(status.summary), launch_line(status.launch_profile)]
        + (match status.runtime {
        Some(rt) => seq![runtime_line(rt)],
        None => Seq::empty(),
    }));
    push_prefixed(&mut lines, "proxy warning: ", warnings);
    lines
}

/// The operator state line.
pub open spec fn state_line(
    state: ProxyOperatorState,
    warnings: nat,
    blockers: nat,
    highlights: (Option<OperatorActionView>, Option<ConfigEventView>),
) -> Seq<char> {
    "proxy operator state: state="@ + state_label_of(state) + " warnings="@ + decimal(warnings)
        + " blockers="@ + decimal(blockers) + " latest_operator_action="@ + (match highlights.0 {
        Some(a) => a.action,
        None => "none"@,
    }) + " latest_config_issue="@ + (match highlights.1 {
        Some(e) => config_event_kind_label(e.kind),
        None => "none"@,
    })
}

/// The overrides line.
pub open spec fn overrides_line(o: OverridesView) -> Seq<char> {
    "proxy overrides: launch_profile_mode="@ + o.launch_profile_mode + " traffic_frozen="@
        + bool_text(o.traffic_frozen) + " isolated_routes="@ + decimal(o.isolated_route_ids.len())
        + " disabled_capture_routes="@ + decimal(o.disabled_capture_routes.len())
        + " disabled_replay_routes="@ + decimal(o.disabled_replay_routes.len())
        + " disabled_restart_rehydrate_routes="@ + decimal(o.disabled_restart_rehydrate_routes.len())
}

/// The runtime signals line.
pub open spec fn signals_line(r: RuntimeSignalsView) -> Seq<char> {
    "proxy runtime signals: ingresses_with_drops="@ + decimal(r.ingresses_with_drops.len())
        + " routes_with_dispatch_failures="@ + decimal(r.routes_with_dispatch_failures.len())
        + " routes_with_transform_failures="@ + decimal(r.routes_with_transform_failures.len())
        + " destinations_with_drops="@ + decimal(r.destinations_with_drops.len())
        + " destinations_with_send_failures="@ + decimal(r.destinations_with_send_failures.len())
        + " destinations_with_open_breakers="@ + decimal(r.destinations_with_open_breakers.len())
        + " destinations_with_half_open_breakers="@ + decimal(
        r.destinations_with_half_open_breakers.len(),
    )
}

/// The safety policy line.
pub open spec fn policy_line(p: ProxyRuntimeSafetyPolicy) -> Seq<char> {
    "proxy safety policy: fail_on_warnings="@ + bool_text(p.fail_on_warnings)
        + " require_fallback_ready="@ + bool_text(p.require_fallback_ready)
}

/// The route signals of a status snapshot.
pub open spec fn route_signals_view(status: UdpProxyStatusSnapshot) -> Seq<RouteSignalView> {
    status.route_assessments@.map_values(|a: UdpProxyRouteAssessment| route_signal_of(status, a))
}

/// The destination signals of a status snapshot.
pub open spec fn destination_signals_view(status: UdpProxyStatusSnapshot) -> Seq<DestinationSignalView> {
    status.destinations@.map_values(|d: UdpProxyDestinationStatus| destination_signal_of(status, d))
}

/// Every line of the operator report.
pub open spec fn report_lines_view(
    status: UdpProxyStatusSnapshot,
    policy: ProxyRuntimeSafetyPolicy,
    warnings: Seq<Seq<char>>,
    blockers: Seq<Seq<char>>,
) -> Seq<Seq<char>> {
    startup_lines(status, warnings) + seq![
        state_line(
            operator_state_view(status, warnings, blockers),
            warnings.len(),
            blockers.len(),
            highlights_of(status),
        ),
        overrides_line(overrides_view(status)),
        signals_line(
            runtime_signals_view(status, route_signals_view(status), destination_signals_view(status)),
        ),
        policy_line(policy),
    ] + prefixed("proxy blocker: "@, blockers)
}

fn state_line_exec(
    state: ProxyOperatorState,
    warnings: usize,
    blockers: usize,
    highlights: &ProxyOperatorHighlights,
) -> (r: String)
    ensures
        r@ == state_line(
            state,
            warnings as nat,
            blockers as nat,
            (highlights.latest_operator_action.deep_view(), highlights.latest_config_issue.deep_view()),
        ),
{
    let mut line = owned("");
    append_text(&mut line, "proxy operator state: state=", state.as_str());
    append_count(&mut line, " warnings=", warnings);
    append_count(&mut line, " blockers=", blockers);
    let action = match &highlights.latest_operator_action {
        Some(a) => a.action.as_str(),
        None => "none",
    };
    append_text(&mut line, " latest_operator_action=", action);
    let issue = match &highlights.latest_config_issue {
        Some(e) => recent_config_event_kind_label(e.kind),
        None => "none",
    };
    append_text(&mut line, " latest_config_issue=", issue);
    proof {
        reveal_strlit("");
    }
    assert(line@ =~= state_line(
        state,
        warnings as nat,
        blockers as nat,
        (highlights.latest_operator_action.deep_view(), highlights.latest_config_issue.deep_view()),
    ));
    line
}

fn overrides_line_exec(o: &ProxyOperatorOverrides) -> (r: String)
    ensures
        r@ == overrides_line(o.deep_view()),
{
    let mut line = owned("");
    append_text(&mut line, "proxy overrides: launch_profile_mode=", o.launch_profile_mode.as_str());
    append_flag(&mut line, " traffic_frozen=", o.traffic_frozen);
    append_count(&mut line, " isolated_routes=", o.isolated_route_ids.len());
    append_count(&mut line, " disabled_capture_routes=", o.disabled_capture_routes.len());
    append_count(&mut line, " disabled_replay_routes=", o.disabled_replay_routes.len());
    append_count(
        &mut line,
        " disabled_restart_rehydrate_routes=",
        o.disabled_restart_rehydrate_routes.len(),
    );
    proof {
        reveal_strlit("");
    }
    assert(line@ =~= overrides_line(o.deep_view()));
    line
}

fn signals_line_exec(r: &ProxyOperatorRuntimeSignals) -> (out: String)
    ensures
        out@ == signals_line(r.deep_view()),
{
    let mut line = owned("");
    append_count(&mut line, "proxy runtime signals: ingresses_with_drops=", r.ingresses_with_drops.len());
    append_count(&mut line, " routes_with_dispatch_failures=", r.routes_with_dispatch_failures.len());
    append_count(
        &mut line,
        " routes_with_transform_failures=",
        r.routes_with_transform_failures.len(),
    );
    append_count(&mut line, " destinations_with_drops=", r.destinations_with_drops.len());
    append_count(
        &mut line,
        " destinations_with_send_failures=",
        r.destinations_with_send_failures.len(),
    );
    append_count(
        &mut line,
        " destinations_with_open_breakers=",
        r.destinations_with_open_breakers.len(),
    );
    append_count(
        &mut line,
        " destinations_with_half_open_breakers=",
        r.destinations_with_half_open_breakers.len(),
    );
    proof {
        reveal_strlit("");
    }
    assert(line@ =~= signals_line(r.deep_view()));
    line
}

fn policy_line_exec(p: ProxyRuntimeSafetyPolicy) -> (r: String)
    ensures
        r@ == policy_line(p),
{
    let mut line = owned("");
    append_flag(&mut line, "proxy safety policy: fail_on_warnings=", p.fail_on_warnings);
    append_flag(&mut line, " require_fallback_ready=", p.require_fallback_ready);
    proof {
        reveal_strlit("");
    }
    assert(line@ =~= policy_line(p));
    line
}

/// Builds the operator report of a status snapshot under a safety policy,
/// given the warnings and the blockers the snapshot's assessment produced
/// under that policy.
pub fn proxy_operator_report(
    status: &UdpProxyStatusSnapshot,
    policy: ProxyRuntimeSafetyPolicy,
    warnings: Vec<String>,
    blockers: Vec<String>,
) -> (r: ProxyOperatorReport)
    ensures
        r.state == operator_state_view(*status, warnings.deep_view(), blockers.deep_view()),
        r.policy == policy,
        r.warnings.deep_view() == warnings.deep_view(),
        r.blockers.deep_view() == blockers.deep_view(),
        r.overrides.deep_view() == overrides_view(*status),
        r.route_signals.deep_view() == route_signals_view(*status),
        r.destination_signals.deep_view() == destination_signals_view(*status),
        r.runtime_signals.deep_view() == runtime_signals_view(
            *status,
            route_signals_view(*status),
            destination_signals_view(*status),
        ),
        (r.highlights.latest_operator_action.deep_view(), r.highlights.latest_config_issue.deep_view())
            == highlights_of(*status),
        r.report_lines.deep_view() == report_lines_view(
            *status,
            policy,
            warnings.deep_view(),
            blockers.deep_view(),
        ),
{
    let overrides = operator_overrides(status);
    let route_signals = operator_route_signals(status);
    let destination_signals = operator_destination_signals(status);
    let runtime_signals = operator_runtime_signals(status, &route_signals, &destination_signals);
    let highlights = operator_highlights(status);
    let state = operator_state(status, &warnings, &blockers);
    let mut report_lines = proxy_startup_report_lines(status, &warnings);
    push_value(
        &mut report_lines,
        state_line_exec(state, warnings.len(), blockers.len(), &highlights),
    );
    push_value(&mut report_lines, overrides_line_exec(&overrides));
    push_value(&mut report_lines, signals_line_exec(&runtime_signals));
    push_value(&mut report_lines, policy_line_exec(policy));
    let ghost middle = report_lines.deep_view();
    push_prefixed(&mut report_lines, "proxy blocker: ", &blockers);
    assert(report_lines.deep_view() =~= report_lines_view(
        *status,
        policy,
        warnings.deep_view(),
        blockers.deep_view(),
    ));
    ProxyOperatorReport {
        state,
        policy,
        warnings,
        blockers,
        overrides,
        runtime_signals,
        route_signals,
        destination_signals,
        highlights,
        report_lines,
    }
}

} // verus!
