//! Views of an operator report: the overview, what needs attention, the open
//! incidents and the diagnostics with bounded recent history.
use vstd::prelude::*;

use crate::history::{bounded_recent_entries, bounded_view, config_issues};
use crate::policy::{
    DestinationSignalView, ProxyOperatorDestinationSignal, ProxyOperatorRouteSignal,
    ProxyOperatorSignalScope, ProxyRuntimeSafetyPolicy, destination_signal_problematic,
    route_signal_problematic,
};
use crate::report::{
    destination_views, problematic_destinations, problematic_routes, proxy_operator_report,
    proxy_operator_signals_view, route_views,
};
use crate::snapshot::{
    ProxyOperatorAttention, ProxyOperatorIncidents, ProxyOperatorOverview, ProxyOperatorReport,
};
use crate::status::{
    ConfigEventView, OperatorActionView, RecentConfigEvent, RecentConfigEventKind,
    RecentOperatorAction, UdpProxyStatusSnapshot,
};
use crate::values::{duplicate_all, lemma_map_push, push_value, OperatorValue};

verus! {

/// Builds the overview of a status snapshot, which it keeps: its report,
/// given the warnings and blockers its assessment produced, and the report's
/// problematic signals.
pub fn proxy_operator_overview(
    status: UdpProxyStatusSnapshot,
    policy: ProxyRuntimeSafetyPolicy,
    warnings: Vec<String>,
    blockers: Vec<String>,
) -> (r: ProxyOperatorOverview)
    ensures
        r.status == status,
        r.report.policy == policy,
        r.report.state == crate::report::operator_state_view(
            status,
            warnings.deep_view(),
            blockers.deep_view(),
        ),
        r.report.warnings.deep_view() == warnings.deep_view(),
        r.report.blockers.deep_view() == blockers.deep_view(),
        r.report.report_lines.deep_view() == crate::report::report_lines_view(
            status,
            policy,
            warnings.deep_view(),
            blockers.deep_view(),
        ),
        r.problematic_signals.scope == ProxyOperatorSignalScope::Problematic,
        r.problematic_signals.runtime_signals.deep_view() == r.report.runtime_signals.deep_view(),
        r.problematic_signals.route_signals.deep_view() == route_views(
            problematic_routes(r.report.route_signals@),
        ),
        r.problematic_signals.destination_signals.deep_view() == destination_views(
            problematic_destinations(r.report.destination_signals@),
        ),
{
    let report = proxy_operator_report(&status, policy, warnings, blockers);
    let problematic_signals = proxy_operator_signals_view(&report, ProxyOperatorSignalScope::Problematic);
    ProxyOperatorOverview { status, report, problematic_signals }
}

/// Ids of the problematic route signals, in order.
pub open spec fn problematic_route_ids(s: Seq<ProxyOperatorRouteSignal>) -> Seq<Seq<char>> {
    problematic_routes(s).map_values(|x: ProxyOperatorRouteSignal| x.route_id@)
}

/// Ids of the problematic destination signals, in order.
pub open spec fn problematic_destination_ids(s: Seq<ProxyOperatorDestinationSignal>) -> Seq<Seq<char>> {
    problematic_destinations(s).map_values(|x: ProxyOperatorDestinationSignal| x.destination_id@)
}

/// Ids of the destinations with a backlog, in order.
pub open spec fn backlog_ids(s: Seq<DestinationSignalView>) -> Seq<Seq<char>>
    decreases s.len(),
{
    if s.len() == 0 {
        Seq::empty()
    } else {
        let prev = backlog_ids(s.drop_last());
        if s.last().queue_depth > 0 {
            prev.push(s.last().destination_id)
        } else {
            prev
        }
    }
}

fn problematic_route_ids_exec(signals: &Vec<ProxyOperatorRouteSignal>) -> (r: Vec<String>)
    ensures
        r.deep_view() == problematic_route_ids(signals@),
{
    let mut out: Vec<String> = Vec::new();
    let mut i: usize = 0;
    assert(out.deep_view() =~= problematic_route_ids(signals@.subrange(0, 0)));
    while i < signals.len()
        invariant
            i <= signals@.len(),
            out.deep_view() == problematic_route_ids(signals@.subrange(0, i as int)),
        decreases signals@.len() - i,
    {
        let ghost prefix = signals@.subrange(0, i + 1);
        assert(prefix.drop_last() =~= signals@.subrange(0, i as int));
        assert(prefix.last() == signals@[i as int]);
        if signals[i].is_problematic() {
            push_value(&mut out, signals[i].route_id.duplicate());
            proof {
                lemma_map_push(
                    problematic_routes(prefix.drop_last()),
                    prefix.last(),
                    |x: ProxyOperatorRouteSignal| x.route_id@,
                );
            }
        }
        i = i + 1;
    }
    assert(signals@.subrange(0, i as int) =~= signals@);
    out
}

fn problematic_destination_ids_exec(signals: &Vec<ProxyOperatorDestinationSignal>) -> (r: Vec<String>)
    ensures
        r.deep_view() == problematic_destination_ids(signals@),
{
    let mut out: Vec<String> = Vec::new();
    let mut i: usize = 0;
    assert(out.deep_view() =~= problematic_destination_ids(signals@.subrange(0, 0)));
    while i < signals.len()
        invariant
            i <= signals@.len(),
            out.deep_view() == problematic_destination_ids(signals@.subrange(0, i as int)),
        decreases signals@.len() - i,
    {
        let ghost prefix = signals@.subrange(0, i + 1);
        assert(prefix.drop_last() =~= signals@.subrange(0, i as int));
        assert(prefix.last() == signals@[i as int]);
        if signals[i].is_problematic() {
            push_value(&mut out, signals[i].destination_id.duplicate());
            proof {
                lemma_map_push(
                    problematic_destinations(prefix.drop_last()),
                    prefix.last(),
                    |x: ProxyOperatorDestinationSignal| x.destination_id@,
                );
            }
        }
        i = i + 1;
    }
    assert(signals@.subrange(0, i as int) =~= signals@);
    out
}

fn backlog_ids_exec(signals: &Vec<ProxyOperatorDestinationSignal>) -> (r: Vec<String>)
    ensures
        r.deep_view() == backlog_ids(signals.deep_view()),
{
    let ghost s = signals.deep_view();
    let mut out: Vec<String> = Vec::new();
    let mut i: usize = 0;
    assert(out.deep_view() =~= backlog_ids(s.subrange(0, 0)));
    while i < signals.len()
        invariant
            i <= signals@.len(),
            s == signals.deep_view(),
            out.deep_view() == backlog_ids(s.subrange(0, i as int)),
        decreases signals@.len() - i,
    {
        let ghost prefix = s.subrange(0, i + 1);
        assert(prefix.drop_last() =~= s.subrange(0, i as int));
        assert(prefix.last() == signals@[i as int].deep_view());
        if signals[i].queue_depth > 0 {
            push_value(&mut out, signals[i].destination_id.duplicate());
        }
        i = i + 1;
    }
    assert(s.subrange(0, i as int) =~= s);
    out
}

/// What needs the operator's attention, read off a report: its state,
/// blockers, warnings, overrides and highlights, the problematic routes and
/// destinations, those with a backlog and those with open or half-open breakers.
pub fn proxy_operator_attention(report: &ProxyOperatorReport) -> (r: ProxyOperatorAttention)
    ensures
        r.state == report.state,
        r.blockers.deep_view() == report.blockers.deep_view(),
        r.warnings.deep_view() == report.warnings.deep_view(),
        r.traffic_frozen == report.overrides.traffic_frozen,
        r.isolated_route_ids.deep_view() == report.overrides.isolated_route_ids.deep_view(),
        r.latest_operator_action.deep_view() == report.highlights.latest_operator_action.deep_view(),
        r.latest_config_issue.deep_view() == report.highlights.latest_config_issue.deep_view(),
        r.problematic_route_ids.deep_view() == problematic_route_ids(report.route_signals@),
        r.problematic_destination_ids.deep_view() == problematic_destination_ids(
            report.destination_signals@,
        ),
        r.destinations_with_backlog.deep_view() == backlog_ids(report.destination_signals.deep_view()),
        r.destinations_with_open_breakers.deep_view()
            == report.runtime_signals.destinations_with_open_breakers.deep_view(),
        r.destinations_with_half_open_breakers.deep_view()
            == report.runtime_signals.destinations_with_half_open_breakers.deep_view(),
{
    ProxyOperatorAttention {
        state: report.state,
        blockers: duplicate_all(&report.blockers),
        warnings: duplicate_all(&report.warnings),
        traffic_frozen: report.overrides.traffic_frozen,
        isolated_route_ids: duplicate_all(&report.overrides.isolated_route_ids),
        latest_operator_action: report.highlights.latest_operator_action.duplicate(),
        latest_config_issue: report.highlights.latest_config_issue.duplicate(),
        problematic_route_ids: problematic_route_ids_exec(&report.route_signals),
        problematic_destination_ids: problematic_destination_ids_exec(&report.destination_signals),
        destinations_with_backlog: backlog_ids_exec(&report.destination_signals),
        destinations_with_open_breakers: duplicate_all(
            &report.runtime_signals.destinations_with_open_breakers,
        ),
        destinations_with_half_open_breakers: duplicate_all(
            &report.runtime_signals.destinations_with_half_open_breakers,
        ),
    }
}

fn problematic_route_signals(signals: &Vec<ProxyOperatorRouteSignal>) -> (r: Vec<ProxyOperatorRouteSignal>)
    ensures
        r.deep_view() == route_views(problematic_routes(signals@)),
{
    let mut out: Vec<ProxyOperatorRouteSignal> = Vec::new();
    let mut i: usize = 0;
    assert(out.deep_view() =~= route_views(problematic_routes(signals@.subrange(0, 0))));
    while i < signals.len()
        invariant
            i <= signals@.len(),
            out.deep_view() == route_views(problematic_routes(signals@.subrange(0, i as int))),
        decreases signals@.len() - i,
    {
        let ghost prefix = signals@.subrange(0, i + 1);
        assert(prefix.drop_last() =~= signals@.subrange(0, i as int));
        assert(prefix.last() == signals@[i as int]);
        if signals[i].is_problematic() {
            push_value(&mut out, signals[i].duplicate());
            assert(route_views(problematic_routes(prefix)) =~= route_views(
                problematic_routes(prefix.drop_last()),
            ).push(prefix.last().deep_view()));
        }
        i = i + 1;
    }
    assert(signals@.subrange(0, i as int) =~= signals@);
    out
}

fn problematic_destination_signals(signals: &Vec<ProxyOperatorDestinationSignal>) -> (r: Vec<
    ProxyOperatorDestinationSignal,
>)
    ensures
        r.deep_view() == destination_views(problematic_destinations(signals@)),
{
    let mut out: Vec<ProxyOperatorDestinationSignal> = Vec::new();
    let mut i: usize = 0;
    assert(out.deep_view() =~= destination_views(problematic_destinations(signals@.subrange(0, 0))));
    while i < signals.len()
        invariant
            i <= signals@.len(),
            out.deep_view() == destination_views(
                problematic_destinations(signals@.subrange(0, i as int)),
            ),
        decreases signals@.len() - i,
    {
        let ghost prefix = signals@.subrange(0, i + 1);
        assert(prefix.drop_last() =~= signals@.subrange(0, i as int));
        assert(prefix.last() == signals@[i as int]);
        if signals[i].is_problematic() {
            push_value(&mut out, signals[i].duplicate());
            assert(destination_views(problematic_destinations(prefix)) =~= destination_views(
                problematic_destinations(prefix.drop_last()),
            ).push(prefix.last().deep_view()));
        }
        i = i + 1;
    }
    assert(signals@.subrange(0, i as int) =~= signals@);
    out
}

/// The open incidents of a report with the given recent history: the
/// report's state, blockers, warnings and highlights, the newest
/// `history_limit` operator actions and configuration issues, and the
/// problematic routes and destinations.
pub fn proxy_operator_incidents_from_histories(
    report: &ProxyOperatorReport,
    recent_operator_actions: Vec<RecentOperatorAction>,
    recent_config_events: Vec<RecentConfigEvent>,
    history_limit: Option<usize>,
) -> (r: ProxyOperatorIncidents)
    ensures
        r.state == report.state,
        r.open_blockers.deep_view() == report.blockers.deep_view(),
        r.open_warnings.deep_view() == report.warnings.deep_view(),
        r.latest_operator_action.deep_view() == report.highlights.latest_operator_action.deep_view(),
        r.latest_config_issue.deep_view() == report.highlights.latest_config_issue.deep_view(),
        r.recent_operator_actions@ == bounded_view(recent_operator_actions@, history_limit),
        r.recent_config_issues.deep_view() == bounded_view(
            config_issues(recent_config_events.deep_view()),
            history_limit,
        ),
        r.problematic_routes.deep_view() == route_views(problematic_routes(report.route_signals@)),
        r.problematic_destinations.deep_view() == destination_views(
            problematic_destinations(report.destination_signals@),
        ),
{
    ProxyOperatorIncidents {
        state: report.state,
        open_blockers: duplicate_all(&report.blockers),
        open_warnings: duplicate_all(&report.warnings),
        latest_operator_action: report.highlights.latest_operator_action.duplicate(),
        latest_config_issue: report.highlights.latest_config_issue.duplicate(),
        recent_operator_actions: bounded_recent_entries(recent_operator_actions, history_limit),
        recent_config_issues: crate::history::bounded_recent_config_issues(
            recent_config_events,
            history_limit,
        ),
        problematic_routes: problematic_route_signals(&report.route_signals),
        problematic_destinations: problematic_destination_signals(&report.destination_signals),
    }
}

/// The open incidents of a report, without recent history.
pub fn proxy_operator_incidents(report: &ProxyOperatorReport, history_limit: Option<usize>) -> (r:
    ProxyOperatorIncidents)
    ensures
        r.state == report.state,
        r.open_blockers.deep_view() == report.blockers.deep_view(),
        r.open_warnings.deep_view() == report.warnings.deep_view(),
        r.latest_operator_action.deep_view() == report.highlights.latest_operator_action.deep_view(),
        r.latest_config_issue.deep_view() == report.highlights.latest_config_issue.deep_view(),
        r.recent_operator_actions@.len() == 0,
        r.recent_config_issues@.len() == 0,
        r.problematic_routes.deep_view() == route_views(problematic_routes(report.route_signals@)),
        r.problematic_destinations.deep_view() == destination_views(
            problematic_destinations(report.destination_signals@),
        ),
{
    let r = proxy_operator_incidents_from_histories(report, Vec::new(), Vec::new(), history_limit);
    assert(r.recent_config_issues.deep_view().len() == r.recent_config_issues@.len());
    r
}

/// The diagnostics of a status snapshot: its overview and the newest
/// `history_limit` operator actions and configuration events of its runtime.
#[derive(Clone, Debug)]
pub struct ProxyOperatorDiagnostics {
    pub overview: ProxyOperatorOverview,
    pub recent_operator_actions: Vec<RecentOperatorAction>,
    pub recent_config_events: Vec<RecentConfigEvent>,
}

/// The operator actions of the runtime, none before the proxy runs.
pub open spec fn runtime_actions(status: UdpProxyStatusSnapshot) -> Seq<OperatorActionView> {
    match status.runtime {
        Some(rt) => rt.recent_operator_actions.deep_view(),
        None => Seq::empty(),
    }
}

/// The configuration events of the runtime, none before the proxy runs.
pub open spec fn runtime_events(status: UdpProxyStatusSnapshot) -> Seq<ConfigEventView> {
    match status.runtime {
        Some(rt) => rt.recent_config_events.deep_view(),
        None => Seq::empty(),
    }
}

proof fn lemma_bounded_deep<T: DeepView>(v: Seq<T>, limit: Option<usize>, r: Seq<T>)
    requires
        r == bounded_view(v, limit),
    ensures
        r.map_values(|x: T| x.deep_view()) == bounded_view(v.map_values(|x: T| x.deep_view()), limit),
{
    assert(r.map_values(|x: T| x.deep_view()) =~= bounded_view(
        v.map_values(|x: T| x.deep_view()),
        limit,
    ));
}

/// Builds the diagnostics of a status snapshot, given the warnings and
/// blockers its assessment produced under the policy.
pub fn proxy_operator_diagnostics(
    status: UdpProxyStatusSnapshot,
    policy: ProxyRuntimeSafetyPolicy,
    history_limit: Option<usize>,
    warnings: Vec<String>,
    blockers: Vec<String>,
) -> (r: ProxyOperatorDiagnostics)
    ensures
        r.overview.status == status,
        r.overview.report.policy == policy,
        r.overview.report.warnings.deep_view() == warnings.deep_view(),
        r.overview.report.blockers.deep_view() == blockers.deep_view(),
        r.recent_operator_actions.deep_view() == bounded_view(runtime_actions(status), history_limit),
        r.recent_config_events.deep_view() == bounded_view(runtime_events(status), history_limit),
{
    let (actions, events) = match &status.runtime {
        Some(rt) => (duplicate_all(&rt.recent_operator_actions), duplicate_all(&rt.recent_config_events)),
        None => {
            let a: Vec<RecentOperatorAction> = Vec::new();
            let e: Vec<RecentConfigEvent> = Vec::new();
            assert(a.deep_view() =~= Seq::<OperatorActionView>::empty());
            assert(e.deep_view() =~= Seq::<ConfigEventView>::empty());
            (a, e)
        },
    };
    let ghost av = actions@;
    let ghost ev = events@;
    let recent_operator_actions = bounded_recent_entries(actions, history_limit);
    let recent_config_events = bounded_recent_entries(events, history_limit);
    proof {
        lemma_bounded_deep(av, history_limit, recent_operator_actions@);
        lemma_bounded_deep(ev, history_limit, recent_config_events@);
    }
    let overview = proxy_operator_overview(status, policy, warnings, blockers);
    ProxyOperatorDiagnostics { overview, recent_operator_actions, recent_config_events }
}

} // verus!
