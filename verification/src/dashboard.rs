//! Dashboard figures: traffic totals and hotspots of the runtime, the
//! operator timeline, and the states of route and destination details.
use vstd::prelude::*;

use crate::details::{
    destination_details_from_snapshot, destination_details_view, route_details_from_snapshot,
    route_details_view, DestinationDetailView, ProxyOperatorDestinationDetail,
    ProxyOperatorRouteDetail, RouteDetailView,
};
use crate::brief::{
    destination_brief_view, proxy_operator_brief_from_dashboard, route_brief_view,
    ProxyOperatorBriefCatalog,
};
use crate::context::{global_blockers_view, global_overrides_view};
use crate::focus::{
    destination_focus_view, proxy_operator_focus_from_dashboard, route_focus_view,
    DestinationFocusView, ProxyOperatorFocusCatalog, RouteFocusView,
};
use crate::lens::{
    destination_lens_view, proxy_operator_lens_from_dashboard, route_lens_view,
    ProxyOperatorLensCatalog,
};
use crate::policy::state_label_of;
use crate::model::{ProxyOperatorTimelineCategory, ProxyOperatorTimelineEntry, TimelineEntryView};
use crate::snapshot::ProxyOperatorSnapshot;
use crate::trace::{ProxyOperatorTimelineCatalog, ProxyOperatorTraceCatalog};
use crate::policy::{BreakerStateSnapshot, ProxyOperatorRouteSignal};
use crate::sorting::{
    entry_values, entry_views, key_view, sort_by_key, sort_entries, strip_keys, KeyView, SortKey,
};
use crate::status::{
    counter_for, counter_value, ConfigEventView, DestinationRuntimeView, OperatorActionView,
    ProxyOperatorCounterEntry, RecentConfigEvent, RecentConfigEventKind, RecentOperatorAction,
    UdpProxyDestinationRuntimeStatus, UdpProxyRouteAssessment, UdpProxyRuntimeStatus,
};
use crate::text::{decimal, decimal_string, join2, owned, utf8};
use crate::values::{duplicate_all, lemma_map_prefix_push, push_value, OperatorValue};

verus! {

broadcast use vstd::slice::group_slice_axioms;

/// The dashboard: the snapshot with its traffic summary, timeline, route and
/// destination details, traces, timelines and focus packets.
#[derive(Clone, Debug)]
pub struct ProxyOperatorDashboard {
    pub refresh_interval_ms: u64,
    pub snapshot: ProxyOperatorSnapshot,
    pub traffic: ProxyOperatorTrafficSummary,
    pub timeline: Vec<ProxyOperatorTimelineEntry>,
    pub route_details: Vec<ProxyOperatorRouteDetail>,
    pub destination_details: Vec<ProxyOperatorDestinationDetail>,
    pub trace: ProxyOperatorTraceCatalog,
    pub timeline_catalog: ProxyOperatorTimelineCatalog,
    pub focus: ProxyOperatorFocusCatalog,
    pub lens: ProxyOperatorLensCatalog,
    pub brief: ProxyOperatorBriefCatalog,
}

/// How often the dashboard page refreshes, in milliseconds.
pub const DASHBOARD_REFRESH_INTERVAL_MS: u64 = 2500;

/// How many hotspots each list keeps.
pub const HOTSPOT_LIMIT: usize = 3;

// ---------------------------------------------------------------------------
// Traffic summary
// ---------------------------------------------------------------------------

/// Traffic totals of the runtime and its busiest and noisiest parts.
#[derive(Clone, Debug, Default)]
pub struct ProxyOperatorTrafficSummary {
    pub has_runtime_status: bool,
    pub ingress_packets_total: u64,
    pub ingress_drops_total: u64,
    pub route_matches_total: u64,
    pub route_dispatch_failures_total: u64,
    pub route_transform_failures_total: u64,
    pub destination_send_total: u64,
    pub destination_send_failures_total: u64,
    pub destination_drops_total: u64,
    pub destination_queue_depth_total: usize,
    pub destinations_with_backlog: usize,
    pub destinations_with_open_breakers: usize,
    pub destinations_with_half_open_breakers: usize,
    pub busiest_ingresses: Vec<ProxyOperatorCounterEntry>,
    pub busiest_routes: Vec<ProxyOperatorCounterEntry>,
    pub busiest_destinations: Vec<ProxyOperatorCounterEntry>,
    pub noisiest_destinations: Vec<ProxyOperatorCounterEntry>,
}

/// The sum of the counters.
pub open spec fn counter_sum(s: Seq<(Seq<char>, u64)>) -> nat
    decreases s.len(),
{
    if s.len() == 0 {
        0
    } else {
        counter_sum(s.drop_last()) + s.last().1 as nat
    }
}

/// Adds up counters whose sum fits in a `u64`.
pub fn sum_counters(counters: &Vec<ProxyOperatorCounterEntry>) -> (r: u64)
    requires
        counter_sum(counters.deep_view()) <= u64::MAX,
    ensures
        r == counter_sum(counters.deep_view()),
{
    let ghost s = counters.deep_view();
    let mut total: u64 = 0;
    let mut i: usize = 0;
    while i < counters.len()
        invariant
            i <= counters@.len(),
            s == counters.deep_view(),
            counter_sum(s) <= u64::MAX,
            total == counter_sum(s.subrange(0, i as int)),
        decreases counters@.len() - i,
    {
        let ghost prefix = s.subrange(0, i + 1);
        assert(prefix.drop_last() =~= s.subrange(0, i as int));
        assert(prefix.last() == counters@[i as int].deep_view());
        proof {
            lemma_counter_sum_prefix(s, i + 1);
        }
        total = total + counters[i].total;
        i = i + 1;
    }
    assert(s.subrange(0, i as int) =~= s);
    total
}

proof fn lemma_counter_sum_prefix(s: Seq<(Seq<char>, u64)>, n: int)
    requires
        0 <= n <= s.len(),
    ensures
        counter_sum(s.subrange(0, n)) <= counter_sum(s),
    decreases s.len(),
{
    if n < s.len() {
        assert(s.drop_last().subrange(0, n) =~= s.subrange(0, n));
        lemma_counter_sum_prefix(s.drop_last(), n);
    } else {
        assert(s.subrange(0, n) =~= s);
    }
}

/// The counters above zero, in order.
pub open spec fn positive_counters(s: Seq<(Seq<char>, u64)>) -> Seq<(Seq<char>, u64)>
    decreases s.len(),
{
    if s.len() == 0 {
        Seq::empty()
    } else {
        let prev = positive_counters(s.drop_last());
        if s.last().1 > 0 {
            prev.push(s.last())
        } else {
            prev
        }
    }
}

/// The sort entry of a counter: larger totals first, then ids in byte order.
pub open spec fn hotspot_entry(e: (Seq<char>, u64)) -> (KeyView, (Seq<char>, u64)) {
    (((u64::MAX - e.1) as u64, 0u64, utf8(e.0)), e)
}

/// The first `limit` counters above zero, by decreasing total then id.
pub open spec fn hotspots(s: Seq<(Seq<char>, u64)>, limit: nat) -> Seq<(Seq<char>, u64)> {
    let ranked = entry_values(
        sort_entries(positive_counters(s).map_values(|e: (Seq<char>, u64)| hotspot_entry(e))),
    );
    if ranked.len() > limit {
        ranked.subrange(0, limit as int)
    } else {
        ranked
    }
}

/// Ranks the counters above zero by decreasing total, then id, and keeps the first `limit`.
pub fn top_entries_from_iter(entries: Vec<ProxyOperatorCounterEntry>, limit: usize) -> (r: Vec<
    ProxyOperatorCounterEntry,
>)
    ensures
        r.deep_view() == hotspots(entries.deep_view(), limit as nat),
{
    let ghost s = entries.deep_view();
    let ghost p = positive_counters(s);
    let mut keyed: Vec<(SortKey, ProxyOperatorCounterEntry)> = Vec::new();
    let mut i: usize = 0;
    assert(entry_views(keyed@) =~= positive_counters(s.subrange(0, 0)).map_values(
        |e: (Seq<char>, u64)| hotspot_entry(e),
    ));
    while i < entries.len()
        invariant
            i <= entries@.len(),
            s == entries.deep_view(),
            entry_views(keyed@) == positive_counters(s.subrange(0, i as int)).map_values(
                |e: (Seq<char>, u64)| hotspot_entry(e),
            ),
        decreases entries@.len() - i,
    {
        let ghost prefix = s.subrange(0, i + 1);
        assert(prefix.drop_last() =~= s.subrange(0, i as int));
        assert(prefix.last() == entries@[i as int].deep_view());
        let e = &entries[i];
        if e.total > 0 {
            let text = vstd::slice::slice_to_vec(e.id.as_str().as_bytes());
            let entry = (SortKey { rank: u64::MAX - e.total, order: 0, text }, e.duplicate());
            let ghost before = keyed@;
            keyed.push(entry);
            proof {
                assert(entry_views(keyed@) =~= entry_views(before).push(
                    (key_view(entry.0), entry.1.deep_view()),
                ));
                crate::values::lemma_map_push(
                    positive_counters(prefix.drop_last()),
                    prefix.last(),
                    |e: (Seq<char>, u64)| hotspot_entry(e),
                );
            }
        }
        i = i + 1;
    }
    assert(s.subrange(0, i as int) =~= s);
    let mut ranked = strip_keys(sort_by_key(keyed));
    let ghost full = ranked@;
    let ghost full_deep = ranked.deep_view();
    ranked.truncate(limit);
    proof {
        if full_deep.len() > limit {
            assert(ranked.deep_view() =~= full_deep.subrange(0, limit as int));
        } else {
            assert(ranked.deep_view() =~= full_deep);
        }
    }
    ranked
}

/// Copies counters, keyed by id, into a list of entries.
fn counter_entries(counters: &Vec<ProxyOperatorCounterEntry>) -> (r: Vec<ProxyOperatorCounterEntry>)
    ensures
        r.deep_view() == counters.deep_view(),
{
    duplicate_all(counters)
}

/// The busiest counters: the first `limit` above zero by decreasing total then id.
pub fn top_entries(counters: &Vec<ProxyOperatorCounterEntry>, limit: usize) -> (r: Vec<
    ProxyOperatorCounterEntry,
>)
    ensures
        r.deep_view() == hotspots(counters.deep_view(), limit as nat),
{
    top_entries_from_iter(counter_entries(counters), limit)
}

/// Messages sent per destination.
pub open spec fn send_pairs(ds: Seq<DestinationRuntimeView>) -> Seq<(Seq<char>, u64)> {
    ds.map_values(|d: DestinationRuntimeView| (d.destination_id, d.send_total))
}

/// Send failures plus drops per destination.
pub open spec fn noise_pairs(ds: Seq<DestinationRuntimeView>, drops: Seq<(Seq<char>, u64)>) -> Seq<
    (Seq<char>, u64),
> {
    ds.map_values(
        |d: DestinationRuntimeView|
            (d.destination_id, (d.send_failures_total + counter_value(drops, d.destination_id)) as u64),
    )
}

/// The sum of a destination figure: 0 sends, 1 send failures, 2 queue depth.
pub open spec fn destination_sum(ds: Seq<DestinationRuntimeView>, which: int) -> nat
    decreases ds.len(),
{
    if ds.len() == 0 {
        0
    } else {
        let d = ds.last();
        destination_sum(ds.drop_last(), which) + (if which == 0 {
            d.send_total as nat
        } else if which == 1 {
            d.send_failures_total as nat
        } else {
            d.queue_depth as nat
        })
    }
}

/// How many destinations have a backlog (0), an open breaker (1) or a half-open breaker (2).
pub open spec fn destination_count(ds: Seq<DestinationRuntimeView>, which: int) -> nat
    decreases ds.len(),
{
    if ds.len() == 0 {
        0
    } else {
        let d = ds.last();
        destination_count(ds.drop_last(), which) + (if (if which == 0 {
            d.queue_depth > 0
        } else if which == 1 {
            d.breaker_state == Some(BreakerStateSnapshot::Open)
        } else {
            d.breaker_state == Some(BreakerStateSnapshot::HalfOpen)
        }) {
            1nat
        } else {
            0nat
        })
    }
}

/// The runtime figures fit the integer types they are reported in.
pub open spec fn traffic_fits(rt: UdpProxyRuntimeStatus) -> bool {
    let ds = rt.destinations.deep_view();
    &&& counter_sum(rt.ingress_packets_total.deep_view()) <= u64::MAX
    &&& counter_sum(rt.ingress_drops_total.deep_view()) <= u64::MAX
    &&& counter_sum(rt.route_matches_total.deep_view()) <= u64::MAX
    &&& counter_sum(rt.dispatch_failures_total.deep_view()) <= u64::MAX
    &&& counter_sum(rt.route_transform_failures_total.deep_view()) <= u64::MAX
    &&& counter_sum(rt.destination_drops_total.deep_view()) <= u64::MAX
    &&& destination_sum(ds, 0) <= u64::MAX
    &&& destination_sum(ds, 1) <= u64::MAX
    &&& destination_sum(ds, 2) <= usize::MAX
    &&& forall|i: int|
        0 <= i < ds.len() ==> #[trigger] ds[i].send_failures_total + counter_value(
            rt.destination_drops_total.deep_view(),
            ds[i].destination_id,
        ) <= u64::MAX
}

proof fn lemma_destination_sum_prefix(ds: Seq<DestinationRuntimeView>, n: int, which: int)
    requires
        0 <= n <= ds.len(),
    ensures
        destination_sum(ds.subrange(0, n), which) <= destination_sum(ds, which),
    decreases ds.len(),
{
    if n < ds.len() {
        assert(ds.drop_last().subrange(0, n) =~= ds.subrange(0, n));
        lemma_destination_sum_prefix(ds.drop_last(), n, which);
    } else {
        assert(ds.subrange(0, n) =~= ds);
    }
}

proof fn lemma_destination_count_bound(ds: Seq<DestinationRuntimeView>, which: int)
    ensures
        destination_count(ds, which) <= ds.len(),
    decreases ds.len(),
{
    if ds.len() > 0 {
        lemma_destination_count_bound(ds.drop_last(), which);
    }
}

fn destination_totals(rt: &UdpProxyRuntimeStatus) -> (r: (u64, u64, usize, usize, usize, usize))
    requires
        traffic_fits(*rt),
    ensures
        r.0 == destination_sum(rt.destinations.deep_view(), 0),
        r.1 == destination_sum(rt.destinations.deep_view(), 1),
        r.2 == destination_sum(rt.destinations.deep_view(), 2),
        r.3 == destination_count(rt.destinations.deep_view(), 0),
        r.4 == destination_count(rt.destinations.deep_view(), 1),
        r.5 == destination_count(rt.destinations.deep_view(), 2),
{
    let ds = &rt.destinations;
    let ghost s = ds.deep_view();
    let mut sends: u64 = 0;
    let mut failures: u64 = 0;
    let mut depth: usize = 0;
    let mut backlog: usize = 0;
    let mut open: usize = 0;
    let mut half_open: usize = 0;
    let mut i: usize = 0;
    while i < ds.len()
        invariant
            i <= ds@.len(),
            s == ds.deep_view(),
            destination_sum(s, 0) <= u64::MAX,
            destination_sum(s, 1) <= u64::MAX,
            destination_sum(s, 2) <= usize::MAX,
            sends == destination_sum(s.subrange(0, i as int), 0),
            failures == destination_sum(s.subrange(0, i as int), 1),
            depth == destination_sum(s.subrange(0, i as int), 2),
            backlog == destination_count(s.subrange(0, i as int), 0),
            open == destination_count(s.subrange(0, i as int), 1),
            half_open == destination_count(s.subrange(0, i as int), 2),
        decreases ds@.len() - i,
    {
        let ghost prefix = s.subrange(0, i + 1);
        assert(prefix.drop_last() =~= s.subrange(0, i as int));
        assert(prefix.last() == ds@[i as int].deep_view());
        proof {
            lemma_destination_sum_prefix(s, i + 1, 0);
            lemma_destination_sum_prefix(s, i + 1, 1);
            lemma_destination_sum_prefix(s, i + 1, 2);
            lemma_destination_count_bound(prefix, 0);
            lemma_destination_count_bound(prefix, 1);
            lemma_destination_count_bound(prefix, 2);
        }
        let d = &ds[i];
        sends = sends + d.send_total;
        failures = failures + d.send_failures_total;
        depth = depth + d.queue_depth;
        if d.queue_depth > 0 {
            backlog = backlog + 1;
        }
        if d.breaker_state == Some(BreakerStateSnapshot::Open) {
            open = open + 1;
        }
        if d.breaker_state == Some(BreakerStateSnapshot::HalfOpen) {
            half_open = half_open + 1;
        }
        i = i + 1;
    }
    assert(s.subrange(0, i as int) =~= s);
    (sends, failures, depth, backlog, open, half_open)
}

fn destination_pairs(rt: &UdpProxyRuntimeStatus, noise: bool) -> (r: Vec<ProxyOperatorCounterEntry>)
    requires
        traffic_fits(*rt),
    ensures
        noise ==> r.deep_view() == noise_pairs(
            rt.destinations.deep_view(),
            rt.destination_drops_total.deep_view(),
        ),
        !noise ==> r.deep_view() == send_pairs(rt.destinations.deep_view()),
{
    let ds = &rt.destinations;
    let ghost s = ds.deep_view();
    let ghost drops = rt.destination_drops_total.deep_view();
    let mut out: Vec<ProxyOperatorCounterEntry> = Vec::new();
    let mut i: usize = 0;
    while i < ds.len()
        invariant
            i <= ds@.len(),
            s == ds.deep_view(),
            drops == rt.destination_drops_total.deep_view(),
            s == rt.destinations.deep_view(),
            traffic_fits(*rt),
            noise ==> out.deep_view() == noise_pairs(s.subrange(0, i as int), drops),
            !noise ==> out.deep_view() == send_pairs(s.subrange(0, i as int)),
        decreases ds@.len() - i,
    {
        let d = &ds[i];
        assert(s[i as int] == d.deep_view());
        let total = if noise {
            let dropped = counter_for(&rt.destination_drops_total, d.destination_id.as_str());
            assert(traffic_fits(*rt));
            assert(rt.destinations.deep_view()[i as int] == s[i as int]);
            assert(s[i as int].send_failures_total + counter_value(drops, s[i as int].destination_id)
                <= u64::MAX);
            d.send_failures_total + dropped
        } else {
            d.send_total
        };
        push_value(
            &mut out,
            ProxyOperatorCounterEntry { id: d.destination_id.duplicate(), total },
        );
        proof {
            if noise {
                assert(noise_pairs(s.subrange(0, i + 1), drops) =~= noise_pairs(
                    s.subrange(0, i as int),
                    drops,
                ).push((s[i as int].destination_id, total)));
            } else {
                assert(send_pairs(s.subrange(0, i + 1)) =~= send_pairs(s.subrange(0, i as int)).push(
                    (s[i as int].destination_id, total),
                ));
            }
        }
        i = i + 1;
    }
    assert(s.subrange(0, i as int) =~= s);
    out
}

/// `r` sums up the runtime's traffic: totals of every counter and destination
/// figure, the destinations with a backlog and with open or half-open
/// breakers, and the three busiest ingresses, routes and destinations and the
/// three noisiest destinations (send failures plus drops).
pub open spec fn summarizes_traffic(rt: UdpProxyRuntimeStatus, r: ProxyOperatorTrafficSummary) -> bool {
    &&& r.has_runtime_status
    &&& r.ingress_packets_total == counter_sum(rt.ingress_packets_total.deep_view())
    &&& r.ingress_drops_total == counter_sum(rt.ingress_drops_total.deep_view())
    &&& r.route_matches_total == counter_sum(rt.route_matches_total.deep_view())
    &&& r.route_dispatch_failures_total == counter_sum(rt.dispatch_failures_total.deep_view())
    &&& r.route_transform_failures_total == counter_sum(
        rt.route_transform_failures_total.deep_view(),
    )
    &&& r.destination_send_total == destination_sum(rt.destinations.deep_view(), 0)
    &&& r.destination_send_failures_total == destination_sum(rt.destinations.deep_view(), 1)
    &&& r.destination_drops_total == counter_sum(rt.destination_drops_total.deep_view())
    &&& r.destination_queue_depth_total == destination_sum(rt.destinations.deep_view(), 2)
    &&& r.destinations_with_backlog == destination_count(rt.destinations.deep_view(), 0)
    &&& r.destinations_with_open_breakers == destination_count(rt.destinations.deep_view(), 1)
    &&& r.destinations_with_half_open_breakers == destination_count(
        rt.destinations.deep_view(),
        2,
    )
    &&& r.busiest_ingresses.deep_view() == hotspots(
        rt.ingress_packets_total.deep_view(),
        HOTSPOT_LIMIT as nat,
    )
    &&& r.busiest_routes.deep_view() == hotspots(
        rt.route_matches_total.deep_view(),
        HOTSPOT_LIMIT as nat,
    )
    &&& r.busiest_destinations.deep_view() == hotspots(
        send_pairs(rt.destinations.deep_view()),
        HOTSPOT_LIMIT as nat,
    )
    &&& r.noisiest_destinations.deep_view() == hotspots(
        noise_pairs(rt.destinations.deep_view(), rt.destination_drops_total.deep_view()),
        HOTSPOT_LIMIT as nat,
    )
}

/// Sums up the runtime's traffic.
pub fn traffic_summary_from_runtime(runtime: &UdpProxyRuntimeStatus) -> (r: ProxyOperatorTrafficSummary)
    requires
        traffic_fits(*runtime),
    ensures
        summarizes_traffic(*runtime, r),
{
    let (sends, failures, depth, backlog, open, half_open) = destination_totals(runtime);
    ProxyOperatorTrafficSummary {
        has_runtime_status: true,
        ingress_packets_total: sum_counters(&runtime.ingress_packets_total),
        ingress_drops_total: sum_counters(&runtime.ingress_drops_total),
        route_matches_total: sum_counters(&runtime.route_matches_total),
        route_dispatch_failures_total: sum_counters(&runtime.dispatch_failures_total),
        route_transform_failures_total: sum_counters(&runtime.route_transform_failures_total),
        destination_send_total: sends,
        destination_send_failures_total: failures,
        destination_drops_total: sum_counters(&runtime.destination_drops_total),
        destination_queue_depth_total: depth,
        destinations_with_backlog: backlog,
        destinations_with_open_breakers: open,
        destinations_with_half_open_breakers: half_open,
        busiest_ingresses: top_entries(&runtime.ingress_packets_total, HOTSPOT_LIMIT),
        busiest_routes: top_entries(&runtime.route_matches_total, HOTSPOT_LIMIT),
        busiest_destinations: top_entries_from_iter(destination_pairs(runtime, false), HOTSPOT_LIMIT),
        noisiest_destinations: top_entries_from_iter(destination_pairs(runtime, true), HOTSPOT_LIMIT),
    }
}

// ---------------------------------------------------------------------------
// Timeline
// ---------------------------------------------------------------------------

/// The timeline entry of an operator action.
pub open spec fn action_entry_view(a: OperatorActionView) -> TimelineEntryView {
    TimelineEntryView {
        category: ProxyOperatorTimelineCategory::OperatorAction,
        label: a.action,
        recorded_at_unix_ms: a.recorded_at_unix_ms,
        details: a.details,
    }
}

/// The timeline label of a configuration event kind.
pub open spec fn config_event_label_view(kind: RecentConfigEventKind) -> Seq<char> {
    match kind {
        RecentConfigEventKind::Applied => "config_applied"@,
        RecentConfigEventKind::Rejected => "config_rejected"@,
        RecentConfigEventKind::Blocked => "config_blocked"@,
        RecentConfigEventKind::ReloadFailed => "config_reload_failed"@,
        RecentConfigEventKind::LaunchProfileChanged => "launch_profile_changed"@,
    }
}

/// Labels a configuration event kind for the timeline.
pub fn config_event_label(kind: RecentConfigEventKind) -> (r: String)
    ensures
        r@ == config_event_label_view(kind),
{
    let label = match kind {
        RecentConfigEventKind::Applied => "config_applied",
        RecentConfigEventKind::Rejected => "config_rejected",
        RecentConfigEventKind::Blocked => "config_blocked",
        RecentConfigEventKind::ReloadFailed => "config_reload_failed",
        RecentConfigEventKind::LaunchProfileChanged => "launch_profile_changed",
    };
    owned(label)
}

/// The timeline entry of a configuration event: its details, preceded by
/// its revision and followed by its launch profile when it has them.
pub open spec fn config_entry_view(e: ConfigEventView) -> TimelineEntryView {
    let with_revision = match e.revision {
        Some(r) => seq!["revision="@ + decimal(r as nat)] + e.details,
        None => e.details,
    };
    TimelineEntryView {
        category: ProxyOperatorTimelineCategory::ConfigEvent,
        label: config_event_label_view(e.kind),
        recorded_at_unix_ms: e.recorded_at_unix_ms,
        details: match e.launch_profile_mode {
            Some(m) => with_revision.push("launch_profile="@ + m),
            None => with_revision,
        },
    }
}

/// Turns an operator action into a timeline entry.
pub fn timeline_entry_from_operator_action(action: RecentOperatorAction) -> (r: ProxyOperatorTimelineEntry)
    ensures
        r.deep_view() == action_entry_view(action.deep_view()),
{
    ProxyOperatorTimelineEntry {
        category: ProxyOperatorTimelineCategory::OperatorAction,
        label: action.action,
        recorded_at_unix_ms: action.recorded_at_unix_ms,
        details: action.details,
    }
}

/// Turns a configuration event into a timeline entry.
pub fn timeline_entry_from_config_event(event: RecentConfigEvent) -> (r: ProxyOperatorTimelineEntry)
    ensures
        r.deep_view() == config_entry_view(event.deep_view()),
{
    let ghost ev = event.deep_view();
    let mut details = event.details;
    match event.revision {
        Some(revision) => {
            let ghost before = details.deep_view();
            let ghost before_raw = details@;
            let line = decimal_string(revision);
            let text = join2("revision=", line.as_str());
            let ghost tv = text@;
            details.insert(0, text);
            assert forall|k: int| 0 <= k < details@.len() implies #[trigger] details.deep_view()[k]
                == (seq![tv] + before)[k] by {
                if k > 0 {
                    assert(details@[k] == before_raw[k - 1]);
                }
            }
            assert(details.deep_view() =~= seq![tv] + before);
        },
        None => {},
    }
    match &event.launch_profile_mode {
        Some(mode) => {
            push_value(&mut details, join2("launch_profile=", mode.as_str()));
        },
        None => {},
    }
    ProxyOperatorTimelineEntry {
        category: ProxyOperatorTimelineCategory::ConfigEvent,
        label: config_event_label(event.kind),
        recorded_at_unix_ms: event.recorded_at_unix_ms,
        details,
    }
}

/// The sort entry of a timeline entry: newest first, then labels in byte order.
pub open spec fn timeline_key(x: TimelineEntryView) -> (KeyView, TimelineEntryView) {
    (((u64::MAX - x.recorded_at_unix_ms) as u64, 0u64, utf8(x.label)), x)
}

/// The timeline: operator actions and configuration events, newest first,
/// entries recorded at the same time ordered by label, and otherwise
/// actions before events, each in their given order.
pub open spec fn timeline_view(actions: Seq<OperatorActionView>, events: Seq<ConfigEventView>) -> Seq<
    TimelineEntryView,
> {
    entry_values(
        sort_entries(
            (actions.map_values(|a: OperatorActionView| action_entry_view(a)) + events.map_values(
                |e: ConfigEventView| config_entry_view(e),
            )).map_values(|x: TimelineEntryView| timeline_key(x)),
        ),
    )
}

/// Builds the timeline of recent operator actions and configuration events.
pub fn timeline_from_history(actions: &Vec<RecentOperatorAction>, events: &Vec<RecentConfigEvent>) -> (r:
    Vec<ProxyOperatorTimelineEntry>)
    ensures
        r.deep_view() == timeline_view(actions.deep_view(), events.deep_view()),
{
    let ghost a = actions.deep_view().map_values(|a: OperatorActionView| action_entry_view(a));
    let ghost e = events.deep_view().map_values(|e: ConfigEventView| config_entry_view(e));
    let mut all: Vec<ProxyOperatorTimelineEntry> = Vec::new();
    let mut i: usize = 0;
    while i < actions.len()
        invariant
            i <= actions@.len(),
            a == actions.deep_view().map_values(|a: OperatorActionView| action_entry_view(a)),
            all.deep_view() == a.subrange(0, i as int),
        decreases actions@.len() - i,
    {
        assert(actions.deep_view()[i as int] == actions@[i as int].deep_view());
        push_value(&mut all, timeline_entry_from_operator_action(actions[i].duplicate()));
        assert(all.deep_view() =~= a.subrange(0, i + 1));
        i = i + 1;
    }
    assert(a.subrange(0, i as int) =~= a);
    let mut k: usize = 0;
    while k < events.len()
        invariant
            k <= events@.len(),
            e == events.deep_view().map_values(|e: ConfigEventView| config_entry_view(e)),
            all.deep_view() == a + e.subrange(0, k as int),
        decreases events@.len() - k,
    {
        assert(events.deep_view()[k as int] == events@[k as int].deep_view());
        push_value(&mut all, timeline_entry_from_config_event(events[k].duplicate()));
        assert(all.deep_view() =~= a + e.subrange(0, k + 1));
        k = k + 1;
    }
    assert(e.subrange(0, k as int) =~= e);
    let ghost items = all.deep_view();
    let mut keyed: Vec<(SortKey, ProxyOperatorTimelineEntry)> = Vec::new();
    let mut n: usize = 0;
    while n < all.len()
        invariant
            n <= all@.len(),
            items == all.deep_view(),
            entry_views(keyed@) == items.subrange(0, n as int).map_values(
                |x: TimelineEntryView| timeline_key(x),
            ),
        decreases all@.len() - n,
    {
        let x = all[n].duplicate();
        assert(items[n as int] == x.deep_view());
        let text = vstd::slice::slice_to_vec(x.label.as_str().as_bytes());
        let entry = (SortKey { rank: u64::MAX - x.recorded_at_unix_ms, order: 0, text }, x);
        let ghost before = keyed@;
        keyed.push(entry);
        proof {
            assert(entry_views(keyed@) =~= entry_views(before).push(
                (key_view(entry.0), entry.1.deep_view()),
            ));
            lemma_map_prefix_push(items, n as int, |x: TimelineEntryView| timeline_key(x));
        }
        n = n + 1;
    }
    assert(items.subrange(0, n as int) =~= items);
    strip_keys(sort_by_key(keyed))
}

// ---------------------------------------------------------------------------
// Detail states
// ---------------------------------------------------------------------------

/// The state shown for a route.
#[derive(Clone, Copy, Debug, PartialEq, Eq, Structural)]
pub enum ProxyOperatorRouteDetailState {
    Healthy,
    Warning,
    Isolated,
    Disabled,
}

/// The state shown for a destination.
#[derive(Clone, Copy, Debug, PartialEq, Eq, Structural)]
pub enum ProxyOperatorDestinationDetailState {
    Healthy,
    Warning,
    Blocked,
}

/// A disabled route is shown disabled, else an isolated one isolated, else
/// one with warnings as a warning, else healthy.
pub fn route_detail_state(enabled: bool, isolated: bool, warnings_empty: bool) -> (r:
    ProxyOperatorRouteDetailState)
    ensures
        r == (if !enabled {
            ProxyOperatorRouteDetailState::Disabled
        } else if isolated {
            ProxyOperatorRouteDetailState::Isolated
        } else if warnings_empty {
            ProxyOperatorRouteDetailState::Healthy
        } else {
            ProxyOperatorRouteDetailState::Warning
        }),
{
    if !enabled {
        return ProxyOperatorRouteDetailState::Disabled;
    }
    if isolated {
        return ProxyOperatorRouteDetailState::Isolated;
    }
    if warnings_empty {
        ProxyOperatorRouteDetailState::Healthy
    } else {
        ProxyOperatorRouteDetailState::Warning
    }
}

/// A destination with an open breaker is blocked; one with a backlog,
/// failures, drops or a half-open breaker is a warning; else healthy.
pub fn destination_detail_state(
    live_queue_depth: usize,
    send_failures_total: u64,
    drops_total: u64,
    breaker_state: Option<BreakerStateSnapshot>,
) -> (r: ProxyOperatorDestinationDetailState)
    ensures
        r == (if breaker_state == Some(BreakerStateSnapshot::Open) {
            ProxyOperatorDestinationDetailState::Blocked
        } else if live_queue_depth > 0 || send_failures_total > 0 || drops_total > 0 || breaker_state
            == Some(BreakerStateSnapshot::HalfOpen) {
            ProxyOperatorDestinationDetailState::Warning
        } else {
            ProxyOperatorDestinationDetailState::Healthy
        }),
{
    if breaker_state == Some(BreakerStateSnapshot::Open) {
        return ProxyOperatorDestinationDetailState::Blocked;
    }
    if live_queue_depth > 0 || send_failures_total > 0 || drops_total > 0 || breaker_state
        == Some(BreakerStateSnapshot::HalfOpen) {
        ProxyOperatorDestinationDetailState::Warning
    } else {
        ProxyOperatorDestinationDetailState::Healthy
    }
}

/// Every warning of a route before ordering: the assessment's, the signal's
/// configuration warnings, and the signal's dispatch and transform failures.
pub open spec fn route_warning_texts(
    assessment: Option<Seq<Seq<char>>>,
    signal: Option<crate::policy::RouteSignalView>,
) -> Seq<Seq<char>> {
    (match assessment {
        Some(w) => w,
        None => Seq::empty(),
    }) + match signal {
        Some(s) => s.config_warnings + crate::handoff::step_if(
            s.dispatch_failures_total > 0,
            "dispatch failures observed ("@ + decimal(s.dispatch_failures_total as nat) + ")"@,
        ) + crate::handoff::step_if(
            s.transform_failures_total > 0,
            "transform failures observed ("@ + decimal(s.transform_failures_total as nat) + ")"@,
        ),
        None => Seq::empty(),
    }
}

/// The warnings of a route, in byte order, each once.
pub fn merge_route_warnings(
    assessment: Option<&UdpProxyRouteAssessment>,
    signal: Option<&ProxyOperatorRouteSignal>,
) -> (r: Vec<String>)
    ensures
        r.deep_view() == crate::casebook::sorted_unique(
            route_warning_texts(
                match assessment {
                    Some(a) => Some(a.warnings.deep_view()),
                    None => None,
                },
                match signal {
                    Some(s) => Some(s.deep_view()),
                    None => None,
                },
            ),
        ),
{
    let mut all: Vec<String> = match assessment {
        Some(a) => duplicate_all(&a.warnings),
        None => Vec::new(),
    };
    let ghost first = all.deep_view();
    assert(first =~= match assessment {
        Some(a) => a.warnings.deep_view(),
        None => Seq::empty(),
    });
    match signal {
        Some(s) => {
            let mut i: usize = 0;
            while i < s.config_warnings.len()
                invariant
                    i <= s.config_warnings@.len(),
                    all.deep_view() == first + s.config_warnings.deep_view().subrange(0, i as int),
                decreases s.config_warnings@.len() - i,
            {
                push_value(&mut all, s.config_warnings[i].duplicate());
                assert(all.deep_view() =~= first + s.config_warnings.deep_view().subrange(0, i + 1));
                i = i + 1;
            }
            assert(s.config_warnings.deep_view().subrange(0, i as int) =~= s.config_warnings.deep_view());
            let ghost second = all.deep_view();
            if s.dispatch_failures_total > 0 {
                let n = decimal_string(s.dispatch_failures_total);
                push_value(&mut all, crate::text::join3("dispatch failures observed (", n.as_str(), ")"));
            }
            let ghost third = all.deep_view();
            assert(third =~= second + crate::handoff::step_if(
                s.dispatch_failures_total > 0,
                "dispatch failures observed ("@ + decimal(s.dispatch_failures_total as nat) + ")"@,
            ));
            if s.transform_failures_total > 0 {
                let n = decimal_string(s.transform_failures_total);
                push_value(&mut all, crate::text::join3("transform failures observed (", n.as_str(), ")"));
            }
            assert(all.deep_view() =~= third + crate::handoff::step_if(
                s.transform_failures_total > 0,
                "transform failures observed ("@ + decimal(s.transform_failures_total as nat) + ")"@,
            ));
            assert(all.deep_view() =~= first + (s.config_warnings.deep_view() + crate::handoff::step_if(
                s.dispatch_failures_total > 0,
                "dispatch failures observed ("@ + decimal(s.dispatch_failures_total as nat) + ")"@,
            ) + crate::handoff::step_if(
                s.transform_failures_total > 0,
                "transform failures observed ("@ + decimal(s.transform_failures_total as nat) + ")"@,
            )));
        },
        None => {
            assert(all.deep_view() =~= first + Seq::<Seq<char>>::empty());
        },
    }
    crate::casebook::sort_unique_titles(&all)
}


// ---------------------------------------------------------------------------
// Assembly
// ---------------------------------------------------------------------------

/// The timeline of the snapshot's recent history.
pub fn timeline_from_snapshot(snapshot: &ProxyOperatorSnapshot) -> (r: Vec<ProxyOperatorTimelineEntry>)
    ensures
        r.deep_view() == timeline_view(
            snapshot.diagnostics.recent_operator_actions.deep_view(),
            snapshot.diagnostics.recent_config_events.deep_view(),
        ),
{
    timeline_from_history(
        &snapshot.diagnostics.recent_operator_actions,
        &snapshot.diagnostics.recent_config_events,
    )
}

/// A traffic summary with no runtime behind it: no figures and no hotspots.
pub open spec fn no_traffic(r: ProxyOperatorTrafficSummary) -> bool {
    &&& !r.has_runtime_status
    &&& r.ingress_packets_total == 0
    &&& r.ingress_drops_total == 0
    &&& r.route_matches_total == 0
    &&& r.route_dispatch_failures_total == 0
    &&& r.route_transform_failures_total == 0
    &&& r.destination_send_total == 0
    &&& r.destination_send_failures_total == 0
    &&& r.destination_drops_total == 0
    &&& r.destination_queue_depth_total == 0
    &&& r.destinations_with_backlog == 0
    &&& r.destinations_with_open_breakers == 0
    &&& r.destinations_with_half_open_breakers == 0
    &&& r.busiest_ingresses@.len() == 0
    &&& r.busiest_routes@.len() == 0
    &&& r.busiest_destinations@.len() == 0
    &&& r.noisiest_destinations@.len() == 0
}

fn empty_traffic_summary() -> (r: ProxyOperatorTrafficSummary)
    ensures
        no_traffic(r),
{
    ProxyOperatorTrafficSummary {
        has_runtime_status: false,
        ingress_packets_total: 0,
        ingress_drops_total: 0,
        route_matches_total: 0,
        route_dispatch_failures_total: 0,
        route_transform_failures_total: 0,
        destination_send_total: 0,
        destination_send_failures_total: 0,
        destination_drops_total: 0,
        destination_queue_depth_total: 0,
        destinations_with_backlog: 0,
        destinations_with_open_breakers: 0,
        destinations_with_half_open_breakers: 0,
        busiest_ingresses: Vec::new(),
        busiest_routes: Vec::new(),
        busiest_destinations: Vec::new(),
        noisiest_destinations: Vec::new(),
    }
}

/// The runtime of a status snapshot, if any, fits the traffic summary's integer types.
pub open spec fn runtime_traffic_fits(status: crate::status::UdpProxyStatusSnapshot) -> bool {
    match status.runtime {
        Some(rt) => traffic_fits(rt),
        None => true,
    }
}

/// Builds the dashboard of a snapshot: its traffic summary (none before the
/// proxy runs), its timeline, its route and destination details, the given
/// traces and timelines, and the focus packets, lenses and briefs built on them.
pub fn proxy_operator_dashboard_from_snapshot(
    snapshot: ProxyOperatorSnapshot,
    trace: ProxyOperatorTraceCatalog,
    timeline_catalog: ProxyOperatorTimelineCatalog,
) -> (r: ProxyOperatorDashboard)
    requires
        runtime_traffic_fits(snapshot.overview.status),
    ensures
        r.refresh_interval_ms == DASHBOARD_REFRESH_INTERVAL_MS,
        r.snapshot == snapshot,
        r.trace == trace,
        r.timeline_catalog == timeline_catalog,
        match snapshot.overview.status.runtime {
            Some(rt) => summarizes_traffic(rt, r.traffic),
            None => no_traffic(r.traffic),
        },
        r.timeline.deep_view() == timeline_view(
            snapshot.diagnostics.recent_operator_actions.deep_view(),
            snapshot.diagnostics.recent_config_events.deep_view(),
        ),
        r.route_details.deep_view() == route_details_view(snapshot),
        r.destination_details.deep_view() == destination_details_view(snapshot),
        r.focus.state@ == state_label_of(snapshot.overview.report.state),
        r.focus.routes.deep_view() == r.route_details.deep_view().map_values(
            |d: RouteDetailView| route_focus_view(r, d),
        ),
        r.focus.destinations.deep_view() == r.destination_details.deep_view().map_values(
            |d: DestinationDetailView| destination_focus_view(r, d),
        ),
        r.lens.state@ == state_label_of(snapshot.overview.report.state),
        r.lens.global_blockers.deep_view() == global_blockers_view(snapshot),
        r.lens.global_overrides.deep_view() == global_overrides_view(snapshot),
        r.lens.routes.deep_view() == r.focus.routes.deep_view().map_values(
            |f: RouteFocusView| route_lens_view(snapshot, f),
        ),
        r.lens.destinations.deep_view() == r.focus.destinations.deep_view().map_values(
            |f: DestinationFocusView| destination_lens_view(snapshot, f),
        ),
        r.brief.state@ == state_label_of(snapshot.overview.report.state),
        r.brief.global_blockers.deep_view() == global_blockers_view(snapshot),
        r.brief.global_overrides.deep_view() == global_overrides_view(snapshot),
        r.brief.global_next_steps.deep_view() == snapshot.triage.global.next_steps.deep_view(),
        r.brief.routes.deep_view() == r.focus.routes.deep_view().map_values(
            |f: RouteFocusView| route_brief_view(snapshot, r.lens.routes.deep_view(), f),
        ),
        r.brief.destinations.deep_view() == r.focus.destinations.deep_view().map_values(
            |f: DestinationFocusView|
                destination_brief_view(snapshot, r.lens.destinations.deep_view(), f),
        ),
{
    let traffic = match &snapshot.overview.status.runtime {
        Some(rt) => traffic_summary_from_runtime(rt),
        None => empty_traffic_summary(),
    };
    let timeline = timeline_from_snapshot(&snapshot);
    let route_details = route_details_from_snapshot(&snapshot);
    let destination_details = destination_details_from_snapshot(&snapshot);
    let mut dashboard = ProxyOperatorDashboard {
        refresh_interval_ms: DASHBOARD_REFRESH_INTERVAL_MS,
        snapshot,
        traffic,
        timeline,
        route_details,
        destination_details,
        trace,
        timeline_catalog,
        focus: ProxyOperatorFocusCatalog { state: owned(""), routes: Vec::new(), destinations: Vec::new() },
        lens: ProxyOperatorLensCatalog {
            state: owned(""),
            global_blockers: Vec::new(),
            global_overrides: Vec::new(),
            routes: Vec::new(),
            destinations: Vec::new(),
        },
        brief: ProxyOperatorBriefCatalog {
            state: owned(""),
            global_blockers: Vec::new(),
            global_overrides: Vec::new(),
            global_next_steps: Vec::new(),
            routes: Vec::new(),
            destinations: Vec::new(),
        },
    };
    let ghost base = dashboard;
    let focus = proxy_operator_focus_from_dashboard(&dashboard);
    dashboard.focus = focus;
    let lens = proxy_operator_lens_from_dashboard(&dashboard);
    dashboard.lens = lens;
    let brief = proxy_operator_brief_from_dashboard(&dashboard);
    dashboard.brief = brief;
    proof {
        assert(dashboard.route_details.deep_view().map_values(
            |d: RouteDetailView| route_focus_view(dashboard, d),
        ) =~= base.route_details.deep_view().map_values(
            |d: RouteDetailView| route_focus_view(base, d),
        ));
        assert(dashboard.destination_details.deep_view().map_values(
            |d: DestinationDetailView| destination_focus_view(dashboard, d),
        ) =~= base.destination_details.deep_view().map_values(
            |d: DestinationDetailView| destination_focus_view(base, d),
        ));
    }
    dashboard
}

} // verus!
