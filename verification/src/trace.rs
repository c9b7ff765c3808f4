//! Per-route and per-destination traces, triage, timelines and recovery
//! candidates: the inputs the handoff and casebook views are assembled from.
use vstd::prelude::*;

use crate::model::{
    ProxyOperatorSuggestedAction, ProxyOperatorTimelineEntry, ProxyOperatorTraceEvent,
    ProxyOperatorTraceEventLevel, SuggestedActionView, TimelineEntryView, TraceEventView,
};
use crate::values::{duplicate_all, Identified, OperatorValue};

verus! {

/// What happened on one route, with the reasons it is still open.
#[derive(Clone, Debug)]
pub struct ProxyOperatorRouteTrace {
    pub route_id: String,
    pub level: ProxyOperatorTraceEventLevel,
    pub summary: String,
    pub related_destination_ids: Vec<String>,
    pub actions: Vec<ProxyOperatorSuggestedAction>,
    pub recent_events: Vec<ProxyOperatorTraceEvent>,
    pub open_reasons: Vec<String>,
}

/// What happened on one destination, with the reasons it is still open.
#[derive(Clone, Debug)]
pub struct ProxyOperatorDestinationTrace {
    pub destination_id: String,
    pub level: ProxyOperatorTraceEventLevel,
    pub summary: String,
    pub route_ids: Vec<String>,
    pub actions: Vec<ProxyOperatorSuggestedAction>,
    pub recent_events: Vec<ProxyOperatorTraceEvent>,
    pub open_reasons: Vec<String>,
}

/// Traces of every route and destination.
#[derive(Clone, Debug, Default)]
pub struct ProxyOperatorTraceCatalog {
    pub routes: Vec<ProxyOperatorRouteTrace>,
    pub destinations: Vec<ProxyOperatorDestinationTrace>,
}

/// Triage of one route.
#[derive(Clone, Debug)]
pub struct ProxyOperatorRouteTriage {
    pub route_id: String,
    pub summary: String,
    pub next_steps: Vec<String>,
    pub actions: Vec<ProxyOperatorSuggestedAction>,
    pub recent_events: Vec<ProxyOperatorTraceEvent>,
}

/// Triage of one destination.
#[derive(Clone, Debug)]
pub struct ProxyOperatorDestinationTriage {
    pub destination_id: String,
    pub summary: String,
    pub next_steps: Vec<String>,
    pub actions: Vec<ProxyOperatorSuggestedAction>,
    pub recent_events: Vec<ProxyOperatorTraceEvent>,
}

/// Broker-wide triage.
#[derive(Clone, Debug, Default)]
pub struct ProxyOperatorGlobalTriage {
    pub summary: String,
    pub next_steps: Vec<String>,
    pub actions: Vec<ProxyOperatorSuggestedAction>,
}

/// Triage of the broker, its routes and its destinations.
#[derive(Clone, Debug, Default)]
pub struct ProxyOperatorTriageCatalog {
    pub state: String,
    pub global: ProxyOperatorGlobalTriage,
    pub route_triage: Vec<ProxyOperatorRouteTriage>,
    pub destination_triage: Vec<ProxyOperatorDestinationTriage>,
}

/// Timeline of one route.
#[derive(Clone, Debug)]
pub struct ProxyOperatorRouteTimeline {
    pub route_id: String,
    pub entries: Vec<ProxyOperatorTimelineEntry>,
}

/// Timeline of one destination.
#[derive(Clone, Debug)]
pub struct ProxyOperatorDestinationTimeline {
    pub destination_id: String,
    pub entries: Vec<ProxyOperatorTimelineEntry>,
}

/// Broker-wide, per-route and per-destination timelines.
#[derive(Clone, Debug, Default)]
pub struct ProxyOperatorTimelineCatalog {
    pub global: Vec<ProxyOperatorTimelineEntry>,
    pub routes: Vec<ProxyOperatorRouteTimeline>,
    pub destinations: Vec<ProxyOperatorDestinationTimeline>,
}

/// Recovery settings of a route.
#[derive(Clone, Debug)]
pub struct ProxyOperatorRecoveryRoute {
    pub route_id: String,
    pub cache_policy: String,
    pub capture_policy: String,
    pub rehydrate_on_connect: bool,
    pub replay_allowed: bool,
    pub fallback_ready: bool,
}

/// Recovery state of a destination.
#[derive(Clone, Debug)]
pub struct ProxyOperatorRecoveryDestination {
    pub destination_id: String,
    pub queue_depth: usize,
    pub send_failures_total: u64,
    pub drops_total: u64,
    pub breaker_state: String,
}

/// Recovery readiness of the broker: how many routes are cached and
/// replayable, how many destinations are ready to rehydrate, and the candidates.
#[derive(Clone, Debug, Default)]
pub struct ProxyOperatorRecovery {
    pub cached_routes: usize,
    pub replayable_routes: usize,
    pub rehydrate_ready_destinations: usize,
    pub route_candidates: Vec<ProxyOperatorRecoveryRoute>,
    pub destination_candidates: Vec<ProxyOperatorRecoveryDestination>,
}

/// The contents of a route or destination triage.
pub struct TriageView {
    pub id: Seq<char>,
    pub summary: Seq<char>,
    pub next_steps: Seq<Seq<char>>,
    pub actions: Seq<SuggestedActionView>,
    pub recent_events: Seq<TraceEventView>,
}

impl DeepView for ProxyOperatorRouteTriage {
    type V = TriageView;

    open spec fn deep_view(&self) -> TriageView {
        TriageView {
            id: self.route_id@,
            summary: self.summary@,
            next_steps: self.next_steps.deep_view(),
            actions: self.actions.deep_view(),
            recent_events: self.recent_events.deep_view(),
        }
    }
}

impl DeepView for ProxyOperatorDestinationTriage {
    type V = TriageView;

    open spec fn deep_view(&self) -> TriageView {
        TriageView {
            id: self.destination_id@,
            summary: self.summary@,
            next_steps: self.next_steps.deep_view(),
            actions: self.actions.deep_view(),
            recent_events: self.recent_events.deep_view(),
        }
    }
}

impl Identified for ProxyOperatorRouteTriage {
    open spec fn id_of(v: TriageView) -> Seq<char> {
        v.id
    }

    fn id_text(&self) -> (r: &str) {
        self.route_id.as_str()
    }
}

impl Identified for ProxyOperatorDestinationTriage {
    open spec fn id_of(v: TriageView) -> Seq<char> {
        v.id
    }

    fn id_text(&self) -> (r: &str) {
        self.destination_id.as_str()
    }
}

/// The contents of a route or destination timeline.
pub struct TimelineView {
    pub id: Seq<char>,
    pub entries: Seq<TimelineEntryView>,
}

impl DeepView for ProxyOperatorRouteTimeline {
    type V = TimelineView;

    open spec fn deep_view(&self) -> TimelineView {
        TimelineView { id: self.route_id@, entries: self.entries.deep_view() }
    }
}

impl DeepView for ProxyOperatorDestinationTimeline {
    type V = TimelineView;

    open spec fn deep_view(&self) -> TimelineView {
        TimelineView { id: self.destination_id@, entries: self.entries.deep_view() }
    }
}

impl Identified for ProxyOperatorRouteTimeline {
    open spec fn id_of(v: TimelineView) -> Seq<char> {
        v.id
    }

    fn id_text(&self) -> (r: &str) {
        self.route_id.as_str()
    }
}

impl Identified for ProxyOperatorDestinationTimeline {
    open spec fn id_of(v: TimelineView) -> Seq<char> {
        v.id
    }

    fn id_text(&self) -> (r: &str) {
        self.destination_id.as_str()
    }
}

/// The contents of a route's recovery settings.
pub struct RecoveryRouteView {
    pub route_id: Seq<char>,
    pub cache_policy: Seq<char>,
    pub capture_policy: Seq<char>,
    pub rehydrate_on_connect: bool,
    pub replay_allowed: bool,
    pub fallback_ready: bool,
}

impl DeepView for ProxyOperatorRecoveryRoute {
    type V = RecoveryRouteView;

    open spec fn deep_view(&self) -> RecoveryRouteView {
        RecoveryRouteView {
            route_id: self.route_id@,
            cache_policy: self.cache_policy@,
            capture_policy: self.capture_policy@,
            rehydrate_on_connect: self.rehydrate_on_connect,
            replay_allowed: self.replay_allowed,
            fallback_ready: self.fallback_ready,
        }
    }
}

impl Identified for ProxyOperatorRecoveryRoute {
    open spec fn id_of(v: RecoveryRouteView) -> Seq<char> {
        v.route_id
    }

    fn id_text(&self) -> (r: &str) {
        self.route_id.as_str()
    }
}

/// The contents of a destination's recovery state.
pub struct RecoveryDestinationView {
    pub destination_id: Seq<char>,
    pub queue_depth: usize,
    pub send_failures_total: u64,
    pub drops_total: u64,
    pub breaker_state: Seq<char>,
}

impl DeepView for ProxyOperatorRecoveryDestination {
    type V = RecoveryDestinationView;

    open spec fn deep_view(&self) -> RecoveryDestinationView {
        RecoveryDestinationView {
            destination_id: self.destination_id@,
            queue_depth: self.queue_depth,
            send_failures_total: self.send_failures_total,
            drops_total: self.drops_total,
            breaker_state: self.breaker_state@,
        }
    }
}

impl Identified for ProxyOperatorRecoveryDestination {
    open spec fn id_of(v: RecoveryDestinationView) -> Seq<char> {
        v.destination_id
    }

    fn id_text(&self) -> (r: &str) {
        self.destination_id.as_str()
    }
}

/// The contents of a route or destination trace.
pub struct TraceView {
    pub id: Seq<char>,
    pub level: ProxyOperatorTraceEventLevel,
    pub summary: Seq<char>,
    pub linked_ids: Seq<Seq<char>>,
    pub actions: Seq<SuggestedActionView>,
    pub recent_events: Seq<TraceEventView>,
    pub open_reasons: Seq<Seq<char>>,
}

impl DeepView for ProxyOperatorRouteTrace {
    type V = TraceView;

    open spec fn deep_view(&self) -> TraceView {
        TraceView {
            id: self.route_id@,
            level: self.level,
            summary: self.summary@,
            linked_ids: self.related_destination_ids.deep_view(),
            actions: self.actions.deep_view(),
            recent_events: self.recent_events.deep_view(),
            open_reasons: self.open_reasons.deep_view(),
        }
    }
}

impl DeepView for ProxyOperatorDestinationTrace {
    type V = TraceView;

    open spec fn deep_view(&self) -> TraceView {
        TraceView {
            id: self.destination_id@,
            level: self.level,
            summary: self.summary@,
            linked_ids: self.route_ids.deep_view(),
            actions: self.actions.deep_view(),
            recent_events: self.recent_events.deep_view(),
            open_reasons: self.open_reasons.deep_view(),
        }
    }
}

impl Identified for ProxyOperatorRouteTrace {
    open spec fn id_of(v: TraceView) -> Seq<char> {
        v.id
    }

    fn id_text(&self) -> (r: &str) {
        self.route_id.as_str()
    }
}

impl Identified for ProxyOperatorDestinationTrace {
    open spec fn id_of(v: TraceView) -> Seq<char> {
        v.id
    }

    fn id_text(&self) -> (r: &str) {
        self.destination_id.as_str()
    }
}

impl OperatorValue for ProxyOperatorRouteTrace {
    fn duplicate(&self) -> (r: Self) {
        ProxyOperatorRouteTrace {
            route_id: self.route_id.duplicate(),
            level: self.level,
            summary: self.summary.duplicate(),
            related_destination_ids: duplicate_all(&self.related_destination_ids),
            actions: duplicate_all(&self.actions),
            recent_events: duplicate_all(&self.recent_events),
            open_reasons: duplicate_all(&self.open_reasons),
        }
    }

    fn same_value(&self, other: &Self) -> (r: bool) {
        self.route_id.same_value(&other.route_id) && self.level == other.level
            && self.summary.same_value(&other.summary) && self.related_destination_ids.same_value(
            &other.related_destination_ids,
        ) && self.actions.same_value(&other.actions) && self.recent_events.same_value(
            &other.recent_events,
        ) && self.open_reasons.same_value(&other.open_reasons)
    }
}

impl OperatorValue for ProxyOperatorDestinationTrace {
    fn duplicate(&self) -> (r: Self) {
        ProxyOperatorDestinationTrace {
            destination_id: self.destination_id.duplicate(),
            level: self.level,
            summary: self.summary.duplicate(),
            route_ids: duplicate_all(&self.route_ids),
            actions: duplicate_all(&self.actions),
            recent_events: duplicate_all(&self.recent_events),
            open_reasons: duplicate_all(&self.open_reasons),
        }
    }

    fn same_value(&self, other: &Self) -> (r: bool) {
        self.destination_id.same_value(&other.destination_id) && self.level == other.level
            && self.summary.same_value(&other.summary) && self.route_ids.same_value(
            &other.route_ids,
        ) && self.actions.same_value(&other.actions) && self.recent_events.same_value(
            &other.recent_events,
        ) && self.open_reasons.same_value(&other.open_reasons)
    }
}

impl OperatorValue for ProxyOperatorRouteTriage {
    fn duplicate(&self) -> (r: Self) {
        ProxyOperatorRouteTriage {
            route_id: self.route_id.duplicate(),
            summary: self.summary.duplicate(),
            next_steps: duplicate_all(&self.next_steps),
            actions: duplicate_all(&self.actions),
            recent_events: duplicate_all(&self.recent_events),
        }
    }

    fn same_value(&self, other: &Self) -> (r: bool) {
        self.route_id.same_value(&other.route_id) && self.summary.same_value(&other.summary)
            && self.next_steps.same_value(&other.next_steps) && self.actions.same_value(
            &other.actions,
        ) && self.recent_events.same_value(&other.recent_events)
    }
}

impl OperatorValue for ProxyOperatorDestinationTriage {
    fn duplicate(&self) -> (r: Self) {
        ProxyOperatorDestinationTriage {
            destination_id: self.destination_id.duplicate(),
            summary: self.summary.duplicate(),
            next_steps: duplicate_all(&self.next_steps),
            actions: duplicate_all(&self.actions),
            recent_events: duplicate_all(&self.recent_events),
        }
    }

    fn same_value(&self, other: &Self) -> (r: bool) {
        self.destination_id.same_value(&other.destination_id) && self.summary.same_value(
            &other.summary,
        ) && self.next_steps.same_value(&other.next_steps) && self.actions.same_value(
            &other.actions,
        ) && self.recent_events.same_value(&other.recent_events)
    }
}

impl OperatorValue for ProxyOperatorRouteTimeline {
    fn duplicate(&self) -> (r: Self) {
        ProxyOperatorRouteTimeline {
            route_id: self.route_id.duplicate(),
            entries: duplicate_all(&self.entries),
        }
    }

    fn same_value(&self, other: &Self) -> (r: bool) {
        self.route_id.same_value(&other.route_id) && self.entries.same_value(&other.entries)
    }
}

impl OperatorValue for ProxyOperatorDestinationTimeline {
    fn duplicate(&self) -> (r: Self) {
        ProxyOperatorDestinationTimeline {
            destination_id: self.destination_id.duplicate(),
            entries: duplicate_all(&self.entries),
        }
    }

    fn same_value(&self, other: &Self) -> (r: bool) {
        self.destination_id.same_value(&other.destination_id) && self.entries.same_value(
            &other.entries,
        )
    }
}

} // verus!
