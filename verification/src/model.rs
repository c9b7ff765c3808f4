//! Shared operator vocabulary: event levels, suggested actions, trace events
//! and timeline entries, with their contents as plain values.
use vstd::prelude::*;

use crate::values::{duplicate_all, OperatorValue};

verus! {

/// Severity of an operator-visible event or item.
#[derive(Clone, Copy, Debug, PartialEq, Eq, Structural)]
pub enum ProxyOperatorTraceEventLevel {
    Info,
    Degraded,
    Blocked,
}

/// Kinds of action the operator views suggest.
#[derive(Clone, Copy, Debug, PartialEq, Eq, Structural)]
pub enum ProxyOperatorSuggestedActionKind {
    ThawTraffic,
    RestoreRoute,
    FocusRoute,
    RehydrateDestination,
}

/// An action suggested to the operator, scoped to a route or destination when it names one.
#[derive(Clone, Debug)]
pub struct ProxyOperatorSuggestedAction {
    pub kind: ProxyOperatorSuggestedActionKind,
    pub label: String,
    pub route_id: Option<String>,
    pub destination_id: Option<String>,
}

/// The contents of a suggested action.
pub struct SuggestedActionView {
    pub kind: ProxyOperatorSuggestedActionKind,
    pub label: Seq<char>,
    pub route_id: Option<Seq<char>>,
    pub destination_id: Option<Seq<char>>,
}

impl DeepView for ProxyOperatorSuggestedAction {
    type V = SuggestedActionView;

    open spec fn deep_view(&self) -> SuggestedActionView {
        SuggestedActionView {
            kind: self.kind,
            label: self.label@,
            route_id: self.route_id.deep_view(),
            destination_id: self.destination_id.deep_view(),
        }
    }
}

impl OperatorValue for ProxyOperatorSuggestedAction {
    fn duplicate(&self) -> (r: Self) {
        ProxyOperatorSuggestedAction {
            kind: self.kind,
            label: self.label.duplicate(),
            route_id: self.route_id.duplicate(),
            destination_id: self.destination_id.duplicate(),
        }
    }

    fn same_value(&self, other: &Self) -> (r: bool) {
        self.kind == other.kind && self.label.same_value(&other.label) && self.route_id.same_value(
            &other.route_id,
        ) && self.destination_id.same_value(&other.destination_id)
    }
}

/// One event in a route's or destination's trace.
#[derive(Clone, Debug)]
pub struct ProxyOperatorTraceEvent {
    pub level: ProxyOperatorTraceEventLevel,
    pub title: String,
    pub summary: String,
}

/// The contents of a trace event.
pub struct TraceEventView {
    pub level: ProxyOperatorTraceEventLevel,
    pub title: Seq<char>,
    pub summary: Seq<char>,
}

impl DeepView for ProxyOperatorTraceEvent {
    type V = TraceEventView;

    open spec fn deep_view(&self) -> TraceEventView {
        TraceEventView { level: self.level, title: self.title@, summary: self.summary@ }
    }
}

impl OperatorValue for ProxyOperatorTraceEvent {
    fn duplicate(&self) -> (r: Self) {
        ProxyOperatorTraceEvent {
            level: self.level,
            title: self.title.duplicate(),
            summary: self.summary.duplicate(),
        }
    }

    fn same_value(&self, other: &Self) -> (r: bool) {
        self.level == other.level && self.title.same_value(&other.title)
            && self.summary.same_value(&other.summary)
    }
}

/// Where a timeline entry comes from.
#[derive(Clone, Copy, Debug, PartialEq, Eq, Structural)]
pub enum ProxyOperatorTimelineCategory {
    OperatorAction,
    ConfigEvent,
}

/// One entry of the operator timeline.
#[derive(Clone, Debug)]
pub struct ProxyOperatorTimelineEntry {
    pub category: ProxyOperatorTimelineCategory,
    pub label: String,
    pub recorded_at_unix_ms: u64,
    pub details: Vec<String>,
}

/// The contents of a timeline entry.
pub struct TimelineEntryView {
    pub category: ProxyOperatorTimelineCategory,
    pub label: Seq<char>,
    pub recorded_at_unix_ms: u64,
    pub details: Seq<Seq<char>>,
}

impl DeepView for ProxyOperatorTimelineEntry {
    type V = TimelineEntryView;

    open spec fn deep_view(&self) -> TimelineEntryView {
        TimelineEntryView {
            category: self.category,
            label: self.label@,
            recorded_at_unix_ms: self.recorded_at_unix_ms,
            details: self.details.deep_view(),
        }
    }
}

impl OperatorValue for ProxyOperatorTimelineEntry {
    fn duplicate(&self) -> (r: Self) {
        ProxyOperatorTimelineEntry {
            category: self.category,
            label: self.label.duplicate(),
            recorded_at_unix_ms: self.recorded_at_unix_ms,
            details: duplicate_all(&self.details),
        }
    }

    fn same_value(&self, other: &Self) -> (r: bool) {
        self.category == other.category && self.label.same_value(&other.label)
            && self.recorded_at_unix_ms == other.recorded_at_unix_ms && self.details.same_value(
            &other.details,
        )
    }
}

} // verus!
