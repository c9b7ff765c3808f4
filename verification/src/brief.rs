//! The parts of an operator brief for one route or destination: a summary
//! taken from its handoff, triage or casebook record (else from its detail
//! figures), its timeline headlines, and its merged next steps and actions.
use vstd::prelude::*;

use crate::casebook::{ProxyOperatorDestinationCasebook, ProxyOperatorRouteCasebook};
use crate::handoff::{ProxyOperatorDestinationHandoff, ProxyOperatorRouteHandoff};
use crate::model::{
    ProxyOperatorSuggestedAction, ProxyOperatorTimelineEntry, ProxyOperatorTraceEvent,
    SuggestedActionView, TimelineEntryView, TraceEventView,
};
use crate::text::{append_count, append_flag, append_total, bool_text, decimal, owned};
use crate::trace::{ProxyOperatorDestinationTriage, ProxyOperatorRouteTriage};
use crate::values::{
    copy_by_id, duplicate_all, extend_unique, find_by_id, lemma_map_prefix_push, merge_unique,
    push_value, Identified, OperatorValue,
};
use crate::context::{
    all_board_items, destination_state, global_blockers_view, global_overrides_view, route_state,
    scoped_blockers_view, scoped_destination_blockers, scoped_route_blockers, scoped_state_view,
    select_items, snapshot_context,
};
use crate::dashboard::ProxyOperatorDashboard;
use crate::focus::{
    DestinationFocusView, ProxyOperatorDestinationFocusPacket, ProxyOperatorRouteFocusPacket,
    RouteFocusView,
};
use crate::handoff::HandoffView;
use crate::lens::{
    DestinationLensView, ProxyOperatorDestinationLens, ProxyOperatorRouteLens, RouteLensView,
};
use crate::policy::{state_label, state_label_of};
use crate::snapshot::ProxyOperatorSnapshot;
use crate::casebook::CasebookView;
use crate::trace::{TimelineView, TraceView, TriageView};

verus! {

/// The first summary among the given ones, if any.
pub open spec fn first_summary(
    handoff: Option<Seq<char>>,
    triage: Option<Seq<char>>,
    casebook: Option<Seq<char>>,
) -> Option<Seq<char>> {
    if handoff is Some {
        handoff
    } else if triage is Some {
        triage
    } else {
        casebook
    }
}

/// The summary of a route from its detail figures.
pub open spec fn route_detail_summary(destinations: nat, warnings: nat, fallback_ready: bool) -> Seq<char> {
    decimal(destinations) + " destination(s), "@ + decimal(warnings) + " warning(s), fallback_ready="@
        + bool_text(fallback_ready)
}

/// The summary of a destination from its detail figures.
pub open spec fn destination_detail_summary(queue_depth: nat, send_failures: nat, drops: nat, linked_routes: nat) -> Seq<
    char,
> {
    "queue_depth="@ + decimal(queue_depth) + ", send_failures="@ + decimal(send_failures)
        + ", drops="@ + decimal(drops) + ", linked_routes="@ + decimal(linked_routes)
}

/// The summary of a route from its detail figures.
pub fn route_figures_summary(destination_count: usize, warning_count: usize, fallback_ready: bool) -> (r:
    String)
    ensures
        r@ == route_detail_summary(destination_count as nat, warning_count as nat, fallback_ready),
{
    let mut line = owned("");
    append_count(&mut line, "", destination_count);
    append_count(&mut line, " destination(s), ", warning_count);
    append_flag(&mut line, " warning(s), fallback_ready=", fallback_ready);
    proof {
        reveal_strlit("");
    }
    assert(line@ =~= route_detail_summary(
        destination_count as nat,
        warning_count as nat,
        fallback_ready,
    ));
    line
}

/// The summary of a destination from its detail figures.
pub fn destination_figures_summary(
    live_queue_depth: usize,
    send_failures_total: u64,
    drops_total: u64,
    linked_routes: usize,
) -> (r: String)
    ensures
        r@ == destination_detail_summary(
            live_queue_depth as nat,
            send_failures_total as nat,
            drops_total as nat,
            linked_routes as nat,
        ),
{
    let mut line = owned("");
    append_count(&mut line, "queue_depth=", live_queue_depth);
    append_total(&mut line, ", send_failures=", send_failures_total);
    append_total(&mut line, ", drops=", drops_total);
    append_count(&mut line, ", linked_routes=", linked_routes);
    proof {
        reveal_strlit("");
    }
    assert(line@ =~= destination_detail_summary(
        live_queue_depth as nat,
        send_failures_total as nat,
        drops_total as nat,
        linked_routes as nat,
    ));
    line
}

fn summary_of(
    handoff: Option<&String>,
    triage: Option<&String>,
    casebook: Option<&String>,
) -> (r: Option<String>)
    ensures
        match r {
            Some(s) => first_summary(
                match handoff {
                    Some(h) => Some(h@),
                    None => None,
                },
                match triage {
                    Some(t) => Some(t@),
                    None => None,
                },
                match casebook {
                    Some(c) => Some(c@),
                    None => None,
                },
            ) == Some(s@),
            None => handoff is None && triage is None && casebook is None,
        },
{
    match handoff {
        Some(h) => Some(h.duplicate()),
        None => match triage {
            Some(t) => Some(t.duplicate()),
            None => match casebook {
                Some(c) => Some(c.duplicate()),
                None => None,
            },
        },
    }
}

/// The summary of a route brief: the handoff's, else the triage's, else the
/// casebook record's, else one from the route's detail figures.
pub fn route_summary(
    handoff: Option<&ProxyOperatorRouteHandoff>,
    triage: Option<&ProxyOperatorRouteTriage>,
    casebook: Option<&ProxyOperatorRouteCasebook>,
    destination_count: usize,
    warning_count: usize,
    fallback_ready: bool,
) -> (r: String)
    ensures
        r@ == match first_summary(
            match handoff {
                Some(h) => Some(h.summary@),
                None => None,
            },
            match triage {
                Some(t) => Some(t.summary@),
                None => None,
            },
            match casebook {
                Some(c) => Some(c.summary@),
                None => None,
            },
        ) {
            Some(s) => s,
            None => route_detail_summary(
                destination_count as nat,
                warning_count as nat,
                fallback_ready,
            ),
        },
{
    let found = summary_of(
        match handoff {
            Some(h) => Some(&h.summary),
            None => None,
        },
        match triage {
            Some(t) => Some(&t.summary),
            None => None,
        },
        match casebook {
            Some(c) => Some(&c.summary),
            None => None,
        },
    );
    match found {
        Some(s) => s,
        None => route_figures_summary(destination_count, warning_count, fallback_ready),
    }
}

/// The summary of a destination brief: the handoff's, else the triage's,
/// else the casebook record's, else one from the destination's detail figures.
pub fn destination_summary(
    handoff: Option<&ProxyOperatorDestinationHandoff>,
    triage: Option<&ProxyOperatorDestinationTriage>,
    casebook: Option<&ProxyOperatorDestinationCasebook>,
    live_queue_depth: usize,
    send_failures_total: u64,
    drops_total: u64,
    linked_routes: usize,
) -> (r: String)
    ensures
        r@ == match first_summary(
            match handoff {
                Some(h) => Some(h.summary@),
                None => None,
            },
            match triage {
                Some(t) => Some(t.summary@),
                None => None,
            },
            match casebook {
                Some(c) => Some(c.summary@),
                None => None,
            },
        ) {
            Some(s) => s,
            None => destination_detail_summary(
                live_queue_depth as nat,
                send_failures_total as nat,
                drops_total as nat,
                linked_routes as nat,
            ),
        },
{
    let found = summary_of(
        match handoff {
            Some(h) => Some(&h.summary),
            None => None,
        },
        match triage {
            Some(t) => Some(&t.summary),
            None => None,
        },
        match casebook {
            Some(c) => Some(&c.summary),
            None => None,
        },
    );
    match found {
        Some(s) => s,
        None => destination_figures_summary(
            live_queue_depth,
            send_failures_total,
            drops_total,
            linked_routes,
        ),
    }
}

/// How many timeline labels a brief shows.
pub const HEADLINE_LIMIT: usize = 5;

/// The first `n` of a sequence, or all of it when shorter.
pub open spec fn first_n<T>(s: Seq<T>, n: nat) -> Seq<T> {
    if s.len() > n {
        s.subrange(0, n as int)
    } else {
        s
    }
}

/// The headlines of a brief: the labels of the first five timeline entries;
/// without any, the titles of the trace's recent events, each once.
pub open spec fn timeline_headlines_view(
    timeline: Option<Seq<TimelineEntryView>>,
    events: Option<Seq<TraceEventView>>,
) -> Seq<Seq<char>> {
    let labels = match timeline {
        Some(entries) => first_n(entries, HEADLINE_LIMIT as nat).map_values(
            |e: TimelineEntryView| e.label,
        ),
        None => Seq::empty(),
    };
    if labels.len() > 0 {
        labels
    } else {
        match events {
            Some(ev) => merge_unique(Seq::empty(), ev.map_values(|e: TraceEventView| e.title)),
            None => Seq::empty(),
        }
    }
}

/// Collects the headlines of a brief.
pub fn timeline_headlines(
    timeline: Option<&Vec<ProxyOperatorTimelineEntry>>,
    events: Option<&Vec<ProxyOperatorTraceEvent>>,
) -> (r: Vec<String>)
    ensures
        r.deep_view() == timeline_headlines_view(
            match timeline {
                Some(t) => Some(t.deep_view()),
                None => None,
            },
            match events {
                Some(e) => Some(e.deep_view()),
                None => None,
            },
        ),
{
    let mut labels: Vec<String> = Vec::new();
    match timeline {
        Some(entries) => {
            let ghost s = entries.deep_view();
            let ghost limited = first_n(s, HEADLINE_LIMIT as nat);
            let n = if entries.len() > HEADLINE_LIMIT {
                HEADLINE_LIMIT
            } else {
                entries.len()
            };
            let mut i: usize = 0;
            while i < n
                invariant
                    n <= entries@.len(),
                    n == limited.len(),
                    s == entries.deep_view(),
                    limited == first_n(s, HEADLINE_LIMIT as nat),
                    i <= n,
                    labels.deep_view() == limited.subrange(0, i as int).map_values(
                        |e: TimelineEntryView| e.label,
                    ),
                decreases n - i,
            {
                assert(limited[i as int] == entries@[i as int].deep_view());
                push_value(&mut labels, entries[i].label.duplicate());
                proof {
                    lemma_map_prefix_push(limited, i as int, |e: TimelineEntryView| e.label);
                }
                i = i + 1;
            }
            assert(limited.subrange(0, i as int) =~= limited);
        },
        None => {
            assert(labels.deep_view() =~= Seq::<Seq<char>>::empty());
        },
    }
    if labels.len() > 0 {
        return labels;
    }
    assert(labels.deep_view() =~= Seq::<Seq<char>>::empty());
    match events {
        Some(ev) => {
            let mut titles: Vec<String> = Vec::new();
            let ghost s = ev.deep_view();
            let mut i: usize = 0;
            while i < ev.len()
                invariant
                    i <= ev@.len(),
                    s == ev.deep_view(),
                    titles.deep_view() == s.subrange(0, i as int).map_values(
                        |e: TraceEventView| e.title,
                    ),
                decreases ev@.len() - i,
            {
                assert(s[i as int] == ev@[i as int].deep_view());
                push_value(&mut titles, ev[i].title.duplicate());
                proof {
                    lemma_map_prefix_push(s, i as int, |e: TraceEventView| e.title);
                }
                i = i + 1;
            }
            assert(s.subrange(0, i as int) =~= s);
            extend_unique(&mut labels, &titles);
            labels
        },
        None => labels,
    }
}

/// The texts of the present sections, merged in order, each once.
pub open spec fn merged_sections<V>(first: Option<Seq<V>>, second: Option<Seq<V>>, third: Option<Seq<V>>) -> Seq<
    V,
> {
    merge_unique(
        merge_unique(
            merge_unique(
                Seq::empty(),
                match first {
                    Some(s) => s,
                    None => Seq::empty(),
                },
            ),
            match second {
                Some(s) => s,
                None => Seq::empty(),
            },
        ),
        match third {
            Some(s) => s,
            None => Seq::empty(),
        },
    )
}

/// Merges up to three sections of values in order, keeping each value once.
pub fn merge_sections<T: OperatorValue>(
    first: Option<&Vec<T>>,
    second: Option<&Vec<T>>,
    third: Option<&Vec<T>>,
) -> (r: Vec<T>)
    ensures
        r.deep_view() == merged_sections(
            match first {
                Some(s) => Some(s.deep_view()),
                None => None,
            },
            match second {
                Some(s) => Some(s.deep_view()),
                None => None,
            },
            match third {
                Some(s) => Some(s.deep_view()),
                None => None,
            },
        ),
{
    let mut merged: Vec<T> = Vec::new();
    let ghost e = Seq::<T::V>::empty();
    assert(merged.deep_view() =~= e);
    match first {
        Some(s) => extend_unique(&mut merged, s),
        None => {
            assert(merge_unique(e, e) == e);
        },
    }
    let ghost m1 = merged.deep_view();
    match second {
        Some(s) => extend_unique(&mut merged, s),
        None => {
            assert(merge_unique(m1, e) == m1);
        },
    }
    let ghost m2 = merged.deep_view();
    match third {
        Some(s) => extend_unique(&mut merged, s),
        None => {
            assert(merge_unique(m2, e) == m2);
        },
    }
    merged
}

/// The next steps of a route brief: the handoff's, triage's and casebook
/// record's steps, in that order, each once.
pub fn route_next_steps(
    handoff: Option<&ProxyOperatorRouteHandoff>,
    triage: Option<&ProxyOperatorRouteTriage>,
    casebook: Option<&ProxyOperatorRouteCasebook>,
) -> (r: Vec<String>)
    ensures
        r.deep_view() == merged_sections(
            match handoff {
                Some(h) => Some(h.next_steps.deep_view()),
                None => None,
            },
            match triage {
                Some(t) => Some(t.next_steps.deep_view()),
                None => None,
            },
            match casebook {
                Some(c) => Some(c.next_steps.deep_view()),
                None => None,
            },
        ),
{
    merge_sections(
        match handoff {
            Some(h) => Some(&h.next_steps),
            None => None,
        },
        match triage {
            Some(t) => Some(&t.next_steps),
            None => None,
        },
        match casebook {
            Some(c) => Some(&c.next_steps),
            None => None,
        },
    )
}

/// The next steps of a destination brief: the handoff's, triage's and
/// casebook record's steps, in that order, each once.
pub fn destination_next_steps(
    handoff: Option<&ProxyOperatorDestinationHandoff>,
    triage: Option<&ProxyOperatorDestinationTriage>,
    casebook: Option<&ProxyOperatorDestinationCasebook>,
) -> (r: Vec<String>)
    ensures
        r.deep_view() == merged_sections(
            match handoff {
                Some(h) => Some(h.next_steps.deep_view()),
                None => None,
            },
            match triage {
                Some(t) => Some(t.next_steps.deep_view()),
                None => None,
            },
            match casebook {
                Some(c) => Some(c.next_steps.deep_view()),
                None => None,
            },
        ),
{
    merge_sections(
        match handoff {
            Some(h) => Some(&h.next_steps),
            None => None,
        },
        match triage {
            Some(t) => Some(&t.next_steps),
            None => None,
        },
        match casebook {
            Some(c) => Some(&c.next_steps),
            None => None,
        },
    )
}

/// The actions of a route brief: the handoff's, triage's and casebook
/// record's, in that order, each once.
pub fn route_actions(
    handoff: Option<&ProxyOperatorRouteHandoff>,
    triage: Option<&ProxyOperatorRouteTriage>,
    casebook: Option<&ProxyOperatorRouteCasebook>,
) -> (r: Vec<ProxyOperatorSuggestedAction>)
    ensures
        r.deep_view() == merged_sections(
            match handoff {
                Some(h) => Some(h.actions.deep_view()),
                None => None,
            },
            match triage {
                Some(t) => Some(t.actions.deep_view()),
                None => None,
            },
            match casebook {
                Some(c) => Some(c.recommended_actions.deep_view()),
                None => None,
            },
        ),
{
    merge_sections(
        match handoff {
            Some(h) => Some(&h.actions),
            None => None,
        },
        match triage {
            Some(t) => Some(&t.actions),
            None => None,
        },
        match casebook {
            Some(c) => Some(&c.recommended_actions),
            None => None,
        },
    )
}

/// The actions of a destination brief: the handoff's, triage's and casebook
/// record's, in that order, each once.
pub fn destination_actions(
    handoff: Option<&ProxyOperatorDestinationHandoff>,
    triage: Option<&ProxyOperatorDestinationTriage>,
    casebook: Option<&ProxyOperatorDestinationCasebook>,
) -> (r: Vec<ProxyOperatorSuggestedAction>)
    ensures
        r.deep_view() == merged_sections(
            match handoff {
                Some(h) => Some(h.actions.deep_view()),
                None => None,
            },
            match triage {
                Some(t) => Some(t.actions.deep_view()),
                None => None,
            },
            match casebook {
                Some(c) => Some(c.recommended_actions.deep_view()),
                None => None,
            },
        ),
{
    merge_sections(
        match handoff {
            Some(h) => Some(&h.actions),
            None => None,
        },
        match triage {
            Some(t) => Some(&t.actions),
            None => None,
        },
        match casebook {
            Some(c) => Some(&c.recommended_actions),
            None => None,
        },
    )
}

/// How many recent trace events a mission highlights.
pub const TRACE_HIGHLIGHT_LIMIT: usize = 4;

/// The titles of the first four recent events of a trace, none without one.
pub open spec fn trace_highlights_view(events: Option<Seq<TraceEventView>>) -> Seq<Seq<char>> {
    match events {
        Some(ev) => first_n(ev, TRACE_HIGHLIGHT_LIMIT as nat).map_values(|e: TraceEventView| e.title),
        None => Seq::empty(),
    }
}

/// Lists the titles of the first four recent events of a trace.
pub fn trace_highlights(events: Option<&Vec<ProxyOperatorTraceEvent>>) -> (r: Vec<String>)
    ensures
        r.deep_view() == trace_highlights_view(
            match events {
                Some(e) => Some(e.deep_view()),
                None => None,
            },
        ),
{
    let mut titles: Vec<String> = Vec::new();
    match events {
        Some(ev) => {
            let ghost s = ev.deep_view();
            let ghost limited = first_n(s, TRACE_HIGHLIGHT_LIMIT as nat);
            let n = if ev.len() > TRACE_HIGHLIGHT_LIMIT {
                TRACE_HIGHLIGHT_LIMIT
            } else {
                ev.len()
            };
            let mut i: usize = 0;
            while i < n
                invariant
                    n <= ev@.len(),
                    n == limited.len(),
                    s == ev.deep_view(),
                    limited == first_n(s, TRACE_HIGHLIGHT_LIMIT as nat),
                    i <= n,
                    titles.deep_view() == limited.subrange(0, i as int).map_values(
                        |e: TraceEventView| e.title,
                    ),
                decreases n - i,
            {
                assert(limited[i as int] == ev@[i as int].deep_view());
                push_value(&mut titles, ev[i].title.duplicate());
                proof {
                    lemma_map_prefix_push(limited, i as int, |e: TraceEventView| e.title);
                }
                i = i + 1;
            }
            assert(limited.subrange(0, i as int) =~= limited);
        },
        None => {
            assert(titles.deep_view() =~= Seq::<Seq<char>>::empty());
        },
    }
    titles
}

// ---------------------------------------------------------------------------
// The brief catalog
// ---------------------------------------------------------------------------

/// The brief of one route.
#[derive(Clone, Debug)]
pub struct ProxyOperatorRouteBrief {
    pub route_id: String,
    pub state: String,
    pub summary: String,
    pub global_blockers: Vec<String>,
    pub scoped_blockers: Vec<String>,
    pub global_overrides: Vec<String>,
    pub headline_timeline: Vec<String>,
    pub next_steps: Vec<String>,
    pub recommended_actions: Vec<ProxyOperatorSuggestedAction>,
    pub focus: ProxyOperatorRouteFocusPacket,
    pub lens: Option<ProxyOperatorRouteLens>,
}

/// The brief of one destination.
#[derive(Clone, Debug)]
pub struct ProxyOperatorDestinationBrief {
    pub destination_id: String,
    pub state: String,
    pub summary: String,
    pub global_blockers: Vec<String>,
    pub scoped_blockers: Vec<String>,
    pub global_overrides: Vec<String>,
    pub headline_timeline: Vec<String>,
    pub next_steps: Vec<String>,
    pub recommended_actions: Vec<ProxyOperatorSuggestedAction>,
    pub focus: ProxyOperatorDestinationFocusPacket,
    pub lens: Option<ProxyOperatorDestinationLens>,
}

/// Briefs of every focused route and destination.
#[derive(Clone, Debug, Default)]
pub struct ProxyOperatorBriefCatalog {
    pub state: String,
    pub global_blockers: Vec<String>,
    pub global_overrides: Vec<String>,
    pub global_next_steps: Vec<String>,
    pub routes: Vec<ProxyOperatorRouteBrief>,
    pub destinations: Vec<ProxyOperatorDestinationBrief>,
}

/// The contents of a route brief.
pub struct RouteBriefView {
    pub route_id: Seq<char>,
    pub state: Seq<char>,
    pub summary: Seq<char>,
    pub global_blockers: Seq<Seq<char>>,
    pub scoped_blockers: Seq<Seq<char>>,
    pub global_overrides: Seq<Seq<char>>,
    pub headline_timeline: Seq<Seq<char>>,
    pub next_steps: Seq<Seq<char>>,
    pub recommended_actions: Seq<SuggestedActionView>,
    pub focus: RouteFocusView,
    pub lens: Option<RouteLensView>,
}

/// The contents of a destination brief.
pub struct DestinationBriefView {
    pub destination_id: Seq<char>,
    pub state: Seq<char>,
    pub summary: Seq<char>,
    pub global_blockers: Seq<Seq<char>>,
    pub scoped_blockers: Seq<Seq<char>>,
    pub global_overrides: Seq<Seq<char>>,
    pub headline_timeline: Seq<Seq<char>>,
    pub next_steps: Seq<Seq<char>>,
    pub recommended_actions: Seq<SuggestedActionView>,
    pub focus: DestinationFocusView,
    pub lens: Option<DestinationLensView>,
}

impl DeepView for ProxyOperatorRouteBrief {
    type V = RouteBriefView;

    open spec fn deep_view(&self) -> RouteBriefView {
        RouteBriefView {
            route_id: self.route_id@,
            state: self.state@,
            summary: self.summary@,
            global_blockers: self.global_blockers.deep_view(),
            scoped_blockers: self.scoped_blockers.deep_view(),
            global_overrides: self.global_overrides.deep_view(),
            headline_timeline: self.headline_timeline.deep_view(),
            next_steps: self.next_steps.deep_view(),
            recommended_actions: self.recommended_actions.deep_view(),
            focus: self.focus.deep_view(),
            lens: self.lens.deep_view(),
        }
    }
}

impl DeepView for ProxyOperatorDestinationBrief {
    type V = DestinationBriefView;

    open spec fn deep_view(&self) -> DestinationBriefView {
        DestinationBriefView {
            destination_id: self.destination_id@,
            state: self.state@,
            summary: self.summary@,
            global_blockers: self.global_blockers.deep_view(),
            scoped_blockers: self.scoped_blockers.deep_view(),
            global_overrides: self.global_overrides.deep_view(),
            headline_timeline: self.headline_timeline.deep_view(),
            next_steps: self.next_steps.deep_view(),
            recommended_actions: self.recommended_actions.deep_view(),
            focus: self.focus.deep_view(),
            lens: self.lens.deep_view(),
        }
    }
}

impl Identified for ProxyOperatorRouteBrief {
    open spec fn id_of(v: RouteBriefView) -> Seq<char> {
        v.route_id
    }

    fn id_text(&self) -> (r: &str) {
        self.route_id.as_str()
    }
}

impl Identified for ProxyOperatorDestinationBrief {
    open spec fn id_of(v: DestinationBriefView) -> Seq<char> {
        v.destination_id
    }

    fn id_text(&self) -> (r: &str) {
        self.destination_id.as_str()
    }
}

impl OperatorValue for ProxyOperatorRouteBrief {
    fn duplicate(&self) -> (r: Self) {
        ProxyOperatorRouteBrief {
            route_id: self.route_id.duplicate(),
            state: self.state.duplicate(),
            summary: self.summary.duplicate(),
            global_blockers: duplicate_all(&self.global_blockers),
            scoped_blockers: duplicate_all(&self.scoped_blockers),
            global_overrides: duplicate_all(&self.global_overrides),
            headline_timeline: duplicate_all(&self.headline_timeline),
            next_steps: duplicate_all(&self.next_steps),
            recommended_actions: duplicate_all(&self.recommended_actions),
            focus: self.focus.duplicate(),
            lens: self.lens.duplicate(),
        }
    }

    fn same_value(&self, other: &Self) -> (r: bool) {
        self.route_id.same_value(&other.route_id) && self.state.same_value(&other.state)
            && self.summary.same_value(&other.summary) && self.global_blockers.same_value(
            &other.global_blockers,
        ) && self.scoped_blockers.same_value(&other.scoped_blockers)
            && self.global_overrides.same_value(&other.global_overrides)
            && self.headline_timeline.same_value(&other.headline_timeline)
            && self.next_steps.same_value(&other.next_steps) && self.recommended_actions.same_value(
            &other.recommended_actions,
        ) && self.focus.same_value(&other.focus) && self.lens.same_value(&other.lens)
    }
}

impl OperatorValue for ProxyOperatorDestinationBrief {
    fn duplicate(&self) -> (r: Self) {
        ProxyOperatorDestinationBrief {
            destination_id: self.destination_id.duplicate(),
            state: self.state.duplicate(),
            summary: self.summary.duplicate(),
            global_blockers: duplicate_all(&self.global_blockers),
            scoped_blockers: duplicate_all(&self.scoped_blockers),
            global_overrides: duplicate_all(&self.global_overrides),
            headline_timeline: duplicate_all(&self.headline_timeline),
            next_steps: duplicate_all(&self.next_steps),
            recommended_actions: duplicate_all(&self.recommended_actions),
            focus: self.focus.duplicate(),
            lens: self.lens.duplicate(),
        }
    }

    fn same_value(&self, other: &Self) -> (r: bool) {
        self.destination_id.same_value(&other.destination_id) && self.state.same_value(
            &other.state,
        ) && self.summary.same_value(&other.summary) && self.global_blockers.same_value(
            &other.global_blockers,
        ) && self.scoped_blockers.same_value(&other.scoped_blockers)
            && self.global_overrides.same_value(&other.global_overrides)
            && self.headline_timeline.same_value(&other.headline_timeline)
            && self.next_steps.same_value(&other.next_steps) && self.recommended_actions.same_value(
            &other.recommended_actions,
        ) && self.focus.same_value(&other.focus) && self.lens.same_value(&other.lens)
    }
}

/// A present part of an optional entry.
pub open spec fn part<V, P>(entry: Option<V>, f: spec_fn(V) -> P) -> Option<P> {
    match entry {
        Some(v) => Some(f(v)),
        None => None,
    }
}

/// The brief of a focused route.
pub open spec fn route_brief_view(
    snapshot: ProxyOperatorSnapshot,
    lenses: Seq<RouteLensView>,
    f: RouteFocusView,
) -> RouteBriefView {
    let id = f.route_id;
    RouteBriefView {
        route_id: id,
        state: state_label_of(scoped_state_view(select_items(all_board_items(snapshot), id, true, false))),
        summary: match first_summary(
            part(f.handoff, |v: HandoffView| v.summary),
            part(f.triage, |v: TriageView| v.summary),
            part(f.casebook, |v: CasebookView| v.summary),
        ) {
            Some(s) => s,
            None => route_detail_summary(
                f.detail.destination_ids.len(),
                f.detail.warnings.len(),
                f.detail.direct_udp_fallback_available,
            ),
        },
        global_blockers: global_blockers_view(snapshot),
        scoped_blockers: scoped_blockers_view(snapshot, id, true),
        global_overrides: global_overrides_view(snapshot),
        headline_timeline: timeline_headlines_view(
            part(f.timeline, |v: TimelineView| v.entries),
            part(f.trace, |v: TraceView| v.recent_events),
        ),
        next_steps: merged_sections(
            part(f.handoff, |v: HandoffView| v.next_steps),
            part(f.triage, |v: TriageView| v.next_steps),
            part(f.casebook, |v: CasebookView| v.next_steps),
        ),
        recommended_actions: merged_sections(
            part(f.handoff, |v: HandoffView| v.actions),
            part(f.triage, |v: TriageView| v.actions),
            part(f.casebook, |v: CasebookView| v.recommended_actions),
        ),
        focus: f,
        lens: find_by_id::<ProxyOperatorRouteLens>(lenses, id),
    }
}

/// The brief of a focused destination.
pub open spec fn destination_brief_view(
    snapshot: ProxyOperatorSnapshot,
    lenses: Seq<DestinationLensView>,
    f: DestinationFocusView,
) -> DestinationBriefView {
    let id = f.destination_id;
    DestinationBriefView {
        destination_id: id,
        state: state_label_of(scoped_state_view(select_items(all_board_items(snapshot), id, false, false))),
        summary: match first_summary(
            part(f.handoff, |v: HandoffView| v.summary),
            part(f.triage, |v: TriageView| v.summary),
            part(f.casebook, |v: CasebookView| v.summary),
        ) {
            Some(s) => s,
            None => destination_detail_summary(
                f.detail.live_queue_depth as nat,
                f.detail.send_failures_total as nat,
                f.detail.drops_total as nat,
                f.detail.route_ids.len(),
            ),
        },
        global_blockers: global_blockers_view(snapshot),
        scoped_blockers: scoped_blockers_view(snapshot, id, false),
        global_overrides: global_overrides_view(snapshot),
        headline_timeline: timeline_headlines_view(
            part(f.timeline, |v: TimelineView| v.entries),
            part(f.trace, |v: TraceView| v.recent_events),
        ),
        next_steps: merged_sections(
            part(f.handoff, |v: HandoffView| v.next_steps),
            part(f.triage, |v: TriageView| v.next_steps),
            part(f.casebook, |v: CasebookView| v.next_steps),
        ),
        recommended_actions: merged_sections(
            part(f.handoff, |v: HandoffView| v.actions),
            part(f.triage, |v: TriageView| v.actions),
            part(f.casebook, |v: CasebookView| v.recommended_actions),
        ),
        focus: f,
        lens: find_by_id::<ProxyOperatorDestinationLens>(lenses, id),
    }
}

/// The headlines of a route's brief: the labels of its first five timeline
/// entries; when it has none, the titles of its trace's recent events, each once.
pub fn route_timeline_headlines(focus: &ProxyOperatorRouteFocusPacket) -> (r: Vec<String>)
    ensures
        r.deep_view() == timeline_headlines_view(
            part(focus.deep_view().timeline, |v: TimelineView| v.entries),
            part(focus.deep_view().trace, |v: TraceView| v.recent_events),
        ),
{
    let timeline = match &focus.timeline {
        Some(v) => Some(&v.entries),
        None => None,
    };
    let events = match &focus.trace {
        Some(v) => Some(&v.recent_events),
        None => None,
    };
    timeline_headlines(timeline, events)
}

/// The headlines of a destination's brief: the labels of its first five
/// timeline entries; when it has none, the titles of its trace's recent
/// events, each once.
pub fn destination_timeline_headlines(focus: &ProxyOperatorDestinationFocusPacket) -> (r: Vec<
    String,
>)
    ensures
        r.deep_view() == timeline_headlines_view(
            part(focus.deep_view().timeline, |v: TimelineView| v.entries),
            part(focus.deep_view().trace, |v: TraceView| v.recent_events),
        ),
{
    let timeline = match &focus.timeline {
        Some(v) => Some(&v.entries),
        None => None,
    };
    let events = match &focus.trace {
        Some(v) => Some(&v.recent_events),
        None => None,
    };
    timeline_headlines(timeline, events)
}

fn route_brief(
    snapshot: &ProxyOperatorSnapshot,
    lenses: &Vec<ProxyOperatorRouteLens>,
    global_blockers: &Vec<String>,
    global_overrides: &Vec<String>,
    focus: &ProxyOperatorRouteFocusPacket,
) -> (r: ProxyOperatorRouteBrief)
    requires
        global_blockers.deep_view() == global_blockers_view(*snapshot),
        global_overrides.deep_view() == global_overrides_view(*snapshot),
    ensures
        r.deep_view() == route_brief_view(*snapshot, lenses.deep_view(), focus.deep_view()),
{
    let id = focus.route_id.as_str();
    let handoff = match &focus.handoff {
        Some(v) => Some(v),
        None => None,
    };
    let triage = match &focus.triage {
        Some(v) => Some(v),
        None => None,
    };
    let casebook = match &focus.casebook {
        Some(v) => Some(v),
        None => None,
    };
    ProxyOperatorRouteBrief {
        route_id: focus.route_id.duplicate(),
        state: state_label(route_state(snapshot, id)),
        summary: route_summary(
            handoff,
            triage,
            casebook,
            focus.detail.destination_ids.len(),
            focus.detail.warnings.len(),
            focus.detail.direct_udp_fallback_available,
        ),
        global_blockers: duplicate_all(global_blockers),
        scoped_blockers: scoped_route_blockers(snapshot, id),
        global_overrides: duplicate_all(global_overrides),
        headline_timeline: route_timeline_headlines(focus),
        next_steps: route_next_steps(handoff, triage, casebook),
        recommended_actions: route_actions(handoff, triage, casebook),
        focus: focus.duplicate(),
        lens: copy_by_id(lenses, id),
    }
}

fn destination_brief(
    snapshot: &ProxyOperatorSnapshot,
    lenses: &Vec<ProxyOperatorDestinationLens>,
    global_blockers: &Vec<String>,
    global_overrides: &Vec<String>,
    focus: &ProxyOperatorDestinationFocusPacket,
) -> (r: ProxyOperatorDestinationBrief)
    requires
        global_blockers.deep_view() == global_blockers_view(*snapshot),
        global_overrides.deep_view() == global_overrides_view(*snapshot),
    ensures
        r.deep_view() == destination_brief_view(*snapshot, lenses.deep_view(), focus.deep_view()),
{
    let id = focus.destination_id.as_str();
    let handoff = match &focus.handoff {
        Some(v) => Some(v),
        None => None,
    };
    let triage = match &focus.triage {
        Some(v) => Some(v),
        None => None,
    };
    let casebook = match &focus.casebook {
        Some(v) => Some(v),
        None => None,
    };
    ProxyOperatorDestinationBrief {
        destination_id: focus.destination_id.duplicate(),
        state: state_label(destination_state(snapshot, id)),
        summary: destination_summary(
            handoff,
            triage,
            casebook,
            focus.detail.live_queue_depth,
            focus.detail.send_failures_total,
            focus.detail.drops_total,
            focus.detail.route_ids.len(),
        ),
        global_blockers: duplicate_all(global_blockers),
        scoped_blockers: scoped_destination_blockers(snapshot, id),
        global_overrides: duplicate_all(global_overrides),
        headline_timeline: destination_timeline_headlines(focus),
        next_steps: destination_next_steps(handoff, triage, casebook),
        recommended_actions: destination_actions(handoff, triage, casebook),
        focus: focus.duplicate(),
        lens: copy_by_id(lenses, id),
    }
}

/// Builds a brief for every focused route and destination of a dashboard,
/// in focus order, with the broker-wide context and triage steps.
pub fn proxy_operator_brief_from_dashboard(dashboard: &ProxyOperatorDashboard) -> (r:
    ProxyOperatorBriefCatalog)
    ensures
        r.state@ == state_label_of(dashboard.snapshot.overview.report.state),
        r.global_blockers.deep_view() == global_blockers_view(dashboard.snapshot),
        r.global_overrides.deep_view() == global_overrides_view(dashboard.snapshot),
        r.global_next_steps.deep_view() == dashboard.snapshot.triage.global.next_steps.deep_view(),
        r.routes.deep_view() == dashboard.focus.routes.deep_view().map_values(
            |f: RouteFocusView|
                route_brief_view(dashboard.snapshot, dashboard.lens.routes.deep_view(), f),
        ),
        r.destinations.deep_view() == dashboard.focus.destinations.deep_view().map_values(
            |f: DestinationFocusView|
                destination_brief_view(dashboard.snapshot, dashboard.lens.destinations.deep_view(), f),
        ),
{
    let snapshot = &dashboard.snapshot;
    let context = snapshot_context(snapshot);
    let ghost rf = dashboard.focus.routes.deep_view();
    let ghost df = dashboard.focus.destinations.deep_view();
    let mut routes: Vec<ProxyOperatorRouteBrief> = Vec::new();
    let mut i: usize = 0;
    while i < dashboard.focus.routes.len()
        invariant
            i <= dashboard.focus.routes@.len(),
            snapshot == &dashboard.snapshot,
            rf == dashboard.focus.routes.deep_view(),
            context.global_blockers.deep_view() == global_blockers_view(dashboard.snapshot),
            context.global_overrides.deep_view() == global_overrides_view(dashboard.snapshot),
            routes.deep_view() == rf.subrange(0, i as int).map_values(
                |f: RouteFocusView|
                    route_brief_view(dashboard.snapshot, dashboard.lens.routes.deep_view(), f),
            ),
        decreases dashboard.focus.routes@.len() - i,
    {
        assert(rf[i as int] == dashboard.focus.routes@[i as int].deep_view());
        let entry = route_brief(
            snapshot,
            &dashboard.lens.routes,
            &context.global_blockers,
            &context.global_overrides,
            &dashboard.focus.routes[i],
        );
        push_value(&mut routes, entry);
        assert(routes.deep_view() =~= rf.subrange(0, i + 1).map_values(
            |f: RouteFocusView|
                route_brief_view(dashboard.snapshot, dashboard.lens.routes.deep_view(), f),
        ));
        i = i + 1;
    }
    assert(rf.subrange(0, i as int) =~= rf);
    let mut destinations: Vec<ProxyOperatorDestinationBrief> = Vec::new();
    let mut k: usize = 0;
    while k < dashboard.focus.destinations.len()
        invariant
            k <= dashboard.focus.destinations@.len(),
            snapshot == &dashboard.snapshot,
            df == dashboard.focus.destinations.deep_view(),
            context.global_blockers.deep_view() == global_blockers_view(dashboard.snapshot),
            context.global_overrides.deep_view() == global_overrides_view(dashboard.snapshot),
            destinations.deep_view() == df.subrange(0, k as int).map_values(
                |f: DestinationFocusView|
                    destination_brief_view(
                        dashboard.snapshot,
                        dashboard.lens.destinations.deep_view(),
                        f,
                    ),
            ),
        decreases dashboard.focus.destinations@.len() - k,
    {
        assert(df[k as int] == dashboard.focus.destinations@[k as int].deep_view());
        let entry = destination_brief(
            snapshot,
            &dashboard.lens.destinations,
            &context.global_blockers,
            &context.global_overrides,
            &dashboard.focus.destinations[k],
        );
        push_value(&mut destinations, entry);
        assert(destinations.deep_view() =~= df.subrange(0, k + 1).map_values(
            |f: DestinationFocusView|
                destination_brief_view(dashboard.snapshot, dashboard.lens.destinations.deep_view(), f),
        ));
        k = k + 1;
    }
    assert(df.subrange(0, k as int) =~= df);
    ProxyOperatorBriefCatalog {
        state: state_label(snapshot.overview.report.state),
        global_blockers: context.global_blockers,
        global_overrides: context.global_overrides,
        global_next_steps: duplicate_all(&snapshot.triage.global.next_steps),
        routes,
        destinations,
    }
}

} // verus!
