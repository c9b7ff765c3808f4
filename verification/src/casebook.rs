//! The operator casebook: for every traced route and destination, one record
//! that joins its trace with the matching handoff, triage and timeline
//! entries, the incidents that concern it and its recovery settings.
use vstd::prelude::*;

use crate::handoff::{
    destination_handoffs, route_handoffs, HandoffView, ProxyOperatorDestinationHandoff,
    ProxyOperatorRouteHandoff, destination_handoff_view, route_handoff_view,
};
use crate::incident_digest::{IncidentClusterView, ProxyOperatorIncidentCluster, ProxyOperatorIncidentScope};
use crate::model::{
    ProxyOperatorSuggestedAction, ProxyOperatorTimelineEntry, ProxyOperatorTraceEvent,
    ProxyOperatorTraceEventLevel, SuggestedActionView, TimelineEntryView, TraceEventView,
};
use crate::policy::{state_label, state_label_of};
use crate::snapshot::ProxyOperatorSnapshot;
use crate::sorting::{
    dedup_by_key, dedup_entries, entry_views, key_view, sort_by_key, sort_entries, KeyView, SortKey,
};
use crate::text::{bool_string, bool_text, count_string, decimal, decimal_string, join2, join3, owned, str_equal, utf8};
use crate::trace::{
    ProxyOperatorDestinationTimeline, ProxyOperatorDestinationTrace, ProxyOperatorDestinationTriage,
    ProxyOperatorRecoveryDestination, ProxyOperatorRecoveryRoute, ProxyOperatorRouteTimeline,
    ProxyOperatorRouteTrace, ProxyOperatorRouteTriage, ProxyOperatorTimelineCatalog,
    ProxyOperatorTraceCatalog, ProxyOperatorTriageCatalog, RecoveryDestinationView, RecoveryRouteView,
    TimelineView, TriageView,
};
use crate::values::{
    duplicate_all, extend_unique, find_by_id, lemma_map_prefix_push, merge_unique, position_by_id,
    push_value, Identified, OperatorValue,
};

verus! {

broadcast use vstd::slice::group_slice_axioms;

/// Casebook record of one route.
#[derive(Clone, Debug)]
pub struct ProxyOperatorRouteCasebook {
    pub route_id: String,
    pub level: ProxyOperatorTraceEventLevel,
    pub summary: String,
    pub linked_destination_ids: Vec<String>,
    pub incident_titles: Vec<String>,
    pub next_steps: Vec<String>,
    pub recommended_actions: Vec<ProxyOperatorSuggestedAction>,
    pub recovery_surface: Vec<String>,
    pub recent_events: Vec<ProxyOperatorTraceEvent>,
    pub timeline: Vec<ProxyOperatorTimelineEntry>,
}

/// Casebook record of one destination.
#[derive(Clone, Debug)]
pub struct ProxyOperatorDestinationCasebook {
    pub destination_id: String,
    pub level: ProxyOperatorTraceEventLevel,
    pub summary: String,
    pub linked_route_ids: Vec<String>,
    pub incident_titles: Vec<String>,
    pub next_steps: Vec<String>,
    pub recommended_actions: Vec<ProxyOperatorSuggestedAction>,
    pub recovery_surface: Vec<String>,
    pub recent_events: Vec<ProxyOperatorTraceEvent>,
    pub timeline: Vec<ProxyOperatorTimelineEntry>,
}

/// Casebook records of every traced route and destination, under the report state.
#[derive(Clone, Debug, Default)]
pub struct ProxyOperatorCasebookCatalog {
    pub state: String,
    pub route_casebooks: Vec<ProxyOperatorRouteCasebook>,
    pub destination_casebooks: Vec<ProxyOperatorDestinationCasebook>,
}

/// The contents of a route or destination casebook record.
pub struct CasebookView {
    pub id: Seq<char>,
    pub level: ProxyOperatorTraceEventLevel,
    pub summary: Seq<char>,
    pub linked_ids: Seq<Seq<char>>,
    pub incident_titles: Seq<Seq<char>>,
    pub next_steps: Seq<Seq<char>>,
    pub recommended_actions: Seq<SuggestedActionView>,
    pub recovery_surface: Seq<Seq<char>>,
    pub recent_events: Seq<TraceEventView>,
    pub timeline: Seq<TimelineEntryView>,
}

impl DeepView for ProxyOperatorRouteCasebook {
    type V = CasebookView;

    open spec fn deep_view(&self) -> CasebookView {
        CasebookView {
            id: self.route_id@,
            level: self.level,
            summary: self.summary@,
            linked_ids: self.linked_destination_ids.deep_view(),
            incident_titles: self.incident_titles.deep_view(),
            next_steps: self.next_steps.deep_view(),
            recommended_actions: self.recommended_actions.deep_view(),
            recovery_surface: self.recovery_surface.deep_view(),
            recent_events: self.recent_events.deep_view(),
            timeline: self.timeline.deep_view(),
        }
    }
}

impl DeepView for ProxyOperatorDestinationCasebook {
    type V = CasebookView;

    open spec fn deep_view(&self) -> CasebookView {
        CasebookView {
            id: self.destination_id@,
            level: self.level,
            summary: self.summary@,
            linked_ids: self.linked_route_ids.deep_view(),
            incident_titles: self.incident_titles.deep_view(),
            next_steps: self.next_steps.deep_view(),
            recommended_actions: self.recommended_actions.deep_view(),
            recovery_surface: self.recovery_surface.deep_view(),
            recent_events: self.recent_events.deep_view(),
            timeline: self.timeline.deep_view(),
        }
    }
}

// ---------------------------------------------------------------------------
// Incident titles
// ---------------------------------------------------------------------------

/// Whether an incident concerns the route (`for_route`) or destination `id`:
/// it names it, or it is broker-wide or about the configuration.
pub open spec fn cluster_concerns(c: IncidentClusterView, id: Seq<char>, for_route: bool) -> bool {
    (if for_route {
        c.route_id == Some(id)
    } else {
        c.destination_id == Some(id)
    }) || c.scope == ProxyOperatorIncidentScope::Global || c.scope
        == ProxyOperatorIncidentScope::Config
}

/// Decides `cluster_concerns`.
pub fn cluster_concerns_exec(cluster: &ProxyOperatorIncidentCluster, id: &str, for_route: bool) -> (r:
    bool)
    ensures
        r == cluster_concerns(cluster.deep_view(), id@, for_route),
{
    let named = if for_route {
        match &cluster.route_id {
            Some(r) => str_equal(r.as_str(), id),
            None => false,
        }
    } else {
        match &cluster.destination_id {
            Some(d) => str_equal(d.as_str(), id),
            None => false,
        }
    };
    named || cluster.scope == ProxyOperatorIncidentScope::Global || cluster.scope
        == ProxyOperatorIncidentScope::Config
}

/// Titles of the incidents concerning a route or destination, in digest order.
pub open spec fn concerning_titles(clusters: Seq<IncidentClusterView>, id: Seq<char>, for_route: bool) -> Seq<
    Seq<char>,
>
    decreases clusters.len(),
{
    if clusters.len() == 0 {
        Seq::empty()
    } else {
        let prev = concerning_titles(clusters.drop_last(), id, for_route);
        if cluster_concerns(clusters.last(), id, for_route) {
            prev.push(clusters.last().title)
        } else {
            prev
        }
    }
}

fn collect_concerning_titles(clusters: &Vec<ProxyOperatorIncidentCluster>, id: &str, for_route: bool) -> (r:
    Vec<String>)
    ensures
        r.deep_view() == concerning_titles(clusters.deep_view(), id@, for_route),
{
    let mut out: Vec<String> = Vec::new();
    let mut i: usize = 0;
    let ghost s = clusters.deep_view();
    assert(out.deep_view() =~= concerning_titles(s.subrange(0, 0), id@, for_route));
    while i < clusters.len()
        invariant
            i <= clusters@.len(),
            s == clusters.deep_view(),
            out.deep_view() == concerning_titles(s.subrange(0, i as int), id@, for_route),
        decreases clusters@.len() - i,
    {
        let ghost prefix = s.subrange(0, i + 1);
        assert(prefix.drop_last() =~= s.subrange(0, i as int));
        assert(prefix.last() == clusters@[i as int].deep_view());
        if cluster_concerns_exec(&clusters[i], id, for_route) {
            push_value(&mut out, clusters[i].title.duplicate());
        }
        i = i + 1;
    }
    assert(s.subrange(0, i as int) =~= s);
    out
}

/// The sort entry of a title: ordered by its bytes alone.
pub open spec fn title_entry(t: Seq<char>) -> (KeyView, Seq<char>) {
    ((0u64, 0u64, utf8(t)), t)
}

/// Titles in byte order, each kept once.
pub open spec fn sorted_unique(titles: Seq<Seq<char>>) -> Seq<Seq<char>> {
    dedup_entries(sort_entries(titles.map_values(|t: Seq<char>| title_entry(t)))).map_values(
        |e: (KeyView, Seq<char>)| e.1,
    )
}

/// Sorts titles in byte order and drops repeats.
pub fn sort_unique_titles(titles: &Vec<String>) -> (r: Vec<String>)
    ensures
        r.deep_view() == sorted_unique(titles.deep_view()),
{
    let ghost s = titles.deep_view();
    let mut keyed: Vec<(SortKey, String)> = Vec::new();
    let mut i: usize = 0;
    while i < titles.len()
        invariant
            i <= titles@.len(),
            s == titles.deep_view(),
            entry_views(keyed@) == s.subrange(0, i as int).map_values(
                |t: Seq<char>| title_entry(t),
            ),
        decreases titles@.len() - i,
    {
        let text = vstd::slice::slice_to_vec(titles[i].as_str().as_bytes());
        let entry = (SortKey { rank: 0, order: 0, text }, titles[i].duplicate());
        let ghost before = keyed@;
        keyed.push(entry);
        proof {
            assert(entry_views(keyed@) =~= entry_views(before).push(
                (key_view(entry.0), entry.1.deep_view()),
            ));
            lemma_map_prefix_push(s, i as int, |t: Seq<char>| title_entry(t));
        }
        i = i + 1;
    }
    assert(s.subrange(0, i as int) =~= s);
    let unique = dedup_by_key(sort_by_key(keyed));
    let ghost u = entry_views(unique@);
    let mut out: Vec<String> = Vec::new();
    let mut k: usize = 0;
    while k < unique.len()
        invariant
            k <= unique@.len(),
            u == entry_views(unique@),
            out.deep_view() == u.subrange(0, k as int).map_values(|e: (KeyView, Seq<char>)| e.1),
        decreases unique@.len() - k,
    {
        let t = unique[k].1.duplicate();
        assert(u[k as int].1 == t@);
        push_value(&mut out, t);
        proof {
            lemma_map_prefix_push(u, k as int, |e: (KeyView, Seq<char>)| e.1);
        }
        k = k + 1;
    }
    assert(u.subrange(0, k as int) =~= u);
    out
}

/// Titles of the incidents concerning a route or destination, sorted, each once.
pub open spec fn incident_titles_view(clusters: Seq<IncidentClusterView>, id: Seq<char>, for_route: bool) -> Seq<
    Seq<char>,
> {
    sorted_unique(concerning_titles(clusters, id, for_route))
}

/// Titles of the incidents concerning a route or destination.
pub fn incident_titles(snapshot: &ProxyOperatorSnapshot, id: &str, for_route: bool) -> (r: Vec<String>)
    ensures
        r.deep_view() == incident_titles_view(
            snapshot.incident_digest.clusters.deep_view(),
            id@,
            for_route,
        ),
{
    let titles = collect_concerning_titles(&snapshot.incident_digest.clusters, id, for_route);
    sort_unique_titles(&titles)
}

// ---------------------------------------------------------------------------
// Record parts
// ---------------------------------------------------------------------------

/// The trace summary, followed by the handoff summary when there is one that
/// differs from it.
pub open spec fn casebook_summary_view(primary: Seq<char>, secondary: Option<Seq<char>>) -> Seq<char> {
    match secondary {
        Some(s) => if s != primary {
            primary + " "@ + s
        } else {
            primary
        },
        None => primary,
    }
}

fn casebook_summary(primary: &String, secondary: Option<&String>) -> (r: String)
    ensures
        r@ == casebook_summary_view(
            primary@,
            match secondary {
                Some(s) => Some(s@),
                None => None,
            },
        ),
{
    match secondary {
        Some(s) => {
            if !str_equal(s.as_str(), primary.as_str()) {
                join3(primary.as_str(), " ", s.as_str())
            } else {
                primary.duplicate()
            }
        },
        None => primary.duplicate(),
    }
}

/// The recovery settings of a route, one `name=value` line each.
pub open spec fn route_recovery_surface_view(c: Option<RecoveryRouteView>) -> Seq<Seq<char>> {
    match c {
        Some(c) => seq![
            "cache_policy="@ + c.cache_policy,
            "capture_policy="@ + c.capture_policy,
            "rehydrate_on_connect="@ + bool_text(c.rehydrate_on_connect),
            "replay_allowed="@ + bool_text(c.replay_allowed),
            "fallback_ready="@ + bool_text(c.fallback_ready),
        ],
        None => Seq::empty(),
    }
}

/// The recovery state of a destination, one `name=value` line each.
pub open spec fn destination_recovery_surface_view(c: Option<RecoveryDestinationView>) -> Seq<Seq<char>> {
    match c {
        Some(c) => seq![
            "queue_depth="@ + decimal(c.queue_depth as nat),
            "send_failures_total="@ + decimal(c.send_failures_total as nat),
            "drops_total="@ + decimal(c.drops_total as nat),
            "breaker_state="@ + c.breaker_state,
        ],
        None => Seq::empty(),
    }
}

/// Lists the recovery settings of the first candidate for route `id`.
pub fn route_recovery_surface(candidates: &Vec<ProxyOperatorRecoveryRoute>, id: &str) -> (r: Vec<String>)
    ensures
        r.deep_view() == route_recovery_surface_view(
            find_by_id::<ProxyOperatorRecoveryRoute>(candidates.deep_view(), id@),
        ),
{
    let mut items: Vec<String> = Vec::new();
    match position_by_id(candidates, id) {
        Some(k) => {
            let c = &candidates[k];
            assert(candidates.deep_view()[k as int] == c.deep_view());
            push_value(&mut items, join2("cache_policy=", c.cache_policy.as_str()));
            push_value(&mut items, join2("capture_policy=", c.capture_policy.as_str()));
            let b = bool_string(c.rehydrate_on_connect);
            push_value(&mut items, join2("rehydrate_on_connect=", b.as_str()));
            let b = bool_string(c.replay_allowed);
            push_value(&mut items, join2("replay_allowed=", b.as_str()));
            let b = bool_string(c.fallback_ready);
            push_value(&mut items, join2("fallback_ready=", b.as_str()));
            assert(items.deep_view() =~= route_recovery_surface_view(Some(c.deep_view())));
        },
        None => {
            assert(items.deep_view() =~= Seq::<Seq<char>>::empty());
        },
    }
    items
}

/// Lists the recovery state of the first candidate for destination `id`.
pub fn destination_recovery_surface(candidates: &Vec<ProxyOperatorRecoveryDestination>, id: &str) -> (r:
    Vec<String>)
    ensures
        r.deep_view() == destination_recovery_surface_view(
            find_by_id::<ProxyOperatorRecoveryDestination>(candidates.deep_view(), id@),
        ),
{
    let mut items: Vec<String> = Vec::new();
    match position_by_id(candidates, id) {
        Some(k) => {
            let c = &candidates[k];
            assert(candidates.deep_view()[k as int] == c.deep_view());
            let n = count_string(c.queue_depth);
            push_value(&mut items, join2("queue_depth=", n.as_str()));
            let n = decimal_string(c.send_failures_total);
            push_value(&mut items, join2("send_failures_total=", n.as_str()));
            let n = decimal_string(c.drops_total);
            push_value(&mut items, join2("drops_total=", n.as_str()));
            push_value(&mut items, join2("breaker_state=", c.breaker_state.as_str()));
            assert(items.deep_view() =~= destination_recovery_surface_view(Some(c.deep_view())));
        },
        None => {
            assert(items.deep_view() =~= Seq::<Seq<char>>::empty());
        },
    }
    items
}

/// Summary of a handoff entry, if there is one.
pub open spec fn handoff_summary(h: Option<HandoffView>) -> Option<Seq<char>> {
    match h {
        Some(v) => Some(v.summary),
        None => None,
    }
}

/// Next steps of a handoff entry, none without one.
pub open spec fn handoff_steps(h: Option<HandoffView>) -> Seq<Seq<char>> {
    match h {
        Some(v) => v.next_steps,
        None => Seq::empty(),
    }
}

/// Actions of a handoff entry, none without one.
pub open spec fn handoff_actions(h: Option<HandoffView>) -> Seq<SuggestedActionView> {
    match h {
        Some(v) => v.actions,
        None => Seq::empty(),
    }
}

/// Events of a handoff entry, none without one.
pub open spec fn handoff_events(h: Option<HandoffView>) -> Seq<TraceEventView> {
    match h {
        Some(v) => v.recent_events,
        None => Seq::empty(),
    }
}

/// Next steps of a triage entry, none without one.
pub open spec fn triage_steps(g: Option<TriageView>) -> Seq<Seq<char>> {
    match g {
        Some(v) => v.next_steps,
        None => Seq::empty(),
    }
}

/// Actions of a triage entry, none without one.
pub open spec fn triage_actions(g: Option<TriageView>) -> Seq<SuggestedActionView> {
    match g {
        Some(v) => v.actions,
        None => Seq::empty(),
    }
}

/// Events of a triage entry, none without one.
pub open spec fn triage_events(g: Option<TriageView>) -> Seq<TraceEventView> {
    match g {
        Some(v) => v.recent_events,
        None => Seq::empty(),
    }
}

/// Entries of a timeline, none without one.
pub open spec fn timeline_entries(l: Option<TimelineView>) -> Seq<TimelineEntryView> {
    match l {
        Some(v) => v.entries,
        None => Seq::empty(),
    }
}

/// The casebook record of a route trace, given the handoff, triage and
/// timeline entries to join and the snapshot's incidents and recovery settings.
pub open spec fn route_casebook_view(
    clusters: Seq<IncidentClusterView>,
    recovery: Seq<RecoveryRouteView>,
    handoffs: Seq<HandoffView>,
    triage: Seq<TriageView>,
    timelines: Seq<TimelineView>,
    t: ProxyOperatorRouteTrace,
) -> CasebookView {
    let id = t.route_id@;
    let h = find_by_id::<ProxyOperatorRouteHandoff>(handoffs, id);
    let g = find_by_id::<ProxyOperatorRouteTriage>(triage, id);
    CasebookView {
        id,
        level: t.level,
        summary: casebook_summary_view(t.summary@, handoff_summary(h)),
        linked_ids: t.related_destination_ids.deep_view(),
        incident_titles: incident_titles_view(clusters, id, true),
        next_steps: merge_unique(handoff_steps(h), triage_steps(g)),
        recommended_actions: merge_unique(
            merge_unique(t.actions.deep_view(), handoff_actions(h)),
            triage_actions(g),
        ),
        recovery_surface: route_recovery_surface_view(
            find_by_id::<ProxyOperatorRecoveryRoute>(recovery, id),
        ),
        recent_events: merge_unique(
            merge_unique(t.recent_events.deep_view(), handoff_events(h)),
            triage_events(g),
        ),
        timeline: timeline_entries(find_by_id::<ProxyOperatorRouteTimeline>(timelines, id)),
    }
}

/// The casebook record of a destination trace, given the handoff, triage and
/// timeline entries to join and the snapshot's incidents and recovery state.
pub open spec fn destination_casebook_view(
    clusters: Seq<IncidentClusterView>,
    recovery: Seq<RecoveryDestinationView>,
    handoffs: Seq<HandoffView>,
    triage: Seq<TriageView>,
    timelines: Seq<TimelineView>,
    t: ProxyOperatorDestinationTrace,
) -> CasebookView {
    let id = t.destination_id@;
    let h = find_by_id::<ProxyOperatorDestinationHandoff>(handoffs, id);
    let g = find_by_id::<ProxyOperatorDestinationTriage>(triage, id);
    CasebookView {
        id,
        level: t.level,
        summary: casebook_summary_view(t.summary@, handoff_summary(h)),
        linked_ids: t.route_ids.deep_view(),
        incident_titles: incident_titles_view(clusters, id, false),
        next_steps: merge_unique(handoff_steps(h), triage_steps(g)),
        recommended_actions: merge_unique(
            merge_unique(t.actions.deep_view(), handoff_actions(h)),
            triage_actions(g),
        ),
        recovery_surface: destination_recovery_surface_view(
            find_by_id::<ProxyOperatorRecoveryDestination>(recovery, id),
        ),
        recent_events: merge_unique(
            merge_unique(t.recent_events.deep_view(), handoff_events(h)),
            triage_events(g),
        ),
        timeline: timeline_entries(find_by_id::<ProxyOperatorDestinationTimeline>(timelines, id)),
    }
}

fn route_casebook(
    snapshot: &ProxyOperatorSnapshot,
    t: &ProxyOperatorRouteTrace,
    handoffs: &Vec<ProxyOperatorRouteHandoff>,
    triage: &Vec<ProxyOperatorRouteTriage>,
    timelines: &Vec<ProxyOperatorRouteTimeline>,
) -> (r: ProxyOperatorRouteCasebook)
    ensures
        r.deep_view() == route_casebook_view(
            snapshot.incident_digest.clusters.deep_view(),
            snapshot.recovery.route_candidates.deep_view(),
            handoffs.deep_view(),
            triage.deep_view(),
            timelines.deep_view(),
            *t,
        ),
{
    let id = t.route_id.as_str();
    let hi = position_by_id(handoffs, id);
    let gi = position_by_id(triage, id);
    let li = position_by_id(timelines, id);
    let ghost h = find_by_id::<ProxyOperatorRouteHandoff>(handoffs.deep_view(), id@);
    let ghost g = find_by_id::<ProxyOperatorRouteTriage>(triage.deep_view(), id@);
    let mut next_steps: Vec<String> = Vec::new();
    let mut actions = duplicate_all(&t.actions);
    let mut events = duplicate_all(&t.recent_events);
    let summary = match hi {
        Some(k) => {
            assert(handoffs.deep_view()[k as int] == handoffs@[k as int].deep_view());
            next_steps = duplicate_all(&handoffs[k].next_steps);
            extend_unique(&mut actions, &handoffs[k].actions);
            extend_unique(&mut events, &handoffs[k].recent_events);
            casebook_summary(&t.summary, Some(&handoffs[k].summary))
        },
        None => {
            assert(next_steps.deep_view() =~= handoff_steps(h));
            assert(merge_unique(t.actions.deep_view(), handoff_actions(h)) == t.actions.deep_view());
            assert(merge_unique(t.recent_events.deep_view(), handoff_events(h)) == t.recent_events.deep_view());
            casebook_summary(&t.summary, None)
        },
    };
    match gi {
        Some(k) => {
            assert(triage.deep_view()[k as int] == triage@[k as int].deep_view());
            extend_unique(&mut next_steps, &triage[k].next_steps);
            extend_unique(&mut actions, &triage[k].actions);
            extend_unique(&mut events, &triage[k].recent_events);
        },
        None => {
            assert(merge_unique(next_steps.deep_view(), triage_steps(g)) == next_steps.deep_view());
            assert(merge_unique(actions.deep_view(), triage_actions(g)) == actions.deep_view());
            assert(merge_unique(events.deep_view(), triage_events(g)) == events.deep_view());
        },
    }
    let timeline = match li {
        Some(k) => {
            assert(timelines.deep_view()[k as int] == timelines@[k as int].deep_view());
            duplicate_all(&timelines[k].entries)
        },
        None => {
            let e: Vec<ProxyOperatorTimelineEntry> = Vec::new();
            assert(e.deep_view() =~= Seq::<TimelineEntryView>::empty());
            e
        },
    };
    ProxyOperatorRouteCasebook {
        route_id: t.route_id.duplicate(),
        level: t.level,
        summary,
        linked_destination_ids: duplicate_all(&t.related_destination_ids),
        incident_titles: incident_titles(snapshot, id, true),
        next_steps,
        recommended_actions: actions,
        recovery_surface: route_recovery_surface(&snapshot.recovery.route_candidates, id),
        recent_events: events,
        timeline,
    }
}

fn destination_casebook(
    snapshot: &ProxyOperatorSnapshot,
    t: &ProxyOperatorDestinationTrace,
    handoffs: &Vec<ProxyOperatorDestinationHandoff>,
    triage: &Vec<ProxyOperatorDestinationTriage>,
    timelines: &Vec<ProxyOperatorDestinationTimeline>,
) -> (r: ProxyOperatorDestinationCasebook)
    ensures
        r.deep_view() == destination_casebook_view(
            snapshot.incident_digest.clusters.deep_view(),
            snapshot.recovery.destination_candidates.deep_view(),
            handoffs.deep_view(),
            triage.deep_view(),
            timelines.deep_view(),
            *t,
        ),
{
    let id = t.destination_id.as_str();
    let hi = position_by_id(handoffs, id);
    let gi = position_by_id(triage, id);
    let li = position_by_id(timelines, id);
    let ghost h = find_by_id::<ProxyOperatorDestinationHandoff>(handoffs.deep_view(), id@);
    let ghost g = find_by_id::<ProxyOperatorDestinationTriage>(triage.deep_view(), id@);
    let mut next_steps: Vec<String> = Vec::new();
    let mut actions = duplicate_all(&t.actions);
    let mut events = duplicate_all(&t.recent_events);
    let summary = match hi {
        Some(k) => {
            assert(handoffs.deep_view()[k as int] == handoffs@[k as int].deep_view());
            next_steps = duplicate_all(&handoffs[k].next_steps);
            extend_unique(&mut actions, &handoffs[k].actions);
            extend_unique(&mut events, &handoffs[k].recent_events);
            casebook_summary(&t.summary, Some(&handoffs[k].summary))
        },
        None => {
            assert(next_steps.deep_view() =~= handoff_steps(h));
            assert(merge_unique(t.actions.deep_view(), handoff_actions(h)) == t.actions.deep_view());
            assert(merge_unique(t.recent_events.deep_view(), handoff_events(h)) == t.recent_events.deep_view());
            casebook_summary(&t.summary, None)
        },
    };
    match gi {
        Some(k) => {
            assert(triage.deep_view()[k as int] == triage@[k as int].deep_view());
            extend_unique(&mut next_steps, &triage[k].next_steps);
            extend_unique(&mut actions, &triage[k].actions);
            extend_unique(&mut events, &triage[k].recent_events);
        },
        None => {
            assert(merge_unique(next_steps.deep_view(), triage_steps(g)) == next_steps.deep_view());
            assert(merge_unique(actions.deep_view(), triage_actions(g)) == actions.deep_view());
            assert(merge_unique(events.deep_view(), triage_events(g)) == events.deep_view());
        },
    }
    let timeline = match li {
        Some(k) => {
            assert(timelines.deep_view()[k as int] == timelines@[k as int].deep_view());
            duplicate_all(&timelines[k].entries)
        },
        None => {
            let e: Vec<ProxyOperatorTimelineEntry> = Vec::new();
            assert(e.deep_view() =~= Seq::<TimelineEntryView>::empty());
            e
        },
    };
    ProxyOperatorDestinationCasebook {
        destination_id: t.destination_id.duplicate(),
        level: t.level,
        summary,
        linked_route_ids: duplicate_all(&t.route_ids),
        incident_titles: incident_titles(snapshot, id, false),
        next_steps,
        recommended_actions: actions,
        recovery_surface: destination_recovery_surface(&snapshot.recovery.destination_candidates, id),
        recent_events: events,
        timeline,
    }
}

// ---------------------------------------------------------------------------
// The catalog
// ---------------------------------------------------------------------------

/// Whether the snapshot carries no handoff entries, so that they are derived from the trace.
pub open spec fn handoff_is_empty(snapshot: ProxyOperatorSnapshot) -> bool {
    snapshot.handoff.route_handoffs.len() == 0 && snapshot.handoff.destination_handoffs.len() == 0
}

/// Whether the snapshot carries no triage entries, so that the derived triage is used.
pub open spec fn triage_is_empty(snapshot: ProxyOperatorSnapshot) -> bool {
    snapshot.triage.route_triage.len() == 0 && snapshot.triage.destination_triage.len() == 0
}

/// The route handoff entries a casebook joins: the snapshot's, or those of the trace when it has none.
pub open spec fn route_handoffs_in_use(snapshot: ProxyOperatorSnapshot, trace: ProxyOperatorTraceCatalog) -> Seq<
    HandoffView,
> {
    if handoff_is_empty(snapshot) {
        trace.routes@.map_values(
            |t: ProxyOperatorRouteTrace|
                route_handoff_view(t, snapshot.overview.report.overrides.traffic_frozen),
        )
    } else {
        snapshot.handoff.route_handoffs.deep_view()
    }
}

/// The destination handoff entries a casebook joins: the snapshot's, or those of the trace when it has none.
pub open spec fn destination_handoffs_in_use(
    snapshot: ProxyOperatorSnapshot,
    trace: ProxyOperatorTraceCatalog,
) -> Seq<HandoffView> {
    if handoff_is_empty(snapshot) {
        trace.destinations@.map_values(
            |t: ProxyOperatorDestinationTrace|
                destination_handoff_view(t, snapshot.overview.report.overrides.traffic_frozen),
        )
    } else {
        snapshot.handoff.destination_handoffs.deep_view()
    }
}

/// The triage a casebook joins: the snapshot's, or the derived one when it has none.
pub open spec fn triage_in_use(snapshot: ProxyOperatorSnapshot, derived: ProxyOperatorTriageCatalog) -> ProxyOperatorTriageCatalog {
    if triage_is_empty(snapshot) {
        derived
    } else {
        snapshot.triage
    }
}

/// The route records of the casebook.
pub open spec fn route_casebooks_view(
    snapshot: ProxyOperatorSnapshot,
    trace: ProxyOperatorTraceCatalog,
    triage: ProxyOperatorTriageCatalog,
    timeline: ProxyOperatorTimelineCatalog,
) -> Seq<CasebookView> {
    trace.routes@.map_values(
        |t: ProxyOperatorRouteTrace|
            route_casebook_view(
                snapshot.incident_digest.clusters.deep_view(),
                snapshot.recovery.route_candidates.deep_view(),
                route_handoffs_in_use(snapshot, trace),
                triage_in_use(snapshot, triage).route_triage.deep_view(),
                timeline.routes.deep_view(),
                t,
            ),
    )
}

/// The destination records of the casebook.
pub open spec fn destination_casebooks_view(
    snapshot: ProxyOperatorSnapshot,
    trace: ProxyOperatorTraceCatalog,
    triage: ProxyOperatorTriageCatalog,
    timeline: ProxyOperatorTimelineCatalog,
) -> Seq<CasebookView> {
    trace.destinations@.map_values(
        |t: ProxyOperatorDestinationTrace|
            destination_casebook_view(
                snapshot.incident_digest.clusters.deep_view(),
                snapshot.recovery.destination_candidates.deep_view(),
                destination_handoffs_in_use(snapshot, trace),
                triage_in_use(snapshot, triage).destination_triage.deep_view(),
                timeline.destinations.deep_view(),
                t,
            ),
    )
}

/// Builds the casebook from the snapshot and the trace, triage and timeline
/// catalogs derived from it: one record per traced route and destination,
/// under the label of the report state.
pub fn proxy_operator_casebook(
    snapshot: &ProxyOperatorSnapshot,
    trace: &ProxyOperatorTraceCatalog,
    triage: &ProxyOperatorTriageCatalog,
    timeline: &ProxyOperatorTimelineCatalog,
) -> (r: ProxyOperatorCasebookCatalog)
    ensures
        r.state@ == state_label_of(snapshot.overview.report.state),
        r.route_casebooks.deep_view() == route_casebooks_view(*snapshot, *trace, *triage, *timeline),
        r.destination_casebooks.deep_view() == destination_casebooks_view(
            *snapshot,
            *trace,
            *triage,
            *timeline,
        ),
{
    let frozen = snapshot.overview.report.overrides.traffic_frozen;
    let derive = snapshot.handoff.route_handoffs.len() == 0
        && snapshot.handoff.destination_handoffs.len() == 0;
    let route_entries = if derive {
        route_handoffs(&trace.routes, frozen)
    } else {
        duplicate_all(&snapshot.handoff.route_handoffs)
    };
    let destination_entries = if derive {
        destination_handoffs(&trace.destinations, frozen)
    } else {
        duplicate_all(&snapshot.handoff.destination_handoffs)
    };
    let triage_used: &ProxyOperatorTriageCatalog = if snapshot.triage.route_triage.len() == 0
        && snapshot.triage.destination_triage.len() == 0 {
        triage
    } else {
        &snapshot.triage
    };
    let ghost rh = route_handoffs_in_use(*snapshot, *trace);
    let ghost dh = destination_handoffs_in_use(*snapshot, *trace);
    assert(route_entries.deep_view() == rh);
    assert(destination_entries.deep_view() == dh);
    assert(*triage_used == triage_in_use(*snapshot, *triage));

    let mut route_casebooks: Vec<ProxyOperatorRouteCasebook> = Vec::new();
    let mut i: usize = 0;
    while i < trace.routes.len()
        invariant
            i <= trace.routes@.len(),
            route_entries.deep_view() == rh,
            rh == route_handoffs_in_use(*snapshot, *trace),
            *triage_used == triage_in_use(*snapshot, *triage),
            route_casebooks.deep_view() == route_casebooks_view(
                *snapshot,
                *trace,
                *triage,
                *timeline,
            ).subrange(0, i as int),
        decreases trace.routes@.len() - i,
    {
        let entry = route_casebook(
            snapshot,
            &trace.routes[i],
            &route_entries,
            &triage_used.route_triage,
            &timeline.routes,
        );
        push_value(&mut route_casebooks, entry);
        assert(route_casebooks.deep_view() =~= route_casebooks_view(
            *snapshot,
            *trace,
            *triage,
            *timeline,
        ).subrange(0, i + 1));
        i = i + 1;
    }
    let mut destination_casebooks: Vec<ProxyOperatorDestinationCasebook> = Vec::new();
    let mut k: usize = 0;
    while k < trace.destinations.len()
        invariant
            k <= trace.destinations@.len(),
            destination_entries.deep_view() == dh,
            dh == destination_handoffs_in_use(*snapshot, *trace),
            *triage_used == triage_in_use(*snapshot, *triage),
            destination_casebooks.deep_view() == destination_casebooks_view(
                *snapshot,
                *trace,
                *triage,
                *timeline,
            ).subrange(0, k as int),
        decreases trace.destinations@.len() - k,
    {
        let entry = destination_casebook(
            snapshot,
            &trace.destinations[k],
            &destination_entries,
            &triage_used.destination_triage,
            &timeline.destinations,
        );
        push_value(&mut destination_casebooks, entry);
        assert(destination_casebooks.deep_view() =~= destination_casebooks_view(
            *snapshot,
            *trace,
            *triage,
            *timeline,
        ).subrange(0, k + 1));
        k = k + 1;
    }
    ProxyOperatorCasebookCatalog {
        state: state_label(snapshot.overview.report.state),
        route_casebooks,
        destination_casebooks,
    }
}

impl Identified for ProxyOperatorRouteCasebook {
    open spec fn id_of(v: CasebookView) -> Seq<char> {
        v.id
    }

    fn id_text(&self) -> (r: &str) {
        self.route_id.as_str()
    }
}

impl Identified for ProxyOperatorDestinationCasebook {
    open spec fn id_of(v: CasebookView) -> Seq<char> {
        v.id
    }

    fn id_text(&self) -> (r: &str) {
        self.destination_id.as_str()
    }
}

impl OperatorValue for ProxyOperatorRouteCasebook {
    fn duplicate(&self) -> (r: Self) {
        ProxyOperatorRouteCasebook {
            route_id: self.route_id.duplicate(),
            level: self.level,
            summary: self.summary.duplicate(),
            linked_destination_ids: duplicate_all(&self.linked_destination_ids),
            incident_titles: duplicate_all(&self.incident_titles),
            next_steps: duplicate_all(&self.next_steps),
            recommended_actions: duplicate_all(&self.recommended_actions),
            recovery_surface: duplicate_all(&self.recovery_surface),
            recent_events: duplicate_all(&self.recent_events),
            timeline: duplicate_all(&self.timeline),
        }
    }

    fn same_value(&self, other: &Self) -> (r: bool) {
        self.route_id.same_value(&other.route_id) && self.level == other.level
            && self.summary.same_value(&other.summary) && self.linked_destination_ids.same_value(
            &other.linked_destination_ids,
        ) && self.incident_titles.same_value(&other.incident_titles) && self.next_steps.same_value(
            &other.next_steps,
        ) && self.recommended_actions.same_value(&other.recommended_actions)
            && self.recovery_surface.same_value(&other.recovery_surface)
            && self.recent_events.same_value(&other.recent_events) && self.timeline.same_value(
            &other.timeline,
        )
    }
}

impl OperatorValue for ProxyOperatorDestinationCasebook {
    fn duplicate(&self) -> (r: Self) {
        ProxyOperatorDestinationCasebook {
            destination_id: self.destination_id.duplicate(),
            level: self.level,
            summary: self.summary.duplicate(),
            linked_route_ids: duplicate_all(&self.linked_route_ids),
            incident_titles: duplicate_all(&self.incident_titles),
            next_steps: duplicate_all(&self.next_steps),
            recommended_actions: duplicate_all(&self.recommended_actions),
            recovery_surface: duplicate_all(&self.recovery_surface),
            recent_events: duplicate_all(&self.recent_events),
            timeline: duplicate_all(&self.timeline),
        }
    }

    fn same_value(&self, other: &Self) -> (r: bool) {
        self.destination_id.same_value(&other.destination_id) && self.level == other.level
            && self.summary.same_value(&other.summary) && self.linked_route_ids.same_value(
            &other.linked_route_ids,
        ) && self.incident_titles.same_value(&other.incident_titles) && self.next_steps.same_value(
            &other.next_steps,
        ) && self.recommended_actions.same_value(&other.recommended_actions)
            && self.recovery_surface.same_value(&other.recovery_surface)
            && self.recent_events.same_value(&other.recent_events) && self.timeline.same_value(
            &other.timeline,
        )
    }
}

} // verus!
