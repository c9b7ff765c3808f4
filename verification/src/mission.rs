//! The broker-wide mission: the state, a headline, the readiness gate, the
//! context, board and incident highlights, the recovery summary and the
//! broker-wide triage steps and actions.
use vstd::prelude::*;

use crate::board::{BoardItemView, ProxyOperatorBoardItem, ProxyOperatorBoardScope};
use crate::context::{
    add_unique, all_board_items, global_blockers, global_blockers_view, global_overrides,
    global_overrides_view,
};
use crate::handoff::readiness_label;
use crate::incident_digest::IncidentClusterView;
use crate::model::ProxyOperatorSuggestedAction;
use crate::policy::{state_label, state_label_of};
use crate::snapshot::{ProxyOperatorReadinessLevel, ProxyOperatorSnapshot};
use crate::text::{append_count, decimal, owned, str_equal};
use crate::values::{
    duplicate_all, find_by_id, lemma_map_prefix_push, position_by_id, push_unique_value, push_value,
    OperatorValue,
};
use crate::brief::{trace_highlights, trace_highlights_view};
use crate::dashboard::ProxyOperatorDashboard;
use crate::trace::{ProxyOperatorDestinationTrace, ProxyOperatorRouteTrace};

verus! {

/// The broker-wide mission.
#[derive(Clone, Debug, Default)]
pub struct ProxyOperatorGlobalMission {
    pub state: String,
    pub headline: String,
    pub readiness_level: String,
    pub gate_reasons: Vec<String>,
    pub blockers: Vec<String>,
    pub overrides: Vec<String>,
    pub board_highlights: Vec<String>,
    pub incident_titles: Vec<String>,
    pub recovery_summary: Vec<String>,
    pub next_steps: Vec<String>,
    pub recommended_actions: Vec<ProxyOperatorSuggestedAction>,
}

/// The mission headline: frozen traffic first, then configuration blockers,
/// then readiness, then the first reason readiness is held back, else the
/// broker-wide triage summary.
pub open spec fn global_headline_view(snapshot: ProxyOperatorSnapshot) -> Seq<char> {
    if snapshot.attention.traffic_frozen {
        "Global override is freezing live traffic; thaw before trusting route-level recovery."@
    } else if snapshot.overview.report.blockers@.len() > 0 {
        decimal(snapshot.overview.report.blockers@.len()) + " config blocker(s) still gate a clean rollout."@
    } else if snapshot.readiness.ready {
        "Broker is in a ready state with no active operator gate blockers."@
    } else if snapshot.readiness.reasons@.len() > 0 {
        snapshot.readiness.reasons@[0]@
    } else {
        snapshot.triage.global.summary@
    }
}

/// Writes the mission headline.
pub fn global_headline(snapshot: &ProxyOperatorSnapshot) -> (r: String)
    ensures
        r@ == global_headline_view(*snapshot),
{
    if snapshot.attention.traffic_frozen {
        owned("Global override is freezing live traffic; thaw before trusting route-level recovery.")
    } else if snapshot.overview.report.blockers.len() > 0 {
        let mut line = owned("");
        append_count(&mut line, "", snapshot.overview.report.blockers.len());
        line.append(" config blocker(s) still gate a clean rollout.");
        proof {
            reveal_strlit("");
        }
        assert(line@ =~= global_headline_view(*snapshot));
        line
    } else if snapshot.readiness.ready {
        owned("Broker is in a ready state with no active operator gate blockers.")
    } else if snapshot.readiness.reasons.len() > 0 {
        snapshot.readiness.reasons[0].duplicate()
    } else {
        snapshot.triage.global.summary.duplicate()
    }
}

/// Titles of the broker-wide board items, in board order, each once.
pub open spec fn global_highlights(items: Seq<BoardItemView>) -> Seq<Seq<char>>
    decreases items.len(),
{
    if items.len() == 0 {
        Seq::empty()
    } else {
        let prev = global_highlights(items.drop_last());
        if items.last().scope == ProxyOperatorBoardScope::Global {
            add_unique(prev, items.last().title)
        } else {
            prev
        }
    }
}

/// `acc` extended by the titles of the broker-wide items of `items`, each once.
pub open spec fn global_highlights_from(acc: Seq<Seq<char>>, items: Seq<BoardItemView>) -> Seq<Seq<char>>
    decreases items.len(),
{
    if items.len() == 0 {
        acc
    } else {
        let prev = global_highlights_from(acc, items.drop_last());
        if items.last().scope == ProxyOperatorBoardScope::Global {
            add_unique(prev, items.last().title)
        } else {
            prev
        }
    }
}

fn absorb_global_titles(target: &mut Vec<String>, items: &Vec<ProxyOperatorBoardItem>)
    ensures
        final(target).deep_view() == global_highlights_from(old(target).deep_view(), items.deep_view()),
{
    let ghost base = target.deep_view();
    let ghost s = items.deep_view();
    let mut i: usize = 0;
    while i < items.len()
        invariant
            i <= items@.len(),
            s == items.deep_view(),
            base == old(target).deep_view(),
            target.deep_view() == global_highlights_from(base, s.subrange(0, i as int)),
        decreases items@.len() - i,
    {
        let ghost prefix = s.subrange(0, i + 1);
        assert(prefix.drop_last() =~= s.subrange(0, i as int));
        assert(prefix.last() == items@[i as int].deep_view());
        if items[i].scope == ProxyOperatorBoardScope::Global {
            push_unique_value(target, items[i].title.duplicate());
        }
        i = i + 1;
    }
    assert(s.subrange(0, i as int) =~= s);
}

proof fn lemma_highlights_from_empty(items: Seq<BoardItemView>)
    ensures
        global_highlights_from(Seq::empty(), items) == global_highlights(items),
    decreases items.len(),
{
    if items.len() > 0 {
        lemma_highlights_from_empty(items.drop_last());
    }
}

proof fn lemma_highlights_from_append(acc: Seq<Seq<char>>, a: Seq<BoardItemView>, b: Seq<BoardItemView>)
    ensures
        global_highlights_from(global_highlights_from(acc, a), b) == global_highlights_from(acc, a + b),
    decreases b.len(),
{
    if b.len() == 0 {
        assert(a + b =~= a);
    } else {
        lemma_highlights_from_append(acc, a, b.drop_last());
        assert((a + b).drop_last() =~= a + b.drop_last());
        assert((a + b).last() == b.last());
    }
}

/// Lists the titles of the broker-wide board items, each once.
pub fn global_board_highlights(snapshot: &ProxyOperatorSnapshot) -> (r: Vec<String>)
    ensures
        r.deep_view() == global_highlights(all_board_items(*snapshot)),
{
    let ghost b = snapshot.board.blocked_items.deep_view();
    let ghost d = snapshot.board.degraded_items.deep_view();
    let ghost w = snapshot.board.watch_items.deep_view();
    let mut highlights: Vec<String> = Vec::new();
    assert(highlights.deep_view() =~= Seq::<Seq<char>>::empty());
    absorb_global_titles(&mut highlights, &snapshot.board.blocked_items);
    absorb_global_titles(&mut highlights, &snapshot.board.degraded_items);
    absorb_global_titles(&mut highlights, &snapshot.board.watch_items);
    proof {
        lemma_highlights_from_append(Seq::empty(), b, d);
        lemma_highlights_from_append(Seq::empty(), b + d, w);
        lemma_highlights_from_empty(b + d + w);
    }
    highlights
}

/// The recovery summary lines.
pub open spec fn recovery_summary_view(snapshot: ProxyOperatorSnapshot) -> Seq<Seq<char>> {
    let r = snapshot.recovery;
    seq![
        "cached_routes="@ + decimal(r.cached_routes as nat),
        "replayable_routes="@ + decimal(r.replayable_routes as nat),
        "rehydrate_ready_destinations="@ + decimal(r.rehydrate_ready_destinations as nat),
        "route_candidates="@ + decimal(r.route_candidates@.len()),
        "destination_candidates="@ + decimal(r.destination_candidates@.len()),
    ]
}

fn count_line(label: &str, n: usize) -> (r: String)
    ensures
        r@ == label@ + decimal(n as nat),
{
    let mut line = owned("");
    append_count(&mut line, label, n);
    proof {
        reveal_strlit("");
    }
    assert(line@ =~= label@ + decimal(n as nat));
    line
}

/// Writes the recovery summary lines.
pub fn global_recovery_summary(snapshot: &ProxyOperatorSnapshot) -> (r: Vec<String>)
    ensures
        r.deep_view() == recovery_summary_view(*snapshot),
{
    let r = &snapshot.recovery;
    let mut lines: Vec<String> = Vec::new();
    push_value(&mut lines, count_line("cached_routes=", r.cached_routes));
    push_value(&mut lines, count_line("replayable_routes=", r.replayable_routes));
    push_value(
        &mut lines,
        count_line("rehydrate_ready_destinations=", r.rehydrate_ready_destinations),
    );
    push_value(&mut lines, count_line("route_candidates=", r.route_candidates.len()));
    push_value(&mut lines, count_line("destination_candidates=", r.destination_candidates.len()));
    assert(lines.deep_view() =~= recovery_summary_view(*snapshot));
    lines
}

fn readiness_text(level: ProxyOperatorReadinessLevel) -> (r: String)
    ensures
        r@ == readiness_label(level),
{
    match level {
        ProxyOperatorReadinessLevel::Ready => owned("ready"),
        ProxyOperatorReadinessLevel::Degraded => owned("degraded"),
        ProxyOperatorReadinessLevel::Blocked => owned("blocked"),
    }
}

fn cluster_titles(clusters: &Vec<crate::incident_digest::ProxyOperatorIncidentCluster>) -> (r: Vec<String>)
    ensures
        r.deep_view() == clusters.deep_view().map_values(|c: IncidentClusterView| c.title),
{
    let ghost s = clusters.deep_view();
    let mut out: Vec<String> = Vec::new();
    let mut i: usize = 0;
    while i < clusters.len()
        invariant
            i <= clusters@.len(),
            s == clusters.deep_view(),
            out.deep_view() == s.subrange(0, i as int).map_values(|c: IncidentClusterView| c.title),
        decreases clusters@.len() - i,
    {
        assert(s[i as int] == clusters@[i as int].deep_view());
        push_value(&mut out, clusters[i].title.duplicate());
        proof {
            lemma_map_prefix_push(s, i as int, |c: IncidentClusterView| c.title);
        }
        i = i + 1;
    }
    assert(s.subrange(0, i as int) =~= s);
    out
}

/// Builds the broker-wide mission of a snapshot.
pub fn global_mission(snapshot: &ProxyOperatorSnapshot) -> (r: ProxyOperatorGlobalMission)
    ensures
        r.state@ == state_label_of(snapshot.overview.report.state),
        r.headline@ == global_headline_view(*snapshot),
        r.readiness_level@ == readiness_label(snapshot.readiness.level),
        r.gate_reasons.deep_view() == snapshot.readiness.reasons.deep_view(),
        r.blockers.deep_view() == global_blockers_view(*snapshot),
        r.overrides.deep_view() == global_overrides_view(*snapshot),
        r.board_highlights.deep_view() == global_highlights(all_board_items(*snapshot)),
        r.incident_titles.deep_view() == snapshot.incident_digest.clusters.deep_view().map_values(
            |c: IncidentClusterView| c.title,
        ),
        r.recovery_summary.deep_view() == recovery_summary_view(*snapshot),
        r.next_steps.deep_view() == snapshot.triage.global.next_steps.deep_view(),
        r.recommended_actions.deep_view() == snapshot.triage.global.actions.deep_view(),
{
    ProxyOperatorGlobalMission {
        state: state_label(snapshot.overview.report.state),
        headline: global_headline(snapshot),
        readiness_level: readiness_text(snapshot.readiness.level),
        gate_reasons: duplicate_all(&snapshot.readiness.reasons),
        blockers: global_blockers(snapshot),
        overrides: global_overrides(snapshot),
        board_highlights: global_board_highlights(snapshot),
        incident_titles: cluster_titles(&snapshot.incident_digest.clusters),
        recovery_summary: global_recovery_summary(snapshot),
        next_steps: duplicate_all(&snapshot.triage.global.next_steps),
        recommended_actions: duplicate_all(&snapshot.triage.global.actions),
    }
}


/// The titles of the first four recent events of a route's trace; none when
/// the dashboard has no trace of it.
pub fn route_trace_highlights(dashboard: &ProxyOperatorDashboard, route_id: &str) -> (r: Vec<String>)
    ensures
        r.deep_view() == trace_highlights_view(
            match find_by_id::<ProxyOperatorRouteTrace>(dashboard.trace.routes.deep_view(), route_id@) {
                Some(t) => Some(t.recent_events),
                None => None,
            },
        ),
{
    match position_by_id(&dashboard.trace.routes, route_id) {
        Some(k) => {
            assert(dashboard.trace.routes.deep_view()[k as int] == dashboard.trace.routes@[k as int].deep_view());
            trace_highlights(Some(&dashboard.trace.routes[k].recent_events))
        },
        None => trace_highlights(None),
    }
}

/// The titles of the first four recent events of a destination's trace;
/// none when the dashboard has no trace of it.
pub fn destination_trace_highlights(dashboard: &ProxyOperatorDashboard, destination_id: &str) -> (r:
    Vec<String>)
    ensures
        r.deep_view() == trace_highlights_view(
            match find_by_id::<ProxyOperatorDestinationTrace>(
                dashboard.trace.destinations.deep_view(),
                destination_id@,
            ) {
                Some(t) => Some(t.recent_events),
                None => None,
            },
        ),
{
    match position_by_id(&dashboard.trace.destinations, destination_id) {
        Some(k) => {
            assert(dashboard.trace.destinations.deep_view()[k as int]
                == dashboard.trace.destinations@[k as int].deep_view());
            trace_highlights(Some(&dashboard.trace.destinations[k].recent_events))
        },
        None => trace_highlights(None),
    }
}

} // verus!
