//! The operator handoff: for every traced route and destination, its summary,
//! the next steps its open reasons call for, and its actions and events.
use vstd::prelude::*;

use crate::model::{
    ProxyOperatorSuggestedAction, ProxyOperatorTraceEvent, ProxyOperatorTraceEventLevel,
    SuggestedActionView, TraceEventView,
};
use crate::snapshot::{ProxyOperatorReadinessLevel, ProxyOperatorSnapshot};
use crate::text::{contains_text, owned, text_contains};
use crate::trace::{ProxyOperatorDestinationTrace, ProxyOperatorRouteTrace, ProxyOperatorTraceCatalog};
use crate::values::{duplicate_all, lemma_map_prefix_push, push_value, Identified, OperatorValue};

verus! {

/// Handoff of one route.
#[derive(Clone, Debug)]
pub struct ProxyOperatorRouteHandoff {
    pub route_id: String,
    pub level: ProxyOperatorTraceEventLevel,
    pub summary: String,
    pub next_steps: Vec<String>,
    pub actions: Vec<ProxyOperatorSuggestedAction>,
    pub recent_events: Vec<ProxyOperatorTraceEvent>,
}

/// Handoff of one destination.
#[derive(Clone, Debug)]
pub struct ProxyOperatorDestinationHandoff {
    pub destination_id: String,
    pub level: ProxyOperatorTraceEventLevel,
    pub summary: String,
    pub next_steps: Vec<String>,
    pub actions: Vec<ProxyOperatorSuggestedAction>,
    pub recent_events: Vec<ProxyOperatorTraceEvent>,
}

/// The contents of a route or destination handoff.
pub struct HandoffView {
    pub id: Seq<char>,
    pub level: ProxyOperatorTraceEventLevel,
    pub summary: Seq<char>,
    pub next_steps: Seq<Seq<char>>,
    pub actions: Seq<SuggestedActionView>,
    pub recent_events: Seq<TraceEventView>,
}

impl DeepView for ProxyOperatorRouteHandoff {
    type V = HandoffView;

    open spec fn deep_view(&self) -> HandoffView {
        HandoffView {
            id: self.route_id@,
            level: self.level,
            summary: self.summary@,
            next_steps: self.next_steps.deep_view(),
            actions: self.actions.deep_view(),
            recent_events: self.recent_events.deep_view(),
        }
    }
}

impl DeepView for ProxyOperatorDestinationHandoff {
    type V = HandoffView;

    open spec fn deep_view(&self) -> HandoffView {
        HandoffView {
            id: self.destination_id@,
            level: self.level,
            summary: self.summary@,
            next_steps: self.next_steps.deep_view(),
            actions: self.actions.deep_view(),
            recent_events: self.recent_events.deep_view(),
        }
    }
}

impl OperatorValue for ProxyOperatorRouteHandoff {
    fn duplicate(&self) -> (r: Self) {
        ProxyOperatorRouteHandoff {
            route_id: self.route_id.duplicate(),
            level: self.level,
            summary: self.summary.duplicate(),
            next_steps: duplicate_all(&self.next_steps),
            actions: duplicate_all(&self.actions),
            recent_events: duplicate_all(&self.recent_events),
        }
    }

    fn same_value(&self, other: &Self) -> (r: bool) {
        self.route_id.same_value(&other.route_id) && self.level == other.level
            && self.summary.same_value(&other.summary) && self.next_steps.same_value(
            &other.next_steps,
        ) && self.actions.same_value(&other.actions) && self.recent_events.same_value(
            &other.recent_events,
        )
    }
}

impl OperatorValue for ProxyOperatorDestinationHandoff {
    fn duplicate(&self) -> (r: Self) {
        ProxyOperatorDestinationHandoff {
            destination_id: self.destination_id.duplicate(),
            level: self.level,
            summary: self.summary.duplicate(),
            next_steps: duplicate_all(&self.next_steps),
            actions: duplicate_all(&self.actions),
            recent_events: duplicate_all(&self.recent_events),
        }
    }

    fn same_value(&self, other: &Self) -> (r: bool) {
        self.destination_id.same_value(&other.destination_id) && self.level == other.level
            && self.summary.same_value(&other.summary) && self.next_steps.same_value(
            &other.next_steps,
        ) && self.actions.same_value(&other.actions) && self.recent_events.same_value(
            &other.recent_events,
        )
    }
}

impl Identified for ProxyOperatorRouteHandoff {
    open spec fn id_of(v: HandoffView) -> Seq<char> {
        v.id
    }

    fn id_text(&self) -> (r: &str) {
        self.route_id.as_str()
    }
}

impl Identified for ProxyOperatorDestinationHandoff {
    open spec fn id_of(v: HandoffView) -> Seq<char> {
        v.id
    }

    fn id_text(&self) -> (r: &str) {
        self.destination_id.as_str()
    }
}

/// Handoffs of every traced route and destination, and the readiness they were written under.
#[derive(Clone, Debug, Default)]
pub struct ProxyOperatorHandoffCatalog {
    pub state: String,
    pub route_handoffs: Vec<ProxyOperatorRouteHandoff>,
    pub destination_handoffs: Vec<ProxyOperatorDestinationHandoff>,
}

/// Whether some reason contains `pattern`.
pub open spec fn any_reason_contains(reasons: Seq<Seq<char>>, pattern: Seq<char>) -> bool {
    exists|i: int| 0 <= i < reasons.len() && text_contains(#[trigger] reasons[i], pattern)
}

/// Decides `any_reason_contains`.
pub fn reasons_contain(reasons: &Vec<String>, pattern: &str) -> (r: bool)
    ensures
        r == any_reason_contains(reasons.deep_view(), pattern@),
{
    let mut i: usize = 0;
    while i < reasons.len()
        invariant
            i <= reasons@.len(),
            forall|j: int| 0 <= j < i ==> !text_contains(#[trigger] reasons.deep_view()[j], pattern@),
        decreases reasons@.len() - i,
    {
        if contains_text(reasons[i].as_str(), pattern) {
            assert(text_contains(reasons.deep_view()[i as int], pattern@));
            return true;
        }
        i = i + 1;
    }
    false
}

/// `step` when `cond` holds, nothing otherwise.
pub open spec fn step_if(cond: bool, step: Seq<char>) -> Seq<Seq<char>> {
    if cond {
        seq![step]
    } else {
        Seq::empty()
    }
}

/// `steps`, or `fallback` alone when there are none.
pub open spec fn or_default(steps: Seq<Seq<char>>, fallback: Seq<char>) -> Seq<Seq<char>> {
    if steps.len() == 0 {
        seq![fallback]
    } else {
        steps
    }
}

/// Next steps for a route, from its open reasons and whether traffic is frozen.
pub open spec fn route_next_steps_view(reasons: Seq<Seq<char>>, traffic_frozen: bool) -> Seq<
    Seq<char>,
> {
    or_default(
        step_if(
            traffic_frozen,
            "Thaw traffic before expecting this route to resume live forwarding or recovery."@,
        ) + step_if(
            any_reason_contains(reasons, "operator isolation"@),
            "Confirm the route can resume live forwarding, then restore isolation."@,
        ) + step_if(
            any_reason_contains(reasons, "fallback"@),
            "Add or verify direct UDP fallback coverage before relying on recovery automation."@,
        ) + step_if(
            any_reason_contains(reasons, "dispatch failures"@),
            "Inspect downstream destination health and breaker state before replaying or rehydrating."@,
        ) + step_if(
            any_reason_contains(reasons, "transform failures"@),
            "Validate route transform and payload shape against the expected OSC contract."@,
        ),
        "Monitor this route and keep the focus view open for repeated runtime pressure."@,
    )
}

fn push_step_if(steps: &mut Vec<String>, cond: bool, step: &str)
    ensures
        final(steps).deep_view() == old(steps).deep_view() + step_if(cond, step@),
{
    if cond {
        push_value(steps, owned(step));
    }
    assert(steps.deep_view() =~= old(steps).deep_view() + step_if(cond, step@));
}

fn finish_steps(steps: &mut Vec<String>, fallback: &str)
    ensures
        final(steps).deep_view() == or_default(old(steps).deep_view(), fallback@),
{
    if steps.len() == 0 {
        push_value(steps, owned(fallback));
        assert(steps.deep_view() =~= seq![fallback@]);
    }
}

/// Lists the next steps for a route.
pub fn route_next_steps(trace: &ProxyOperatorRouteTrace, traffic_frozen: bool) -> (r: Vec<String>)
    ensures
        r.deep_view() == route_next_steps_view(trace.open_reasons.deep_view(), traffic_frozen),
{
    let reasons = &trace.open_reasons;
    let mut steps: Vec<String> = Vec::new();
    let ghost e: Seq<Seq<char>> = Seq::empty();
    assert(steps.deep_view() =~= e);
    push_step_if(
        &mut steps,
        traffic_frozen,
        "Thaw traffic before expecting this route to resume live forwarding or recovery.",
    );
    push_step_if(
        &mut steps,
        reasons_contain(reasons, "operator isolation"),
        "Confirm the route can resume live forwarding, then restore isolation.",
    );
    push_step_if(
        &mut steps,
        reasons_contain(reasons, "fallback"),
        "Add or verify direct UDP fallback coverage before relying on recovery automation.",
    );
    push_step_if(
        &mut steps,
        reasons_contain(reasons, "dispatch failures"),
        "Inspect downstream destination health and breaker state before replaying or rehydrating.",
    );
    push_step_if(
        &mut steps,
        reasons_contain(reasons, "transform failures"),
        "Validate route transform and payload shape against the expected OSC contract.",
    );
    finish_steps(
        &mut steps,
        "Monitor this route and keep the focus view open for repeated runtime pressure.",
    );
    steps
}

/// Next steps for a destination, from its open reasons and whether traffic is frozen.
pub open spec fn destination_next_steps_view(reasons: Seq<Seq<char>>, traffic_frozen: bool) -> Seq<
    Seq<char>,
> {
    or_default(
        step_if(
            traffic_frozen,
            "Thaw traffic before treating this destination as fully recovered or stable."@,
        ) + step_if(
            any_reason_contains(reasons, "breaker is open"@),
            "Verify the downstream target is reachable before attempting rehydrate."@,
        ) + step_if(
            any_reason_contains(reasons, "breaker is half-open"@),
            "Keep traffic scoped and observe the next breaker probe before widening load."@,
        ) + step_if(
            any_reason_contains(reasons, "queue backlog"@),
            "Reduce ingress pressure or increase queue headroom so backlog can drain cleanly."@,
        ) + step_if(
            any_reason_contains(reasons, "send failures"@),
            "Inspect socket/target health and confirm the destination process is still alive."@,
        ) + step_if(
            any_reason_contains(reasons, "drops observed"@),
            "Review queue policy and packet rate so drops stop before replay or rehydrate."@,
        ),
        "Destination looks stable now; keep it under observation instead of forcing recovery."@,
    )
}

/// Lists the next steps for a destination.
pub fn destination_next_steps(trace: &ProxyOperatorDestinationTrace, traffic_frozen: bool) -> (r:
    Vec<String>)
    ensures
        r.deep_view() == destination_next_steps_view(trace.open_reasons.deep_view(), traffic_frozen),
{
    let reasons = &trace.open_reasons;
    let mut steps: Vec<String> = Vec::new();
    let ghost e: Seq<Seq<char>> = Seq::empty();
    assert(steps.deep_view() =~= e);
    push_step_if(
        &mut steps,
        traffic_frozen,
        "Thaw traffic before treating this destination as fully recovered or stable.",
    );
    push_step_if(
        &mut steps,
        reasons_contain(reasons, "breaker is open"),
        "Verify the downstream target is reachable before attempting rehydrate.",
    );
    push_step_if(
        &mut steps,
        reasons_contain(reasons, "breaker is half-open"),
        "Keep traffic scoped and observe the next breaker probe before widening load.",
    );
    push_step_if(
        &mut steps,
        reasons_contain(reasons, "queue backlog"),
        "Reduce ingress pressure or increase queue headroom so backlog can drain cleanly.",
    );
    push_step_if(
        &mut steps,
        reasons_contain(reasons, "send failures"),
        "Inspect socket/target health and confirm the destination process is still alive.",
    );
    push_step_if(
        &mut steps,
        reasons_contain(reasons, "drops observed"),
        "Review queue policy and packet rate so drops stop before replay or rehydrate.",
    );
    finish_steps(
        &mut steps,
        "Destination looks stable now; keep it under observation instead of forcing recovery.",
    );
    steps
}

/// The handoff of a route trace.
pub open spec fn route_handoff_view(trace: ProxyOperatorRouteTrace, traffic_frozen: bool) -> HandoffView {
    HandoffView {
        id: trace.route_id@,
        level: trace.level,
        summary: trace.summary@,
        next_steps: route_next_steps_view(trace.open_reasons.deep_view(), traffic_frozen),
        actions: trace.actions.deep_view(),
        recent_events: trace.recent_events.deep_view(),
    }
}

/// The handoff of a destination trace.
pub open spec fn destination_handoff_view(
    trace: ProxyOperatorDestinationTrace,
    traffic_frozen: bool,
) -> HandoffView {
    HandoffView {
        id: trace.destination_id@,
        level: trace.level,
        summary: trace.summary@,
        next_steps: destination_next_steps_view(trace.open_reasons.deep_view(), traffic_frozen),
        actions: trace.actions.deep_view(),
        recent_events: trace.recent_events.deep_view(),
    }
}

/// The readiness label a handoff is written under.
pub open spec fn readiness_label(level: ProxyOperatorReadinessLevel) -> Seq<char> {
    match level {
        ProxyOperatorReadinessLevel::Ready => "ready"@,
        ProxyOperatorReadinessLevel::Degraded => "degraded"@,
        ProxyOperatorReadinessLevel::Blocked => "blocked"@,
    }
}

fn readiness_level_label(level: ProxyOperatorReadinessLevel) -> (r: String)
    ensures
        r@ == readiness_label(level),
{
    match level {
        ProxyOperatorReadinessLevel::Ready => owned("ready"),
        ProxyOperatorReadinessLevel::Degraded => owned("degraded"),
        ProxyOperatorReadinessLevel::Blocked => owned("blocked"),
    }
}

/// Handoffs of the given route traces.
pub fn route_handoffs(traces: &Vec<ProxyOperatorRouteTrace>, traffic_frozen: bool) -> (r: Vec<
    ProxyOperatorRouteHandoff,
>)
    ensures
        r.deep_view() == traces@.map_values(
            |t: ProxyOperatorRouteTrace| route_handoff_view(t, traffic_frozen),
        ),
{
    let mut out: Vec<ProxyOperatorRouteHandoff> = Vec::new();
    let mut i: usize = 0;
    while i < traces.len()
        invariant
            i <= traces@.len(),
            out.deep_view() == traces@.subrange(0, i as int).map_values(
                |t: ProxyOperatorRouteTrace| route_handoff_view(t, traffic_frozen),
            ),
        decreases traces@.len() - i,
    {
        let t = &traces[i];
        let entry = ProxyOperatorRouteHandoff {
            route_id: t.route_id.duplicate(),
            level: t.level,
            summary: t.summary.duplicate(),
            next_steps: route_next_steps(t, traffic_frozen),
            actions: duplicate_all(&t.actions),
            recent_events: duplicate_all(&t.recent_events),
        };
        push_value(&mut out, entry);
        proof {
            lemma_map_prefix_push(
                traces@,
                i as int,
                |t: ProxyOperatorRouteTrace| route_handoff_view(t, traffic_frozen),
            );
        }
        i = i + 1;
    }
    assert(traces@.subrange(0, i as int) =~= traces@);
    out
}

/// Handoffs of the given destination traces.
pub fn destination_handoffs(traces: &Vec<ProxyOperatorDestinationTrace>, traffic_frozen: bool) -> (r:
    Vec<ProxyOperatorDestinationHandoff>)
    ensures
        r.deep_view() == traces@.map_values(
            |t: ProxyOperatorDestinationTrace| destination_handoff_view(t, traffic_frozen),
        ),
{
    let mut out: Vec<ProxyOperatorDestinationHandoff> = Vec::new();
    let mut i: usize = 0;
    while i < traces.len()
        invariant
            i <= traces@.len(),
            out.deep_view() == traces@.subrange(0, i as int).map_values(
                |t: ProxyOperatorDestinationTrace| destination_handoff_view(t, traffic_frozen),
            ),
        decreases traces@.len() - i,
    {
        let t = &traces[i];
        let entry = ProxyOperatorDestinationHandoff {
            destination_id: t.destination_id.duplicate(),
            level: t.level,
            summary: t.summary.duplicate(),
            next_steps: destination_next_steps(t, traffic_frozen),
            actions: duplicate_all(&t.actions),
            recent_events: duplicate_all(&t.recent_events),
        };
        push_value(&mut out, entry);
        proof {
            lemma_map_prefix_push(
                traces@,
                i as int,
                |t: ProxyOperatorDestinationTrace| destination_handoff_view(t, traffic_frozen),
            );
        }
        i = i + 1;
    }
    assert(traces@.subrange(0, i as int) =~= traces@);
    out
}

/// Builds the handoff of every traced route and destination.
pub fn proxy_operator_handoff_from_trace(
    snapshot: &ProxyOperatorSnapshot,
    trace: ProxyOperatorTraceCatalog,
) -> (r: ProxyOperatorHandoffCatalog)
    ensures
        r.state@ == readiness_label(snapshot.readiness.level),
        r.route_handoffs.deep_view() == trace.routes@.map_values(
            |t: ProxyOperatorRouteTrace|
                route_handoff_view(t, snapshot.overview.report.overrides.traffic_frozen),
        ),
        r.destination_handoffs.deep_view() == trace.destinations@.map_values(
            |t: ProxyOperatorDestinationTrace|
                destination_handoff_view(t, snapshot.overview.report.overrides.traffic_frozen),
        ),
{
    let frozen = snapshot.overview.report.overrides.traffic_frozen;
    ProxyOperatorHandoffCatalog {
        state: readiness_level_label(snapshot.readiness.level),
        route_handoffs: route_handoffs(&trace.routes, frozen),
        destination_handoffs: destination_handoffs(&trace.destinations, frozen),
    }
}

} // verus!
