//! Routing of control requests: which operator view or action a method and
//! request target ask for, with their query parameters and decoded path
//! components, or which error answers them.
use vstd::prelude::*;

use crate::policy::ProxyOperatorSignalScope;
use crate::request::{
    allow_degraded, allow_degraded_value, decode_component_bytes, decoded_component,
    history_limit, history_limit_value, opt_nat, opt_utf8, parameter_value, query_parameter,
    replay_limit, replay_limit_value, split_query, target_path, target_query,
};
use crate::text::{bytes_equal, lemma_utf8_injective, occurs_at, utf8};

verus! {

broadcast use {vstd::utf8::group_utf8_lib, vstd::slice::group_slice_axioms};

/// Static files of the operator dashboard.
#[derive(Clone, Copy, Debug, PartialEq, Eq, Structural)]
pub enum DashboardAsset {
    Page,
    Stylesheet,
    Script,
    StateScript,
    RenderScript,
}

/// Operator views that take an optional history `limit`.
#[derive(Clone, Copy, Debug, PartialEq, Eq, Structural)]
pub enum HistoryView {
    DashboardData,
    Snapshot,
    Diagnostics,
    Incidents,
    Handoff,
    Triage,
    Casebook,
    Board,
    Timeline,
    Trace,
    Focus,
    Lens,
    Brief,
    Dossier,
    OperatorActions,
    ConfigEvents,
}

/// Whether a scoped view is narrowed to a route or to a destination.
#[derive(Clone, Copy, Debug, PartialEq, Eq, Structural)]
pub enum ScopeTarget {
    Route,
    Destination,
}

/// Views that can be narrowed to one route or destination.
#[derive(Clone, Copy, Debug, PartialEq, Eq, Structural)]
pub enum ScopedView {
    Dossier,
    Brief,
    Lens,
    Focus,
    Board,
    Casebook,
    Triage,
    Timeline,
    Handoff,
    Trace,
}

/// A query parameter that can be malformed.
#[derive(Clone, Copy, Debug, PartialEq, Eq, Structural)]
pub enum QueryParameter {
    Limit,
    AllowDegraded,
    Scope,
}

/// A path component that can carry malformed percent-encoding.
#[derive(Clone, Copy, Debug, PartialEq, Eq, Structural)]
pub enum ComponentLabel {
    RouteId,
    DestinationId,
    SandboxDestinationId,
}

/// What a control request asks for.
#[derive(Clone, Debug)]
pub enum ControlRoute {
    Asset(DashboardAsset),
    Status,
    Report,
    Overview,
    Readiness,
    Attention,
    Overrides,
    Blockers,
    Readyz { allow_degraded: bool },
    Signals { scope: ProxyOperatorSignalScope },
    History { view: HistoryView, limit: Option<usize> },
    FreezeTraffic,
    ThawTraffic,
    RestoreAllRoutes,
    Scoped { target: ScopeTarget, view: ScopedView, id: String, limit: Option<usize> },
    IsolateRoute { route_id: String },
    RestoreRoute { route_id: String },
    RehydrateDestination { destination_id: String },
    ReplayRoute { route_id: String, sandbox_destination_id: String, limit: usize },
    InvalidQuery(QueryParameter),
    InvalidComponent(ComponentLabel),
    Unsupported,
}

/// A control route with identifiers as UTF-8 bytes and limits as numbers.
pub enum RoutePlan {
    Asset(DashboardAsset),
    Status,
    Report,
    Overview,
    Readiness,
    Attention,
    Overrides,
    Blockers,
    Readyz { allow_degraded: bool },
    Signals { scope: ProxyOperatorSignalScope },
    History { view: HistoryView, limit: Option<nat> },
    FreezeTraffic,
    ThawTraffic,
    RestoreAllRoutes,
    Scoped { target: ScopeTarget, view: ScopedView, id: Seq<u8>, limit: Option<nat> },
    IsolateRoute { route_id: Seq<u8> },
    RestoreRoute { route_id: Seq<u8> },
    RehydrateDestination { destination_id: Seq<u8> },
    ReplayRoute { route_id: Seq<u8>, sandbox_destination_id: Seq<u8>, limit: nat },
    InvalidQuery(QueryParameter),
    InvalidComponent(ComponentLabel),
    Unsupported,
}

impl View for ControlRoute {
    type V = RoutePlan;

    open spec fn view(&self) -> RoutePlan {
        match self {
            ControlRoute::Asset(a) => RoutePlan::Asset(*a),
            ControlRoute::Status => RoutePlan::Status,
            ControlRoute::Report => RoutePlan::Report,
            ControlRoute::Overview => RoutePlan::Overview,
            ControlRoute::Readiness => RoutePlan::Readiness,
            ControlRoute::Attention => RoutePlan::Attention,
            ControlRoute::Overrides => RoutePlan::Overrides,
            ControlRoute::Blockers => RoutePlan::Blockers,
            ControlRoute::Readyz { allow_degraded } => RoutePlan::Readyz {
                allow_degraded: *allow_degraded,
            },
            ControlRoute::Signals { scope } => RoutePlan::Signals { scope: *scope },
            ControlRoute::History { view, limit } => RoutePlan::History {
                view: *view,
                limit: opt_nat(*limit),
            },
            ControlRoute::FreezeTraffic => RoutePlan::FreezeTraffic,
            ControlRoute::ThawTraffic => RoutePlan::ThawTraffic,
            ControlRoute::RestoreAllRoutes => RoutePlan::RestoreAllRoutes,
            ControlRoute::Scoped { target, view, id, limit } => RoutePlan::Scoped {
                target: *target,
                view: *view,
                id: utf8(id@),
                limit: opt_nat(*limit),
            },
            ControlRoute::IsolateRoute { route_id } => RoutePlan::IsolateRoute {
                route_id: utf8(route_id@),
            },
            ControlRoute::RestoreRoute { route_id } => RoutePlan::RestoreRoute {
                route_id: utf8(route_id@),
            },
            ControlRoute::RehydrateDestination { destination_id } => RoutePlan::RehydrateDestination {
                destination_id: utf8(destination_id@),
            },
            ControlRoute::ReplayRoute { route_id, sandbox_destination_id, limit } => RoutePlan::ReplayRoute {
                route_id: utf8(route_id@),
                sandbox_destination_id: utf8(sandbox_destination_id@),
                limit: *limit as nat,
            },
            ControlRoute::InvalidQuery(p) => RoutePlan::InvalidQuery(*p),
            ControlRoute::InvalidComponent(c) => RoutePlan::InvalidComponent(*c),
            ControlRoute::Unsupported => RoutePlan::Unsupported,
        }
    }
}

/// The signal scope a query asks for: `all` by default.
pub open spec fn signal_scope_value(query: Option<Seq<u8>>) -> Option<ProxyOperatorSignalScope> {
    match parameter_value(query, utf8("scope"@)) {
        None => Some(ProxyOperatorSignalScope::All),
        Some(v) => if v == utf8("all"@) {
            Some(ProxyOperatorSignalScope::All)
        } else if v == utf8("problematic"@) {
            Some(ProxyOperatorSignalScope::Problematic)
        } else {
            None
        },
    }
}

/// Reads the `scope` of a signals request.
pub fn signal_scope(query: Option<&str>) -> (r: Result<ProxyOperatorSignalScope, ()>)
    ensures
        match r {
            Ok(s) => signal_scope_value(opt_utf8(query)) == Some(s),
            Err(_) => signal_scope_value(opt_utf8(query)) is None,
        },
{
    match query_parameter(query, "scope") {
        Some(value) => match {
            proof {
                lemma_utf8_injective(value@, "all"@);
                lemma_utf8_injective(value@, "problematic"@);
            }
            ProxyOperatorSignalScope::parse(value)
        } {
            Some(scope) => Ok(scope),
            None => Err(()),
        },
        None => Ok(ProxyOperatorSignalScope::All),
    }
}

/// Whether `bytes` spell the text `lit`.
fn is_text(bytes: &[u8], lit: &str) -> (r: bool)
    ensures
        r == (bytes@ == utf8(lit@)),
{
    bytes_equal(bytes, lit.as_bytes())
}

/// A history view with its limit, or the malformed-limit error.
pub open spec fn history_plan(view: HistoryView, query: Option<Seq<u8>>) -> RoutePlan {
    match history_limit_value(query) {
        Some(limit) => RoutePlan::History { view, limit },
        None => RoutePlan::InvalidQuery(QueryParameter::Limit),
    }
}

fn history_route(view: HistoryView, query: Option<&str>) -> (r: ControlRoute)
    ensures
        r@ == history_plan(view, opt_utf8(query)),
{
    match history_limit(query) {
        Ok(limit) => ControlRoute::History { view, limit },
        Err(_) => ControlRoute::InvalidQuery(QueryParameter::Limit),
    }
}

/// The `GET` paths without parameters in their path.
pub open spec fn get_route(path: Seq<u8>, query: Option<Seq<u8>>) -> Option<RoutePlan> {
    if path == utf8("/dashboard"@) || path == utf8("/dashboard/"@) {
        Some(RoutePlan::Asset(DashboardAsset::Page))
    } else if path == utf8("/dashboard/app.css"@) {
        Some(RoutePlan::Asset(DashboardAsset::Stylesheet))
    } else if path == utf8("/dashboard/app.js"@) {
        Some(RoutePlan::Asset(DashboardAsset::Script))
    } else if path == utf8("/dashboard/dashboard-state.js"@) {
        Some(RoutePlan::Asset(DashboardAsset::StateScript))
    } else if path == utf8("/dashboard/dashboard-render.js"@) {
        Some(RoutePlan::Asset(DashboardAsset::RenderScript))
    } else if path == utf8("/dashboard/data"@) {
        Some(history_plan(HistoryView::DashboardData, query))
    } else if path == utf8("/status"@) {
        Some(RoutePlan::Status)
    } else if path == utf8("/report"@) {
        Some(RoutePlan::Report)
    } else if path == utf8("/overview"@) {
        Some(RoutePlan::Overview)
    } else if path == utf8("/readiness"@) {
        Some(RoutePlan::Readiness)
    } else if path == utf8("/readyz"@) {
        Some(
            match allow_degraded_value(query) {
                Some(b) => RoutePlan::Readyz { allow_degraded: b },
                None => RoutePlan::InvalidQuery(QueryParameter::AllowDegraded),
            },
        )
    } else if path == utf8("/snapshot"@) {
        Some(history_plan(HistoryView::Snapshot, query))
    } else if path == utf8("/diagnostics"@) {
        Some(history_plan(HistoryView::Diagnostics, query))
    } else if path == utf8("/attention"@) {
        Some(RoutePlan::Attention)
    } else if path == utf8("/incidents"@) {
        Some(history_plan(HistoryView::Incidents, query))
    } else if path == utf8("/handoff"@) {
        Some(history_plan(HistoryView::Handoff, query))
    } else if path == utf8("/triage"@) {
        Some(history_plan(HistoryView::Triage, query))
    } else if path == utf8("/casebook"@) {
        Some(history_plan(HistoryView::Casebook, query))
    } else if path == utf8("/board"@) {
        Some(history_plan(HistoryView::Board, query))
    } else if path == utf8("/timeline"@) {
        Some(history_plan(HistoryView::Timeline, query))
    } else if path == utf8("/trace"@) {
        Some(history_plan(HistoryView::Trace, query))
    } else if path == utf8("/focus"@) {
        Some(history_plan(HistoryView::Focus, query))
    } else if path == utf8("/lens"@) {
        Some(history_plan(HistoryView::Lens, query))
    } else if path == utf8("/brief"@) {
        Some(history_plan(HistoryView::Brief, query))
    } else if path == utf8("/dossier"@) {
        Some(history_plan(HistoryView::Dossier, query))
    } else if path == utf8("/overrides"@) {
        Some(RoutePlan::Overrides)
    } else if path == utf8("/signals"@) {
        Some(
            match signal_scope_value(query) {
                Some(scope) => RoutePlan::Signals { scope },
                None => RoutePlan::InvalidQuery(QueryParameter::Scope),
            },
        )
    } else if path == utf8("/blockers"@) {
        Some(RoutePlan::Blockers)
    } else if path == utf8("/history/operator-actions"@) {
        Some(history_plan(HistoryView::OperatorActions, query))
    } else if path == utf8("/history/config-events"@) {
        Some(history_plan(HistoryView::ConfigEvents, query))
    } else {
        None
    }
}

/// The `POST` paths without parameters in their path.
pub open spec fn post_route(path: Seq<u8>) -> Option<RoutePlan> {
    if path == utf8("/freeze"@) {
        Some(RoutePlan::FreezeTraffic)
    } else if path == utf8("/thaw"@) {
        Some(RoutePlan::ThawTraffic)
    } else if path == utf8("/routes/restore-all"@) {
        Some(RoutePlan::RestoreAllRoutes)
    } else {
        None
    }
}

#[verifier::rlimit(80)]
#[verifier::spinoff_prover]
fn get_route_exec(path: &[u8], query: Option<&str>) -> (r: Option<ControlRoute>)
    ensures
        match r {
            Some(route) => get_route(path@, opt_utf8(query)) == Some(route@),
            None => get_route(path@, opt_utf8(query)) is None,
        },
{
    if is_text(path, "/dashboard") || is_text(path, "/dashboard/") {
        Some(ControlRoute::Asset(DashboardAsset::Page))
    } else if is_text(path, "/dashboard/app.css") {
        Some(ControlRoute::Asset(DashboardAsset::Stylesheet))
    } else if is_text(path, "/dashboard/app.js") {
        Some(ControlRoute::Asset(DashboardAsset::Script))
    } else if is_text(path, "/dashboard/dashboard-state.js") {
        Some(ControlRoute::Asset(DashboardAsset::StateScript))
    } else if is_text(path, "/dashboard/dashboard-render.js") {
        Some(ControlRoute::Asset(DashboardAsset::RenderScript))
    } else if is_text(path, "/dashboard/data") {
        Some(history_route(HistoryView::DashboardData, query))
    } else if is_text(path, "/status") {
        Some(ControlRoute::Status)
    } else if is_text(path, "/report") {
        Some(ControlRoute::Report)
    } else if is_text(path, "/overview") {
        Some(ControlRoute::Overview)
    } else if is_text(path, "/readiness") {
        Some(ControlRoute::Readiness)
    } else if is_text(path, "/readyz") {
        Some(
            match allow_degraded(query) {
                Ok(b) => ControlRoute::Readyz { allow_degraded: b },
                Err(_) => ControlRoute::InvalidQuery(QueryParameter::AllowDegraded),
            },
        )
    } else if is_text(path, "/snapshot") {
        Some(history_route(HistoryView::Snapshot, query))
    } else if is_text(path, "/diagnostics") {
        Some(history_route(HistoryView::Diagnostics, query))
    } else if is_text(path, "/attention") {
        Some(ControlRoute::Attention)
    } else if is_text(path, "/incidents") {
        Some(history_route(HistoryView::Incidents, query))
    } else if is_text(path, "/handoff") {
        Some(history_route(HistoryView::Handoff, query))
    } else if is_text(path, "/triage") {
        Some(history_route(HistoryView::Triage, query))
    } else if is_text(path, "/casebook") {
        Some(history_route(HistoryView::Casebook, query))
    } else if is_text(path, "/board") {
        Some(history_route(HistoryView::Board, query))
    } else if is_text(path, "/timeline") {
        Some(history_route(HistoryView::Timeline, query))
    } else if is_text(path, "/trace") {
        Some(history_route(HistoryView::Trace, query))
    } else if is_text(path, "/focus") {
        Some(history_route(HistoryView::Focus, query))
    } else if is_text(path, "/lens") {
        Some(history_route(HistoryView::Lens, query))
    } else if is_text(path, "/brief") {
        Some(history_route(HistoryView::Brief, query))
    } else if is_text(path, "/dossier") {
        Some(history_route(HistoryView::Dossier, query))
    } else if is_text(path, "/overrides") {
        Some(ControlRoute::Overrides)
    } else if is_text(path, "/signals") {
        Some(
            match signal_scope(query) {
                Ok(scope) => ControlRoute::Signals { scope },
                Err(_) => ControlRoute::InvalidQuery(QueryParameter::Scope),
            },
        )
    } else if is_text(path, "/blockers") {
        Some(ControlRoute::Blockers)
    } else if is_text(path, "/history/operator-actions") {
        Some(history_route(HistoryView::OperatorActions, query))
    } else if is_text(path, "/history/config-events") {
        Some(history_route(HistoryView::ConfigEvents, query))
    } else {
        None
    }
}

fn post_route_exec(path: &[u8]) -> (r: Option<ControlRoute>)
    ensures
        match r {
            Some(route) => post_route(path@) == Some(route@),
            None => post_route(path@) is None,
        },
{
    if is_text(path, "/freeze") {
        Some(ControlRoute::FreezeTraffic)
    } else if is_text(path, "/thaw") {
        Some(ControlRoute::ThawTraffic)
    } else if is_text(path, "/routes/restore-all") {
        Some(ControlRoute::RestoreAllRoutes)
    } else {
        None
    }
}

/// `bytes` without the leading `prefix`, if it starts with it.
pub open spec fn strip_prefix(bytes: Seq<u8>, prefix: Seq<u8>) -> Option<Seq<u8>> {
    if prefix.len() <= bytes.len() && bytes.subrange(0, prefix.len() as int) == prefix {
        Some(bytes.subrange(prefix.len() as int, bytes.len() as int))
    } else {
        None
    }
}

/// `bytes` without the trailing `suffix`, if it ends with it.
pub open spec fn strip_suffix(bytes: Seq<u8>, suffix: Seq<u8>) -> Option<Seq<u8>> {
    if suffix.len() <= bytes.len() && bytes.subrange(
        bytes.len() - suffix.len(),
        bytes.len() as int,
    ) == suffix {
        Some(bytes.subrange(0, bytes.len() - suffix.len()))
    } else {
        None
    }
}

/// Copies `bytes[from..to]`.
fn copy_range(bytes: &[u8], from: usize, to: usize) -> (r: Vec<u8>)
    requires
        from <= to <= bytes@.len(),
    ensures
        r@ == bytes@.subrange(from as int, to as int),
{
    let mut out: Vec<u8> = Vec::new();
    let mut i = from;
    while i < to
        invariant
            from <= i <= to <= bytes@.len(),
            out@ == bytes@.subrange(from as int, i as int),
        decreases to - i,
    {
        out.push(bytes[i]);
        assert(out@ =~= bytes@.subrange(from as int, i + 1));
        i = i + 1;
    }
    out
}

fn strip_prefix_exec(bytes: &[u8], prefix: &str) -> (r: Option<Vec<u8>>)
    ensures
        match r {
            Some(v) => strip_prefix(bytes@, utf8(prefix@)) == Some(v@),
            None => strip_prefix(bytes@, utf8(prefix@)) is None,
        },
{
    let p = prefix.as_bytes();
    if p.len() > bytes.len() {
        return None;
    }
    let head = copy_range(bytes, 0, p.len());
    if bytes_equal(head.as_slice(), p) {
        Some(copy_range(bytes, p.len(), bytes.len()))
    } else {
        None
    }
}

fn strip_suffix_exec(bytes: &[u8], suffix: &str) -> (r: Option<Vec<u8>>)
    ensures
        match r {
            Some(v) => strip_suffix(bytes@, utf8(suffix@)) == Some(v@),
            None => strip_suffix(bytes@, utf8(suffix@)) is None,
        },
{
    let s = suffix.as_bytes();
    if s.len() > bytes.len() {
        return None;
    }
    let tail = copy_range(bytes, bytes.len() - s.len(), bytes.len());
    if bytes_equal(tail.as_slice(), s) {
        Some(copy_range(bytes, 0, bytes.len() - s.len()))
    } else {
        None
    }
}

/// Position of the first occurrence of `pattern` in `bytes` at or after `from`.
pub open spec fn find_from(bytes: Seq<u8>, pattern: Seq<u8>, from: int) -> Option<int>
    decreases bytes.len() + 1 - from,
{
    if from < 0 || from + pattern.len() > bytes.len() {
        None
    } else if occurs_at(bytes, pattern, from) {
        Some(from)
    } else {
        find_from(bytes, pattern, from + 1)
    }
}

/// The parts before and after the first occurrence of `pattern`, as `str::split_once` gives them.
pub open spec fn split_once(bytes: Seq<u8>, pattern: Seq<u8>) -> Option<(Seq<u8>, Seq<u8>)> {
    match find_from(bytes, pattern, 0) {
        Some(i) => Some(
            (bytes.subrange(0, i), bytes.subrange(i + pattern.len(), bytes.len() as int)),
        ),
        None => None,
    }
}

proof fn lemma_find_from_bounds(bytes: Seq<u8>, pattern: Seq<u8>, from: int)
    ensures
        find_from(bytes, pattern, from) matches Some(i) ==> from <= i && i + pattern.len()
            <= bytes.len(),
    decreases bytes.len() + 1 - from,
{
    if !(from < 0 || from + pattern.len() > bytes.len()) && !occurs_at(bytes, pattern, from) {
        lemma_find_from_bounds(bytes, pattern, from + 1);
    }
}

fn split_once_exec(bytes: &[u8], pattern: &str) -> (r: Option<(Vec<u8>, Vec<u8>)>)
    ensures
        match r {
            Some((a, b)) => split_once(bytes@, utf8(pattern@)) == Some((a@, b@)),
            None => split_once(bytes@, utf8(pattern@)) is None,
        },
{
    let p = pattern.as_bytes();
    let ghost pb = p@;
    if p.len() > bytes.len() {
        return None;
    }
    let last = bytes.len() - p.len();
    let mut i: usize = 0;
    loop
        invariant
            pb == p@,
            pb == utf8(pattern@),
            pb.len() <= bytes@.len(),
            last == bytes@.len() - pb.len(),
            last + pb.len() == bytes.len(),
            i <= last,
            find_from(bytes@, pb, 0) == find_from(bytes@, pb, i as int),
        decreases last - i,
    {
        let window = copy_range(bytes, i, i + p.len());
        if bytes_equal(window.as_slice(), p) {
            proof {
                lemma_find_from_bounds(bytes@, pb, 0);
            }
            let before = copy_range(bytes, 0, i);
            let after = copy_range(bytes, i + p.len(), bytes.len());
            return Some((before, after));
        }
        if i == last {
            assert(find_from(bytes@, pb, i + 1) is None);
            return None;
        }
        i = i + 1;
    }
}

/// A scoped view request: the right method and a non-empty identifier, then a
/// decodable identifier, then a well-formed history limit.
pub open spec fn scoped_plan(
    method_ok: bool,
    target: ScopeTarget,
    view: ScopedView,
    label: ComponentLabel,
    id: Seq<u8>,
    query: Option<Seq<u8>>,
) -> RoutePlan {
    if !method_ok || id.len() == 0 {
        RoutePlan::Unsupported
    } else {
        match decoded_component(id) {
            None => RoutePlan::InvalidComponent(label),
            Some(decoded) => match history_limit_value(query) {
                None => RoutePlan::InvalidQuery(QueryParameter::Limit),
                Some(limit) => RoutePlan::Scoped { target, view, id: decoded, limit },
            },
        }
    }
}

fn scoped_route(
    method_ok: bool,
    target: ScopeTarget,
    view: ScopedView,
    label: ComponentLabel,
    id: &[u8],
    query: Option<&str>,
) -> (r: ControlRoute)
    ensures
        r@ == scoped_plan(method_ok, target, view, label, id@, opt_utf8(query)),
{
    if !method_ok || id.len() == 0 {
        return ControlRoute::Unsupported;
    }
    let decoded = match decode_component_bytes(id) {
        Ok(d) => d,
        Err(_) => {
            return ControlRoute::InvalidComponent(label);
        },
    };
    match history_limit(query) {
        Ok(limit) => ControlRoute::Scoped { target, view, id: decoded, limit },
        Err(_) => ControlRoute::InvalidQuery(QueryParameter::Limit),
    }
}

/// Which operator action a `POST` on an identifier asks for.
#[derive(Clone, Copy, Debug, PartialEq, Eq, Structural)]
pub enum IdentifiedAction {
    IsolateRoute,
    RestoreRoute,
    RehydrateDestination,
}

/// An action on one identifier: `POST` and a non-empty, decodable identifier.
pub open spec fn action_plan(
    method_ok: bool,
    action: IdentifiedAction,
    label: ComponentLabel,
    id: Seq<u8>,
) -> RoutePlan {
    if !method_ok || id.len() == 0 {
        RoutePlan::Unsupported
    } else {
        match decoded_component(id) {
            None => RoutePlan::InvalidComponent(label),
            Some(decoded) => match action {
                IdentifiedAction::IsolateRoute => RoutePlan::IsolateRoute { route_id: decoded },
                IdentifiedAction::RestoreRoute => RoutePlan::RestoreRoute { route_id: decoded },
                IdentifiedAction::RehydrateDestination => RoutePlan::RehydrateDestination {
                    destination_id: decoded,
                },
            },
        }
    }
}

fn action_route(method_ok: bool, action: IdentifiedAction, label: ComponentLabel, id: &[u8]) -> (r:
    ControlRoute)
    ensures
        r@ == action_plan(method_ok, action, label, id@),
{
    if !method_ok || id.len() == 0 {
        return ControlRoute::Unsupported;
    }
    let decoded = match decode_component_bytes(id) {
        Ok(d) => d,
        Err(_) => {
            return ControlRoute::InvalidComponent(label);
        },
    };
    match action {
        IdentifiedAction::IsolateRoute => ControlRoute::IsolateRoute { route_id: decoded },
        IdentifiedAction::RestoreRoute => ControlRoute::RestoreRoute { route_id: decoded },
        IdentifiedAction::RehydrateDestination => ControlRoute::RehydrateDestination {
            destination_id: decoded,
        },
    }
}

/// A sandbox replay: `POST`, both identifiers non-empty and decodable, then a
/// well-formed replay limit.
pub open spec fn replay_plan(
    method_ok: bool,
    route_id: Seq<u8>,
    sandbox_id: Seq<u8>,
    query: Option<Seq<u8>>,
) -> RoutePlan {
    if !method_ok || route_id.len() == 0 || sandbox_id.len() == 0 {
        RoutePlan::Unsupported
    } else {
        match decoded_component(route_id) {
            None => RoutePlan::InvalidComponent(ComponentLabel::RouteId),
            Some(r) => match decoded_component(sandbox_id) {
                None => RoutePlan::InvalidComponent(ComponentLabel::SandboxDestinationId),
                Some(s) => match replay_limit_value(query) {
                    None => RoutePlan::InvalidQuery(QueryParameter::Limit),
                    Some(limit) => RoutePlan::ReplayRoute {
                        route_id: r,
                        sandbox_destination_id: s,
                        limit,
                    },
                },
            },
        }
    }
}

fn replay_route(method_ok: bool, route_id: &[u8], sandbox_id: &[u8], query: Option<&str>) -> (r:
    ControlRoute)
    ensures
        r@ == replay_plan(method_ok, route_id@, sandbox_id@, opt_utf8(query)),
{
    if !method_ok || route_id.len() == 0 || sandbox_id.len() == 0 {
        return ControlRoute::Unsupported;
    }
    let route = match decode_component_bytes(route_id) {
        Ok(d) => d,
        Err(_) => {
            return ControlRoute::InvalidComponent(ComponentLabel::RouteId);
        },
    };
    let sandbox = match decode_component_bytes(sandbox_id) {
        Ok(d) => d,
        Err(_) => {
            return ControlRoute::InvalidComponent(ComponentLabel::SandboxDestinationId);
        },
    };
    match replay_limit(query) {
        Ok(limit) => ControlRoute::ReplayRoute {
            route_id: route,
            sandbox_destination_id: sandbox,
            limit,
        },
        Err(_) => ControlRoute::InvalidQuery(QueryParameter::Limit),
    }
}


/// Scoped views and actions under `/destinations/{id}/...`; `dest` is the path
/// after `/destinations/`.
pub open spec fn destination_route(
    get: bool,
    post: bool,
    dest: Seq<u8>,
    query: Option<Seq<u8>>,
) -> Option<RoutePlan> {
    let label = ComponentLabel::DestinationId;
    let target = ScopeTarget::Destination;
    match strip_suffix(dest, utf8("/dossier"@)) {
        Some(id) => Some(scoped_plan(get, target, ScopedView::Dossier, label, id, query)),
        None => match strip_suffix(dest, utf8("/brief"@)) {
            Some(id) => Some(scoped_plan(get, target, ScopedView::Brief, label, id, query)),
            None => match strip_suffix(dest, utf8("/lens"@)) {
                Some(id) => Some(scoped_plan(get, target, ScopedView::Lens, label, id, query)),
                None => match strip_suffix(dest, utf8("/focus"@)) {
                    Some(id) => Some(scoped_plan(get, target, ScopedView::Focus, label, id, query)),
                    None => match strip_suffix(dest, utf8("/board"@)) {
                        Some(id) => Some(
                            scoped_plan(get, target, ScopedView::Board, label, id, query),
                        ),
                        None => match strip_suffix(dest, utf8("/casebook"@)) {
                            Some(id) => Some(
                                scoped_plan(get, target, ScopedView::Casebook, label, id, query),
                            ),
                            None => match strip_suffix(dest, utf8("/triage"@)) {
                                Some(id) => Some(
                                    scoped_plan(get, target, ScopedView::Triage, label, id, query),
                                ),
                                None => match strip_suffix(dest, utf8("/timeline"@)) {
                                    Some(id) => Some(
                                        scoped_plan(
                                            get,
                                            target,
                                            ScopedView::Timeline,
                                            label,
                                            id,
                                            query,
                                        ),
                                    ),
                                    None => match strip_suffix(dest, utf8("/handoff"@)) {
                                        Some(id) => Some(
                                            scoped_plan(
                                                get,
                                                target,
                                                ScopedView::Handoff,
                                                label,
                                                id,
                                                query,
                                            ),
                                        ),
                                        None => match strip_suffix(dest, utf8("/trace"@)) {
                                            Some(id) => Some(
                                                scoped_plan(
                                                    get,
                                                    target,
                                                    ScopedView::Trace,
                                                    label,
                                                    id,
                                                    query,
                                                ),
                                            ),
                                            None => match strip_suffix(dest, utf8("/rehydrate"@)) {
                                                Some(id) => Some(
                                                    action_plan(
                                                        post,
                                                        IdentifiedAction::RehydrateDestination,
                                                        label,
                                                        id,
                                                    ),
                                                ),
                                                None => None,
                                            },
                                        },
                                    },
                                },
                            },
                        },
                    },
                },
            },
        },
    }
}

fn destination_route_exec(get: bool, post: bool, dest: &[u8], query: Option<&str>) -> (r: Option<
    ControlRoute,
>)
    ensures
        match r {
            Some(route) => destination_route(get, post, dest@, opt_utf8(query)) == Some(route@),
            None => destination_route(get, post, dest@, opt_utf8(query)) is None,
        },
{
    let label = ComponentLabel::DestinationId;
    let target = ScopeTarget::Destination;
    if let Some(id) = strip_suffix_exec(dest, "/dossier") {
        return Some(scoped_route(get, target, ScopedView::Dossier, label, id.as_slice(), query));
    }
    if let Some(id) = strip_suffix_exec(dest, "/brief") {
        return Some(scoped_route(get, target, ScopedView::Brief, label, id.as_slice(), query));
    }
    if let Some(id) = strip_suffix_exec(dest, "/lens") {
        return Some(scoped_route(get, target, ScopedView::Lens, label, id.as_slice(), query));
    }
    if let Some(id) = strip_suffix_exec(dest, "/focus") {
        return Some(scoped_route(get, target, ScopedView::Focus, label, id.as_slice(), query));
    }
    if let Some(id) = strip_suffix_exec(dest, "/board") {
        return Some(scoped_route(get, target, ScopedView::Board, label, id.as_slice(), query));
    }
    if let Some(id) = strip_suffix_exec(dest, "/casebook") {
        return Some(scoped_route(get, target, ScopedView::Casebook, label, id.as_slice(), query));
    }
    if let Some(id) = strip_suffix_exec(dest, "/triage") {
        return Some(scoped_route(get, target, ScopedView::Triage, label, id.as_slice(), query));
    }
    if let Some(id) = strip_suffix_exec(dest, "/timeline") {
        return Some(scoped_route(get, target, ScopedView::Timeline, label, id.as_slice(), query));
    }
    if let Some(id) = strip_suffix_exec(dest, "/handoff") {
        return Some(scoped_route(get, target, ScopedView::Handoff, label, id.as_slice(), query));
    }
    if let Some(id) = strip_suffix_exec(dest, "/trace") {
        return Some(scoped_route(get, target, ScopedView::Trace, label, id.as_slice(), query));
    }
    if let Some(id) = strip_suffix_exec(dest, "/rehydrate") {
        return Some(
            action_route(post, IdentifiedAction::RehydrateDestination, label, id.as_slice()),
        );
    }
    None
}

/// Scoped views and actions under `/routes/{id}/...`; `rest` is the path after `/routes/`.
pub open spec fn route_path_route(
    get: bool,
    post: bool,
    rest: Seq<u8>,
    query: Option<Seq<u8>>,
) -> RoutePlan {
    let label = ComponentLabel::RouteId;
    let target = ScopeTarget::Route;
    match strip_suffix(rest, utf8("/brief"@)) {
        Some(id) => scoped_plan(get, target, ScopedView::Brief, label, id, query),
        None => match strip_suffix(rest, utf8("/dossier"@)) {
            Some(id) => scoped_plan(get, target, ScopedView::Dossier, label, id, query),
            None => match strip_suffix(rest, utf8("/lens"@)) {
                Some(id) => scoped_plan(get, target, ScopedView::Lens, label, id, query),
                None => match strip_suffix(rest, utf8("/focus"@)) {
                    Some(id) => scoped_plan(get, target, ScopedView::Focus, label, id, query),
                    None => match strip_suffix(rest, utf8("/board"@)) {
                        Some(id) => scoped_plan(get, target, ScopedView::Board, label, id, query),
                        None => route_path_route_rest(get, post, rest, query),
                    },
                },
            },
        },
    }
}

/// The second half of `route_path_route`.
pub open spec fn route_path_route_rest(
    get: bool,
    post: bool,
    rest: Seq<u8>,
    query: Option<Seq<u8>>,
) -> RoutePlan {
    let label = ComponentLabel::RouteId;
    let target = ScopeTarget::Route;
    match strip_suffix(rest, utf8("/handoff"@)) {
        Some(id) => scoped_plan(get, target, ScopedView::Handoff, label, id, query),
        None => match strip_suffix(rest, utf8("/casebook"@)) {
            Some(id) => scoped_plan(get, target, ScopedView::Casebook, label, id, query),
            None => match strip_suffix(rest, utf8("/triage"@)) {
                Some(id) => scoped_plan(get, target, ScopedView::Triage, label, id, query),
                None => match strip_suffix(rest, utf8("/timeline"@)) {
                    Some(id) => scoped_plan(get, target, ScopedView::Timeline, label, id, query),
                    None => match strip_suffix(rest, utf8("/trace"@)) {
                        Some(id) => scoped_plan(get, target, ScopedView::Trace, label, id, query),
                        None => match strip_suffix(rest, utf8("/isolate"@)) {
                            Some(id) => action_plan(post, IdentifiedAction::IsolateRoute, label, id),
                            None => match strip_suffix(rest, utf8("/restore"@)) {
                                Some(id) => action_plan(
                                    post,
                                    IdentifiedAction::RestoreRoute,
                                    label,
                                    id,
                                ),
                                None => match split_once(rest, utf8("/replay/"@)) {
                                    Some((route_id, sandbox_id)) => replay_plan(
                                        post,
                                        route_id,
                                        sandbox_id,
                                        query,
                                    ),
                                    None => RoutePlan::Unsupported,
                                },
                            },
                        },
                    },
                },
            },
        },
    }
}

fn route_path_route_exec(get: bool, post: bool, rest: &[u8], query: Option<&str>) -> (r:
    ControlRoute)
    ensures
        r@ == route_path_route(get, post, rest@, opt_utf8(query)),
{
    let label = ComponentLabel::RouteId;
    let target = ScopeTarget::Route;
    if let Some(id) = strip_suffix_exec(rest, "/brief") {
        return scoped_route(get, target, ScopedView::Brief, label, id.as_slice(), query);
    }
    if let Some(id) = strip_suffix_exec(rest, "/dossier") {
        return scoped_route(get, target, ScopedView::Dossier, label, id.as_slice(), query);
    }
    if let Some(id) = strip_suffix_exec(rest, "/lens") {
        return scoped_route(get, target, ScopedView::Lens, label, id.as_slice(), query);
    }
    if let Some(id) = strip_suffix_exec(rest, "/focus") {
        return scoped_route(get, target, ScopedView::Focus, label, id.as_slice(), query);
    }
    if let Some(id) = strip_suffix_exec(rest, "/board") {
        return scoped_route(get, target, ScopedView::Board, label, id.as_slice(), query);
    }
    route_path_route_rest_exec(get, post, rest, query)
}

fn route_path_route_rest_exec(get: bool, post: bool, rest: &[u8], query: Option<&str>) -> (r:
    ControlRoute)
    ensures
        r@ == route_path_route_rest(get, post, rest@, opt_utf8(query)),
{
    let label = ComponentLabel::RouteId;
    let target = ScopeTarget::Route;
    if let Some(id) = strip_suffix_exec(rest, "/handoff") {
        return scoped_route(get, target, ScopedView::Handoff, label, id.as_slice(), query);
    }
    if let Some(id) = strip_suffix_exec(rest, "/casebook") {
        return scoped_route(get, target, ScopedView::Casebook, label, id.as_slice(), query);
    }
    if let Some(id) = strip_suffix_exec(rest, "/triage") {
        return scoped_route(get, target, ScopedView::Triage, label, id.as_slice(), query);
    }
    if let Some(id) = strip_suffix_exec(rest, "/timeline") {
        return scoped_route(get, target, ScopedView::Timeline, label, id.as_slice(), query);
    }
    if let Some(id) = strip_suffix_exec(rest, "/trace") {
        return scoped_route(get, target, ScopedView::Trace, label, id.as_slice(), query);
    }
    if let Some(id) = strip_suffix_exec(rest, "/isolate") {
        return action_route(post, IdentifiedAction::IsolateRoute, label, id.as_slice());
    }
    if let Some(id) = strip_suffix_exec(rest, "/restore") {
        return action_route(post, IdentifiedAction::RestoreRoute, label, id.as_slice());
    }
    match split_once_exec(rest, "/replay/") {
        Some((route_id, sandbox_id)) => replay_route(
            post,
            route_id.as_slice(),
            sandbox_id.as_slice(),
            query,
        ),
        None => ControlRoute::Unsupported,
    }
}

/// Requests that name a route or destination in their path.
pub open spec fn nested_route(
    get: bool,
    post: bool,
    path: Seq<u8>,
    query: Option<Seq<u8>>,
) -> RoutePlan {
    let under_routes = match strip_prefix(path, utf8("/routes/"@)) {
        Some(rest) => route_path_route(get, post, rest, query),
        None => RoutePlan::Unsupported,
    };
    match strip_prefix(path, utf8("/destinations/"@)) {
        Some(dest) => match destination_route(get, post, dest, query) {
            Some(plan) => plan,
            None => under_routes,
        },
        None => under_routes,
    }
}

/// What a request with this method and target asks for.
pub open spec fn control_route_plan(method: Seq<u8>, target: Seq<u8>) -> RoutePlan {
    let path = target_path(target);
    let query = target_query(target);
    let get = method == utf8("GET"@);
    let post = method == utf8("POST"@);
    let exact = if get {
        get_route(path, query)
    } else if post {
        post_route(path)
    } else {
        None
    };
    match exact {
        Some(plan) => plan,
        None => nested_route(get, post, path, query),
    }
}

/// Decides what a control request asks for: the operator view or action, with
/// its parameters, or the error that answers it.
pub fn route_request(method: &str, target: &str) -> (r: ControlRoute)
    ensures
        r@ == control_route_plan(utf8(method@), utf8(target@)),
{
    let (path, query) = split_query(target);
    let path_bytes = path.as_bytes();
    let get = is_text(method.as_bytes(), "GET");
    let post = is_text(method.as_bytes(), "POST");
    let exact = if get {
        get_route_exec(path_bytes, query)
    } else if post {
        post_route_exec(path_bytes)
    } else {
        None
    };
    match exact {
        Some(route) => route,
        None => route_nested_request(get, post, path_bytes, query),
    }
}

/// Routes requests that name a route or destination in their path.
pub fn route_nested_request(get: bool, post: bool, path: &[u8], query: Option<&str>) -> (r:
    ControlRoute)
    ensures
        r@ == nested_route(get, post, path@, opt_utf8(query)),
{
    if let Some(dest) = strip_prefix_exec(path, "/destinations/") {
        if let Some(route) = destination_route_exec(get, post, dest.as_slice(), query) {
            return route;
        }
    }
    match strip_prefix_exec(path, "/routes/") {
        Some(rest) => route_path_route_exec(get, post, rest.as_slice(), query),
        None => ControlRoute::Unsupported,
    }
}

} // verus!
