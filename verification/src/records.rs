//! The records an inspection command shows: all of a catalog's, or those of
//! the one route or destination its options name.
use vstd::prelude::*;

use crate::board::{BoardItemView, ProxyOperatorBoard};
use crate::brief::{ProxyOperatorBriefCatalog, ProxyOperatorDestinationBrief, ProxyOperatorRouteBrief};
use crate::casebook::{
    ProxyOperatorCasebookCatalog, ProxyOperatorDestinationCasebook, ProxyOperatorRouteCasebook,
};
use crate::context::{select_from, select_items};
use crate::dossier::{
    ProxyOperatorDestinationDossier, ProxyOperatorDossierCatalog, ProxyOperatorRouteDossier,
};
use crate::handoff::{
    ProxyOperatorDestinationHandoff, ProxyOperatorHandoffCatalog, ProxyOperatorRouteHandoff,
};
use crate::focus::{
    ProxyOperatorDestinationFocusPacket, ProxyOperatorFocusCatalog, ProxyOperatorRouteFocusPacket,
};
use crate::lens::{ProxyOperatorDestinationLens, ProxyOperatorLensCatalog, ProxyOperatorRouteLens};
use crate::text::{join2, join3, owned};
use crate::trace::{
    ProxyOperatorDestinationTimeline, ProxyOperatorDestinationTriage, ProxyOperatorRouteTimeline,
    ProxyOperatorRouteTriage, ProxyOperatorTimelineCatalog, ProxyOperatorTriageCatalog,
};
use crate::values::{copy_by_id, find_by_id, Identified, OperatorValue};

verus! {

/// Which records a command shows: all, one route's or one destination's.
#[derive(Clone, Debug)]
pub enum RecordScope {
    All,
    Route(String),
    Destination(String),
}

/// Reads the scope of a command from its route and destination options.
pub fn record_scope(command: &str, route_id: Option<&str>, destination_id: Option<&str>) -> (r: Result<
    RecordScope,
    String,
>)
    ensures
        route_id is Some && destination_id is Some ==> (r matches Err(m) && m@ == command@
            + " accepts only one of --route-id or --destination-id"@),
        route_id is Some && destination_id is None ==> (r matches Ok(RecordScope::Route(id)) && id@
            == route_id->0@),
        route_id is None && destination_id is Some ==> (r matches Ok(RecordScope::Destination(id))
            && id@ == destination_id->0@),
        route_id is None && destination_id is None ==> r matches Ok(RecordScope::All),
{
    match (route_id, destination_id) {
        (Some(_), Some(_)) => Err(join2(command, " accepts only one of --route-id or --destination-id")),
        (Some(id), None) => Ok(RecordScope::Route(owned(id))),
        (None, Some(id)) => Ok(RecordScope::Destination(owned(id))),
        (None, None) => Ok(RecordScope::All),
    }
}

/// The route and destination records shown for a scope: all of them; the
/// first record of the named route and no destination's; or the first record
/// of the named destination and no route's. None when the named one has no record.
pub open spec fn narrowed<R: Identified, D: Identified>(
    routes: Seq<R::V>,
    destinations: Seq<D::V>,
    scope: RecordScope,
) -> Option<(Seq<R::V>, Seq<D::V>)> {
    match scope {
        RecordScope::All => Some((routes, destinations)),
        RecordScope::Route(id) => match find_by_id::<R>(routes, id@) {
            Some(v) => Some((seq![v], Seq::empty())),
            None => None,
        },
        RecordScope::Destination(id) => match find_by_id::<D>(destinations, id@) {
            Some(v) => Some((Seq::empty(), seq![v])),
            None => None,
        },
    }
}

/// The refusal when the named route or destination has no record of the kind `noun`.
pub open spec fn unknown_record_text(scope: RecordScope, noun: Seq<char>) -> Seq<char> {
    match scope {
        RecordScope::Route(id) => "unknown route "@ + noun + " `"@ + id@ + "`"@,
        RecordScope::Destination(id) => "unknown destination "@ + noun + " `"@ + id@ + "`"@,
        RecordScope::All => Seq::empty(),
    }
}

fn unknown_record(scope: &RecordScope, noun: &str) -> (r: String)
    ensures
        r@ == unknown_record_text(*scope, noun@),
{
    match scope {
        RecordScope::Route(id) => {
            let head = join3("unknown route ", noun, " `");
            join3(head.as_str(), id.as_str(), "`")
        },
        RecordScope::Destination(id) => {
            let head = join3("unknown destination ", noun, " `");
            join3(head.as_str(), id.as_str(), "`")
        },
        RecordScope::All => {
            let r = owned("");
            proof {
                reveal_strlit("");
            }
            r
        },
    }
}

fn single<T: OperatorValue>(v: T) -> (r: Vec<T>)
    ensures
        r.deep_view() == seq![v.deep_view()],
{
    let mut out: Vec<T> = Vec::new();
    out.push(v);
    assert(out.deep_view() =~= seq![v.deep_view()]);
    out
}

fn none_of<T: DeepView>() -> (r: Vec<T>)
    ensures
        r.deep_view() == Seq::<T::V>::empty(),
{
    let out: Vec<T> = Vec::new();
    assert(out.deep_view() =~= Seq::<T::V>::empty());
    out
}

/// Narrows route and destination records to a scope.
pub fn narrow_records<R: Identified + OperatorValue, D: Identified + OperatorValue>(
    routes: Vec<R>,
    destinations: Vec<D>,
    scope: &RecordScope,
) -> (r: Option<(Vec<R>, Vec<D>)>)
    ensures
        match narrowed::<R, D>(routes.deep_view(), destinations.deep_view(), *scope) {
            Some((rs, ds)) => r matches Some((a, b)) && a.deep_view() == rs && b.deep_view() == ds,
            None => r is None,
        },
{
    match scope {
        RecordScope::All => Some((routes, destinations)),
        RecordScope::Route(id) => match copy_by_id(&routes, id.as_str()) {
            Some(v) => Some((single(v), none_of())),
            None => None,
        },
        RecordScope::Destination(id) => match copy_by_id(&destinations, id.as_str()) {
            Some(v) => Some((none_of(), single(v))),
            None => None,
        },
    }
}

/// The board items a scope shows: all of them; broker-wide items and those
/// naming the route; or broker-wide items and those naming the destination.
pub open spec fn board_items_in_scope(items: Seq<BoardItemView>, scope: RecordScope) -> Seq<BoardItemView> {
    match scope {
        RecordScope::All => items,
        RecordScope::Route(id) => select_items(items, id@, true, true),
        RecordScope::Destination(id) => select_items(items, id@, false, true),
    }
}

fn lane_in_scope(items: &Vec<crate::board::ProxyOperatorBoardItem>, scope: &RecordScope) -> (r: Vec<
    crate::board::ProxyOperatorBoardItem,
>)
    ensures
        r.deep_view() == board_items_in_scope(items.deep_view(), *scope),
{
    let (id, for_route) = match scope {
        RecordScope::All => {
            return crate::values::duplicate_all(items);
        },
        RecordScope::Route(id) => (id, true),
        RecordScope::Destination(id) => (id, false),
    };
    let mut out: Vec<crate::board::ProxyOperatorBoardItem> = Vec::new();
    assert(out.deep_view() =~= Seq::<BoardItemView>::empty());
    select_from(&mut out, items, id.as_str(), for_route, true);
    assert(out.deep_view() =~= board_items_in_scope(items.deep_view(), *scope));
    out
}

/// The board a scope shows: each lane keeps the items in scope, in order.
pub fn narrow_board(board: &ProxyOperatorBoard, scope: &RecordScope) -> (r: ProxyOperatorBoard)
    ensures
        r.state@ == board.state@,
        r.blocked_items.deep_view() == board_items_in_scope(board.blocked_items.deep_view(), *scope),
        r.degraded_items.deep_view() == board_items_in_scope(board.degraded_items.deep_view(), *scope),
        r.watch_items.deep_view() == board_items_in_scope(board.watch_items.deep_view(), *scope),
{
    ProxyOperatorBoard {
        state: board.state.duplicate(),
        blocked_items: lane_in_scope(&board.blocked_items, scope),
        degraded_items: lane_in_scope(&board.degraded_items, scope),
        watch_items: lane_in_scope(&board.watch_items, scope),
    }
}


/// The timeline catalog a scope shows, its broker-wide entries kept; or the
/// refusal when the named route or destination has no timeline.
pub fn narrow_timeline_catalog(catalog: ProxyOperatorTimelineCatalog, scope: &RecordScope) -> (r: Result<
    ProxyOperatorTimelineCatalog,
    String,
>)
    ensures
        match narrowed::<ProxyOperatorRouteTimeline, ProxyOperatorDestinationTimeline>(
            catalog.routes.deep_view(),
            catalog.destinations.deep_view(),
            *scope,
        ) {
            Some((rs, ds)) => r matches Ok(c) && c.global == catalog.global && c.routes.deep_view()
                == rs && c.destinations.deep_view() == ds,
            None => r matches Err(m) && m@ == unknown_record_text(*scope, "timeline"@),
        },
{
    let ProxyOperatorTimelineCatalog { global, routes, destinations } = catalog;
    match narrow_records(routes, destinations, scope) {
        Some((routes, destinations)) => Ok(ProxyOperatorTimelineCatalog { global, routes, destinations }),
        None => Err(unknown_record(scope, "timeline")),
    }
}

/// The triage catalog a scope shows, its state and broker-wide triage kept;
/// or the refusal when the named route or destination has no triage.
pub fn narrow_triage_catalog(catalog: ProxyOperatorTriageCatalog, scope: &RecordScope) -> (r: Result<
    ProxyOperatorTriageCatalog,
    String,
>)
    ensures
        match narrowed::<ProxyOperatorRouteTriage, ProxyOperatorDestinationTriage>(
            catalog.route_triage.deep_view(),
            catalog.destination_triage.deep_view(),
            *scope,
        ) {
            Some((rs, ds)) => r matches Ok(c) && c.state == catalog.state && c.global == catalog.global
                && c.route_triage.deep_view() == rs && c.destination_triage.deep_view() == ds,
            None => r matches Err(m) && m@ == unknown_record_text(*scope, "triage"@),
        },
{
    let ProxyOperatorTriageCatalog { state, global, route_triage, destination_triage } = catalog;
    match narrow_records(route_triage, destination_triage, scope) {
        Some((route_triage, destination_triage)) => Ok(
            ProxyOperatorTriageCatalog { state, global, route_triage, destination_triage },
        ),
        None => Err(unknown_record(scope, "triage")),
    }
}

/// The casebook catalog a scope shows, its state kept; or the refusal when
/// the named route or destination has no casebook record.
pub fn narrow_casebook_catalog(catalog: ProxyOperatorCasebookCatalog, scope: &RecordScope) -> (r:
    Result<ProxyOperatorCasebookCatalog, String>)
    ensures
        match narrowed::<ProxyOperatorRouteCasebook, ProxyOperatorDestinationCasebook>(
            catalog.route_casebooks.deep_view(),
            catalog.destination_casebooks.deep_view(),
            *scope,
        ) {
            Some((rs, ds)) => r matches Ok(c) && c.state == catalog.state
                && c.route_casebooks.deep_view() == rs && c.destination_casebooks.deep_view() == ds,
            None => r matches Err(m) && m@ == unknown_record_text(*scope, "casebook"@),
        },
{
    let ProxyOperatorCasebookCatalog { state, route_casebooks, destination_casebooks } = catalog;
    match narrow_records(route_casebooks, destination_casebooks, scope) {
        Some((route_casebooks, destination_casebooks)) => Ok(
            ProxyOperatorCasebookCatalog { state, route_casebooks, destination_casebooks },
        ),
        None => Err(unknown_record(scope, "casebook")),
    }
}

/// The focus catalog a scope shows, its state kept; or the refusal when the
/// named route or destination has no focus packet.
pub fn narrow_focus_catalog(catalog: ProxyOperatorFocusCatalog, scope: &RecordScope) -> (r: Result<
    ProxyOperatorFocusCatalog,
    String,
>)
    ensures
        match narrowed::<ProxyOperatorRouteFocusPacket, ProxyOperatorDestinationFocusPacket>(
            catalog.routes.deep_view(),
            catalog.destinations.deep_view(),
            *scope,
        ) {
            Some((rs, ds)) => r matches Ok(c) && c.state == catalog.state && c.routes.deep_view() == rs
                && c.destinations.deep_view() == ds,
            None => r matches Err(m) && m@ == unknown_record_text(*scope, "focus"@),
        },
{
    let ProxyOperatorFocusCatalog { state, routes, destinations } = catalog;
    match narrow_records(routes, destinations, scope) {
        Some((routes, destinations)) => Ok(ProxyOperatorFocusCatalog { state, routes, destinations }),
        None => Err(unknown_record(scope, "focus")),
    }
}

/// The lens catalog a scope shows, its state, blockers and overrides kept; or
/// the refusal when the named route or destination has no lens.
pub fn narrow_lens_catalog(catalog: ProxyOperatorLensCatalog, scope: &RecordScope) -> (r: Result<
    ProxyOperatorLensCatalog,
    String,
>)
    ensures
        match narrowed::<ProxyOperatorRouteLens, ProxyOperatorDestinationLens>(
            catalog.routes.deep_view(),
            catalog.destinations.deep_view(),
            *scope,
        ) {
            Some((rs, ds)) => r matches Ok(c) && c.state == catalog.state && c.global_blockers
                == catalog.global_blockers && c.global_overrides == catalog.global_overrides
                && c.routes.deep_view() == rs && c.destinations.deep_view() == ds,
            None => r matches Err(m) && m@ == unknown_record_text(*scope, "lens"@),
        },
{
    let ProxyOperatorLensCatalog { state, global_blockers, global_overrides, routes, destinations } =
        catalog;
    match narrow_records(routes, destinations, scope) {
        Some((routes, destinations)) => Ok(
            ProxyOperatorLensCatalog { state, global_blockers, global_overrides, routes, destinations },
        ),
        None => Err(unknown_record(scope, "lens")),
    }
}

/// The brief catalog a scope shows, its state, blockers, overrides and
/// next steps kept; or the refusal when the named route or destination has no brief.
pub fn narrow_brief_catalog(catalog: ProxyOperatorBriefCatalog, scope: &RecordScope) -> (r: Result<
    ProxyOperatorBriefCatalog,
    String,
>)
    ensures
        match narrowed::<ProxyOperatorRouteBrief, ProxyOperatorDestinationBrief>(
            catalog.routes.deep_view(),
            catalog.destinations.deep_view(),
            *scope,
        ) {
            Some((rs, ds)) => r matches Ok(c) && c.state == catalog.state && c.global_blockers
                == catalog.global_blockers && c.global_overrides == catalog.global_overrides
                && c.global_next_steps == catalog.global_next_steps && c.routes.deep_view() == rs
                && c.destinations.deep_view() == ds,
            None => r matches Err(m) && m@ == unknown_record_text(*scope, "brief"@),
        },
{
    let ProxyOperatorBriefCatalog {
        state,
        global_blockers,
        global_overrides,
        global_next_steps,
        routes,
        destinations,
    } = catalog;
    match narrow_records(routes, destinations, scope) {
        Some((routes, destinations)) => Ok(
            ProxyOperatorBriefCatalog {
                state,
                global_blockers,
                global_overrides,
                global_next_steps,
                routes,
                destinations,
            },
        ),
        None => Err(unknown_record(scope, "brief")),
    }
}

/// The dossier catalog a scope shows, its state, blockers and overrides kept;
/// or the refusal when the named route or destination has no dossier.
pub fn narrow_dossier_catalog(catalog: ProxyOperatorDossierCatalog, scope: &RecordScope) -> (r: Result<
    ProxyOperatorDossierCatalog,
    String,
>)
    ensures
        match narrowed::<ProxyOperatorRouteDossier, ProxyOperatorDestinationDossier>(
            catalog.routes.deep_view(),
            catalog.destinations.deep_view(),
            *scope,
        ) {
            Some((rs, ds)) => r matches Ok(c) && c.state == catalog.state && c.global_blockers
                == catalog.global_blockers && c.global_overrides == catalog.global_overrides
                && c.routes.deep_view() == rs && c.destinations.deep_view() == ds,
            None => r matches Err(m) && m@ == unknown_record_text(*scope, "dossier"@),
        },
{
    let ProxyOperatorDossierCatalog { state, global_blockers, global_overrides, routes, destinations } =
        catalog;
    match narrow_records(routes, destinations, scope) {
        Some((routes, destinations)) => Ok(
            ProxyOperatorDossierCatalog { state, global_blockers, global_overrides, routes, destinations },
        ),
        None => Err(unknown_record(scope, "dossier")),
    }
}


/// The handoff catalog a scope shows, its state kept; or the refusal when the
/// named route or destination has no handoff.
pub fn narrow_handoff_catalog(catalog: ProxyOperatorHandoffCatalog, scope: &RecordScope) -> (r: Result<
    ProxyOperatorHandoffCatalog,
    String,
>)
    ensures
        match narrowed::<ProxyOperatorRouteHandoff, ProxyOperatorDestinationHandoff>(
            catalog.route_handoffs.deep_view(),
            catalog.destination_handoffs.deep_view(),
            *scope,
        ) {
            Some((rs, ds)) => r matches Ok(c) && c.state == catalog.state
                && c.route_handoffs.deep_view() == rs && c.destination_handoffs.deep_view() == ds,
            None => r matches Err(m) && m@ == unknown_record_text(*scope, "handoff"@),
        },
{
    let ProxyOperatorHandoffCatalog { state, route_handoffs, destination_handoffs } = catalog;
    match narrow_records(route_handoffs, destination_handoffs, scope) {
        Some((route_handoffs, destination_handoffs)) => Ok(
            ProxyOperatorHandoffCatalog { state, route_handoffs, destination_handoffs },
        ),
        None => Err(unknown_record(scope, "handoff")),
    }
}

} // verus!
