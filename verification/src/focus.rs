//! Focus packets: for every route and destination detail of a dashboard, the
//! matching trace, timeline, handoff, triage and casebook entries and the
//! board items naming it.
use vstd::prelude::*;

use crate::board::{BoardItemView, ProxyOperatorBoardItem};
use crate::casebook::{CasebookView, ProxyOperatorDestinationCasebook, ProxyOperatorRouteCasebook};
use crate::context::{all_board_items, scoped_board_items, select_items};
use crate::dashboard::ProxyOperatorDashboard;
use crate::details::{
    DestinationDetailView, ProxyOperatorDestinationDetail, ProxyOperatorRouteDetail, RouteDetailView,
};
use crate::handoff::{HandoffView, ProxyOperatorDestinationHandoff, ProxyOperatorRouteHandoff};
use crate::policy::state_label;
use crate::policy::state_label_of;
use crate::trace::{
    ProxyOperatorDestinationTimeline, ProxyOperatorDestinationTrace, ProxyOperatorDestinationTriage,
    ProxyOperatorRouteTimeline, ProxyOperatorRouteTrace, ProxyOperatorRouteTriage, TimelineView,
    TraceView, TriageView,
};
use crate::values::{copy_by_id, duplicate_all, find_by_id, push_value, Identified, OperatorValue};

verus! {

/// What the operator focuses on for one route.
#[derive(Clone, Debug)]
pub struct ProxyOperatorRouteFocusPacket {
    pub route_id: String,
    pub detail: ProxyOperatorRouteDetail,
    pub trace: Option<ProxyOperatorRouteTrace>,
    pub timeline: Option<ProxyOperatorRouteTimeline>,
    pub handoff: Option<ProxyOperatorRouteHandoff>,
    pub triage: Option<ProxyOperatorRouteTriage>,
    pub casebook: Option<ProxyOperatorRouteCasebook>,
    pub board_items: Vec<ProxyOperatorBoardItem>,
}

/// What the operator focuses on for one destination.
#[derive(Clone, Debug)]
pub struct ProxyOperatorDestinationFocusPacket {
    pub destination_id: String,
    pub detail: ProxyOperatorDestinationDetail,
    pub trace: Option<ProxyOperatorDestinationTrace>,
    pub timeline: Option<ProxyOperatorDestinationTimeline>,
    pub handoff: Option<ProxyOperatorDestinationHandoff>,
    pub triage: Option<ProxyOperatorDestinationTriage>,
    pub casebook: Option<ProxyOperatorDestinationCasebook>,
    pub board_items: Vec<ProxyOperatorBoardItem>,
}

/// Focus packets of every route and destination detail.
#[derive(Clone, Debug, Default)]
pub struct ProxyOperatorFocusCatalog {
    pub state: String,
    pub routes: Vec<ProxyOperatorRouteFocusPacket>,
    pub destinations: Vec<ProxyOperatorDestinationFocusPacket>,
}

/// The contents of a route focus packet.
pub struct RouteFocusView {
    pub route_id: Seq<char>,
    pub detail: RouteDetailView,
    pub trace: Option<TraceView>,
    pub timeline: Option<TimelineView>,
    pub handoff: Option<HandoffView>,
    pub triage: Option<TriageView>,
    pub casebook: Option<CasebookView>,
    pub board_items: Seq<BoardItemView>,
}

/// The contents of a destination focus packet.
pub struct DestinationFocusView {
    pub destination_id: Seq<char>,
    pub detail: DestinationDetailView,
    pub trace: Option<TraceView>,
    pub timeline: Option<TimelineView>,
    pub handoff: Option<HandoffView>,
    pub triage: Option<TriageView>,
    pub casebook: Option<CasebookView>,
    pub board_items: Seq<BoardItemView>,
}

impl DeepView for ProxyOperatorRouteFocusPacket {
    type V = RouteFocusView;

    open spec fn deep_view(&self) -> RouteFocusView {
        RouteFocusView {
            route_id: self.route_id@,
            detail: self.detail.deep_view(),
            trace: self.trace.deep_view(),
            timeline: self.timeline.deep_view(),
            handoff: self.handoff.deep_view(),
            triage: self.triage.deep_view(),
            casebook: self.casebook.deep_view(),
            board_items: self.board_items.deep_view(),
        }
    }
}

impl DeepView for ProxyOperatorDestinationFocusPacket {
    type V = DestinationFocusView;

    open spec fn deep_view(&self) -> DestinationFocusView {
        DestinationFocusView {
            destination_id: self.destination_id@,
            detail: self.detail.deep_view(),
            trace: self.trace.deep_view(),
            timeline: self.timeline.deep_view(),
            handoff: self.handoff.deep_view(),
            triage: self.triage.deep_view(),
            casebook: self.casebook.deep_view(),
            board_items: self.board_items.deep_view(),
        }
    }
}

impl Identified for ProxyOperatorRouteFocusPacket {
    open spec fn id_of(v: RouteFocusView) -> Seq<char> {
        v.route_id
    }

    fn id_text(&self) -> (r: &str) {
        self.route_id.as_str()
    }
}

impl Identified for ProxyOperatorDestinationFocusPacket {
    open spec fn id_of(v: DestinationFocusView) -> Seq<char> {
        v.destination_id
    }

    fn id_text(&self) -> (r: &str) {
        self.destination_id.as_str()
    }
}

impl OperatorValue for ProxyOperatorRouteFocusPacket {
    fn duplicate(&self) -> (r: Self) {
        ProxyOperatorRouteFocusPacket {
            route_id: self.route_id.duplicate(),
            detail: self.detail.duplicate(),
            trace: self.trace.duplicate(),
            timeline: self.timeline.duplicate(),
            handoff: self.handoff.duplicate(),
            triage: self.triage.duplicate(),
            casebook: self.casebook.duplicate(),
            board_items: duplicate_all(&self.board_items),
        }
    }

    fn same_value(&self, other: &Self) -> (r: bool) {
        self.route_id.same_value(&other.route_id) && self.detail.same_value(&other.detail)
            && self.trace.same_value(&other.trace) && self.timeline.same_value(&other.timeline)
            && self.handoff.same_value(&other.handoff) && self.triage.same_value(&other.triage)
            && self.casebook.same_value(&other.casebook) && self.board_items.same_value(
            &other.board_items,
        )
    }
}

impl OperatorValue for ProxyOperatorDestinationFocusPacket {
    fn duplicate(&self) -> (r: Self) {
        ProxyOperatorDestinationFocusPacket {
            destination_id: self.destination_id.duplicate(),
            detail: self.detail.duplicate(),
            trace: self.trace.duplicate(),
            timeline: self.timeline.duplicate(),
            handoff: self.handoff.duplicate(),
            triage: self.triage.duplicate(),
            casebook: self.casebook.duplicate(),
            board_items: duplicate_all(&self.board_items),
        }
    }

    fn same_value(&self, other: &Self) -> (r: bool) {
        self.destination_id.same_value(&other.destination_id) && self.detail.same_value(
            &other.detail,
        ) && self.trace.same_value(&other.trace) && self.timeline.same_value(&other.timeline)
            && self.handoff.same_value(&other.handoff) && self.triage.same_value(&other.triage)
            && self.casebook.same_value(&other.casebook) && self.board_items.same_value(
            &other.board_items,
        )
    }
}

/// The focus packet of a route detail.
pub open spec fn route_focus_view(dashboard: ProxyOperatorDashboard, d: RouteDetailView) -> RouteFocusView {
    let snapshot = dashboard.snapshot;
    RouteFocusView {
        route_id: d.route_id,
        detail: d,
        trace: find_by_id::<ProxyOperatorRouteTrace>(dashboard.trace.routes.deep_view(), d.route_id),
        timeline: find_by_id::<ProxyOperatorRouteTimeline>(
            dashboard.timeline_catalog.routes.deep_view(),
            d.route_id,
        ),
        handoff: find_by_id::<ProxyOperatorRouteHandoff>(
            snapshot.handoff.route_handoffs.deep_view(),
            d.route_id,
        ),
        triage: find_by_id::<ProxyOperatorRouteTriage>(
            snapshot.triage.route_triage.deep_view(),
            d.route_id,
        ),
        casebook: find_by_id::<ProxyOperatorRouteCasebook>(
            snapshot.casebook.route_casebooks.deep_view(),
            d.route_id,
        ),
        board_items: select_items(all_board_items(snapshot), d.route_id, true, false),
    }
}

/// The focus packet of a destination detail.
pub open spec fn destination_focus_view(dashboard: ProxyOperatorDashboard, d: DestinationDetailView) -> DestinationFocusView {
    let snapshot = dashboard.snapshot;
    DestinationFocusView {
        destination_id: d.destination_id,
        detail: d,
        trace: find_by_id::<ProxyOperatorDestinationTrace>(
            dashboard.trace.destinations.deep_view(),
            d.destination_id,
        ),
        timeline: find_by_id::<ProxyOperatorDestinationTimeline>(
            dashboard.timeline_catalog.destinations.deep_view(),
            d.destination_id,
        ),
        handoff: find_by_id::<ProxyOperatorDestinationHandoff>(
            snapshot.handoff.destination_handoffs.deep_view(),
            d.destination_id,
        ),
        triage: find_by_id::<ProxyOperatorDestinationTriage>(
            snapshot.triage.destination_triage.deep_view(),
            d.destination_id,
        ),
        casebook: find_by_id::<ProxyOperatorDestinationCasebook>(
            snapshot.casebook.destination_casebooks.deep_view(),
            d.destination_id,
        ),
        board_items: select_items(all_board_items(snapshot), d.destination_id, false, false),
    }
}

fn route_focus(dashboard: &ProxyOperatorDashboard, detail: &ProxyOperatorRouteDetail) -> (r:
    ProxyOperatorRouteFocusPacket)
    ensures
        r.deep_view() == route_focus_view(*dashboard, detail.deep_view()),
{
    let snapshot = &dashboard.snapshot;
    let id = detail.route_id.as_str();
    ProxyOperatorRouteFocusPacket {
        route_id: detail.route_id.duplicate(),
        trace: copy_by_id(&dashboard.trace.routes, id),
        timeline: copy_by_id(&dashboard.timeline_catalog.routes, id),
        handoff: copy_by_id(&snapshot.handoff.route_handoffs, id),
        triage: copy_by_id(&snapshot.triage.route_triage, id),
        casebook: copy_by_id(&snapshot.casebook.route_casebooks, id),
        board_items: scoped_board_items(snapshot, id, true, false),
        detail: detail.duplicate(),
    }
}

fn destination_focus(dashboard: &ProxyOperatorDashboard, detail: &ProxyOperatorDestinationDetail) -> (r:
    ProxyOperatorDestinationFocusPacket)
    ensures
        r.deep_view() == destination_focus_view(*dashboard, detail.deep_view()),
{
    let snapshot = &dashboard.snapshot;
    let id = detail.destination_id.as_str();
    ProxyOperatorDestinationFocusPacket {
        destination_id: detail.destination_id.duplicate(),
        trace: copy_by_id(&dashboard.trace.destinations, id),
        timeline: copy_by_id(&dashboard.timeline_catalog.destinations, id),
        handoff: copy_by_id(&snapshot.handoff.destination_handoffs, id),
        triage: copy_by_id(&snapshot.triage.destination_triage, id),
        casebook: copy_by_id(&snapshot.casebook.destination_casebooks, id),
        board_items: scoped_board_items(snapshot, id, false, false),
        detail: detail.duplicate(),
    }
}

/// Builds a focus packet for every route and destination detail of a
/// dashboard, in detail order, under the label of the report state.
pub fn proxy_operator_focus_from_dashboard(dashboard: &ProxyOperatorDashboard) -> (r:
    ProxyOperatorFocusCatalog)
    ensures
        r.state@ == state_label_of(dashboard.snapshot.overview.report.state),
        r.routes.deep_view() == dashboard.route_details.deep_view().map_values(
            |d: RouteDetailView| route_focus_view(*dashboard, d),
        ),
        r.destinations.deep_view() == dashboard.destination_details.deep_view().map_values(
            |d: DestinationDetailView| destination_focus_view(*dashboard, d),
        ),
{
    let ghost rd = dashboard.route_details.deep_view();
    let ghost dd = dashboard.destination_details.deep_view();
    let mut routes: Vec<ProxyOperatorRouteFocusPacket> = Vec::new();
    let mut i: usize = 0;
    while i < dashboard.route_details.len()
        invariant
            i <= dashboard.route_details@.len(),
            rd == dashboard.route_details.deep_view(),
            routes.deep_view() == rd.subrange(0, i as int).map_values(
                |d: RouteDetailView| route_focus_view(*dashboard, d),
            ),
        decreases dashboard.route_details@.len() - i,
    {
        assert(rd[i as int] == dashboard.route_details@[i as int].deep_view());
        push_value(&mut routes, route_focus(dashboard, &dashboard.route_details[i]));
        assert(routes.deep_view() =~= rd.subrange(0, i + 1).map_values(
            |d: RouteDetailView| route_focus_view(*dashboard, d),
        ));
        i = i + 1;
    }
    assert(rd.subrange(0, i as int) =~= rd);
    let mut destinations: Vec<ProxyOperatorDestinationFocusPacket> = Vec::new();
    let mut k: usize = 0;
    while k < dashboard.destination_details.len()
        invariant
            k <= dashboard.destination_details@.len(),
            dd == dashboard.destination_details.deep_view(),
            destinations.deep_view() == dd.subrange(0, k as int).map_values(
                |d: DestinationDetailView| destination_focus_view(*dashboard, d),
            ),
        decreases dashboard.destination_details@.len() - k,
    {
        assert(dd[k as int] == dashboard.destination_details@[k as int].deep_view());
        push_value(&mut destinations, destination_focus(dashboard, &dashboard.destination_details[k]));
        assert(destinations.deep_view() =~= dd.subrange(0, k + 1).map_values(
            |d: DestinationDetailView| destination_focus_view(*dashboard, d),
        ));
        k = k + 1;
    }
    assert(dd.subrange(0, k as int) =~= dd);
    ProxyOperatorFocusCatalog {
        state: state_label(dashboard.snapshot.overview.report.state),
        routes,
        destinations,
    }
}

} // verus!
