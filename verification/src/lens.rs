//! Lenses: every focus packet of a dashboard with the broker-wide context,
//! the blockers, incidents, work items and board items of its route or
//! destination.
use vstd::prelude::*;

use crate::board::{BoardItemView, ProxyOperatorBoardItem};
use crate::casebook::incident_titles_view;
use crate::context::{
    all_board_items, destination_board_items, destination_incident_titles, destination_work_items,
    global_blockers_view, global_overrides_view, route_board_items, route_incident_titles,
    route_work_items, scoped_blockers_view, scoped_destination_blockers, scoped_route_blockers,
    scoped_work_items, select_items, snapshot_context,
};
use crate::dashboard::ProxyOperatorDashboard;
use crate::focus::{
    DestinationFocusView, ProxyOperatorDestinationFocusPacket, ProxyOperatorRouteFocusPacket,
    RouteFocusView,
};
use crate::policy::{state_label, state_label_of};
use crate::snapshot::{ProxyOperatorSnapshot, ProxyOperatorWorkItem, WorkItemView};
use crate::values::{duplicate_all, push_value, Identified, OperatorValue};

verus! {

/// The lens on one route.
#[derive(Clone, Debug)]
pub struct ProxyOperatorRouteLens {
    pub route_id: String,
    pub focus: ProxyOperatorRouteFocusPacket,
    pub global_blockers: Vec<String>,
    pub scoped_blockers: Vec<String>,
    pub global_overrides: Vec<String>,
    pub incident_titles: Vec<String>,
    pub work_items: Vec<ProxyOperatorWorkItem>,
    pub board_items: Vec<ProxyOperatorBoardItem>,
}

/// The lens on one destination.
#[derive(Clone, Debug)]
pub struct ProxyOperatorDestinationLens {
    pub destination_id: String,
    pub focus: ProxyOperatorDestinationFocusPacket,
    pub global_blockers: Vec<String>,
    pub scoped_blockers: Vec<String>,
    pub global_overrides: Vec<String>,
    pub incident_titles: Vec<String>,
    pub work_items: Vec<ProxyOperatorWorkItem>,
    pub board_items: Vec<ProxyOperatorBoardItem>,
}

/// Lenses on every focused route and destination.
#[derive(Clone, Debug, Default)]
pub struct ProxyOperatorLensCatalog {
    pub state: String,
    pub global_blockers: Vec<String>,
    pub global_overrides: Vec<String>,
    pub routes: Vec<ProxyOperatorRouteLens>,
    pub destinations: Vec<ProxyOperatorDestinationLens>,
}

/// The contents of a route lens.
pub struct RouteLensView {
    pub route_id: Seq<char>,
    pub focus: RouteFocusView,
    pub global_blockers: Seq<Seq<char>>,
    pub scoped_blockers: Seq<Seq<char>>,
    pub global_overrides: Seq<Seq<char>>,
    pub incident_titles: Seq<Seq<char>>,
    pub work_items: Seq<WorkItemView>,
    pub board_items: Seq<BoardItemView>,
}

/// The contents of a destination lens.
pub struct DestinationLensView {
    pub destination_id: Seq<char>,
    pub focus: DestinationFocusView,
    pub global_blockers: Seq<Seq<char>>,
    pub scoped_blockers: Seq<Seq<char>>,
    pub global_overrides: Seq<Seq<char>>,
    pub incident_titles: Seq<Seq<char>>,
    pub work_items: Seq<WorkItemView>,
    pub board_items: Seq<BoardItemView>,
}

impl DeepView for ProxyOperatorRouteLens {
    type V = RouteLensView;

    open spec fn deep_view(&self) -> RouteLensView {
        RouteLensView {
            route_id: self.route_id@,
            focus: self.focus.deep_view(),
            global_blockers: self.global_blockers.deep_view(),
            scoped_blockers: self.scoped_blockers.deep_view(),
            global_overrides: self.global_overrides.deep_view(),
            incident_titles: self.incident_titles.deep_view(),
            work_items: self.work_items.deep_view(),
            board_items: self.board_items.deep_view(),
        }
    }
}

impl DeepView for ProxyOperatorDestinationLens {
    type V = DestinationLensView;

    open spec fn deep_view(&self) -> DestinationLensView {
        DestinationLensView {
            destination_id: self.destination_id@,
            focus: self.focus.deep_view(),
            global_blockers: self.global_blockers.deep_view(),
            scoped_blockers: self.scoped_blockers.deep_view(),
            global_overrides: self.global_overrides.deep_view(),
            incident_titles: self.incident_titles.deep_view(),
            work_items: self.work_items.deep_view(),
            board_items: self.board_items.deep_view(),
        }
    }
}

impl Identified for ProxyOperatorRouteLens {
    open spec fn id_of(v: RouteLensView) -> Seq<char> {
        v.route_id
    }

    fn id_text(&self) -> (r: &str) {
        self.route_id.as_str()
    }
}

impl Identified for ProxyOperatorDestinationLens {
    open spec fn id_of(v: DestinationLensView) -> Seq<char> {
        v.destination_id
    }

    fn id_text(&self) -> (r: &str) {
        self.destination_id.as_str()
    }
}

impl OperatorValue for ProxyOperatorRouteLens {
    fn duplicate(&self) -> (r: Self) {
        ProxyOperatorRouteLens {
            route_id: self.route_id.duplicate(),
            focus: self.focus.duplicate(),
            global_blockers: duplicate_all(&self.global_blockers),
            scoped_blockers: duplicate_all(&self.scoped_blockers),
            global_overrides: duplicate_all(&self.global_overrides),
            incident_titles: duplicate_all(&self.incident_titles),
            work_items: duplicate_all(&self.work_items),
            board_items: duplicate_all(&self.board_items),
        }
    }

    fn same_value(&self, other: &Self) -> (r: bool) {
        self.route_id.same_value(&other.route_id) && self.focus.same_value(&other.focus)
            && self.global_blockers.same_value(&other.global_blockers)
            && self.scoped_blockers.same_value(&other.scoped_blockers)
            && self.global_overrides.same_value(&other.global_overrides)
            && self.incident_titles.same_value(&other.incident_titles) && self.work_items.same_value(
            &other.work_items,
        ) && self.board_items.same_value(&other.board_items)
    }
}

impl OperatorValue for ProxyOperatorDestinationLens {
    fn duplicate(&self) -> (r: Self) {
        ProxyOperatorDestinationLens {
            destination_id: self.destination_id.duplicate(),
            focus: self.focus.duplicate(),
            global_blockers: duplicate_all(&self.global_blockers),
            scoped_blockers: duplicate_all(&self.scoped_blockers),
            global_overrides: duplicate_all(&self.global_overrides),
            incident_titles: duplicate_all(&self.incident_titles),
            work_items: duplicate_all(&self.work_items),
            board_items: duplicate_all(&self.board_items),
        }
    }

    fn same_value(&self, other: &Self) -> (r: bool) {
        self.destination_id.same_value(&other.destination_id) && self.focus.same_value(&other.focus)
            && self.global_blockers.same_value(&other.global_blockers)
            && self.scoped_blockers.same_value(&other.scoped_blockers)
            && self.global_overrides.same_value(&other.global_overrides)
            && self.incident_titles.same_value(&other.incident_titles) && self.work_items.same_value(
            &other.work_items,
        ) && self.board_items.same_value(&other.board_items)
    }
}

/// The lens on a focused route.
pub open spec fn route_lens_view(snapshot: ProxyOperatorSnapshot, f: RouteFocusView) -> RouteLensView {
    RouteLensView {
        route_id: f.route_id,
        focus: f,
        global_blockers: global_blockers_view(snapshot),
        scoped_blockers: scoped_blockers_view(snapshot, f.route_id, true),
        global_overrides: global_overrides_view(snapshot),
        incident_titles: incident_titles_view(
            snapshot.incident_digest.clusters.deep_view(),
            f.route_id,
            true,
        ),
        work_items: scoped_work_items(snapshot.worklist.items.deep_view(), f.route_id, true),
        board_items: select_items(all_board_items(snapshot), f.route_id, true, true),
    }
}

/// The lens on a focused destination.
pub open spec fn destination_lens_view(snapshot: ProxyOperatorSnapshot, f: DestinationFocusView) -> DestinationLensView {
    DestinationLensView {
        destination_id: f.destination_id,
        focus: f,
        global_blockers: global_blockers_view(snapshot),
        scoped_blockers: scoped_blockers_view(snapshot, f.destination_id, false),
        global_overrides: global_overrides_view(snapshot),
        incident_titles: incident_titles_view(
            snapshot.incident_digest.clusters.deep_view(),
            f.destination_id,
            false,
        ),
        work_items: scoped_work_items(snapshot.worklist.items.deep_view(), f.destination_id, false),
        board_items: select_items(all_board_items(snapshot), f.destination_id, false, true),
    }
}

/// Builds a lens on every focused route and destination of a dashboard, in
/// focus order, with the broker-wide blockers and overrides.
pub fn proxy_operator_lens_from_dashboard(dashboard: &ProxyOperatorDashboard) -> (r:
    ProxyOperatorLensCatalog)
    ensures
        r.state@ == state_label_of(dashboard.snapshot.overview.report.state),
        r.global_blockers.deep_view() == global_blockers_view(dashboard.snapshot),
        r.global_overrides.deep_view() == global_overrides_view(dashboard.snapshot),
        r.routes.deep_view() == dashboard.focus.routes.deep_view().map_values(
            |f: RouteFocusView| route_lens_view(dashboard.snapshot, f),
        ),
        r.destinations.deep_view() == dashboard.focus.destinations.deep_view().map_values(
            |f: DestinationFocusView| destination_lens_view(dashboard.snapshot, f),
        ),
{
    let snapshot = &dashboard.snapshot;
    let context = snapshot_context(snapshot);
    let ghost rf = dashboard.focus.routes.deep_view();
    let ghost df = dashboard.focus.destinations.deep_view();
    let mut routes: Vec<ProxyOperatorRouteLens> = Vec::new();
    let mut i: usize = 0;
    while i < dashboard.focus.routes.len()
        invariant
            i <= dashboard.focus.routes@.len(),
            snapshot == &dashboard.snapshot,
            rf == dashboard.focus.routes.deep_view(),
            context.global_blockers.deep_view() == global_blockers_view(dashboard.snapshot),
            context.global_overrides.deep_view() == global_overrides_view(dashboard.snapshot),
            routes.deep_view() == rf.subrange(0, i as int).map_values(
                |f: RouteFocusView| route_lens_view(dashboard.snapshot, f),
            ),
        decreases dashboard.focus.routes@.len() - i,
    {
        let focus = &dashboard.focus.routes[i];
        assert(rf[i as int] == focus.deep_view());
        let id = focus.route_id.as_str();
        let lens = ProxyOperatorRouteLens {
            route_id: focus.route_id.duplicate(),
            incident_titles: route_incident_titles(snapshot, id),
            work_items: route_work_items(snapshot, id),
            board_items: route_board_items(snapshot, id),
            global_blockers: duplicate_all(&context.global_blockers),
            scoped_blockers: scoped_route_blockers(snapshot, id),
            global_overrides: duplicate_all(&context.global_overrides),
            focus: focus.duplicate(),
        };
        push_value(&mut routes, lens);
        assert(routes.deep_view() =~= rf.subrange(0, i + 1).map_values(
            |f: RouteFocusView| route_lens_view(dashboard.snapshot, f),
        ));
        i = i + 1;
    }
    assert(rf.subrange(0, i as int) =~= rf);
    let mut destinations: Vec<ProxyOperatorDestinationLens> = Vec::new();
    let mut k: usize = 0;
    while k < dashboard.focus.destinations.len()
        invariant
            k <= dashboard.focus.destinations@.len(),
            snapshot == &dashboard.snapshot,
            df == dashboard.focus.destinations.deep_view(),
            context.global_blockers.deep_view() == global_blockers_view(dashboard.snapshot),
            context.global_overrides.deep_view() == global_overrides_view(dashboard.snapshot),
            destinations.deep_view() == df.subrange(0, k as int).map_values(
                |f: DestinationFocusView| destination_lens_view(dashboard.snapshot, f),
            ),
        decreases dashboard.focus.destinations@.len() - k,
    {
        let focus = &dashboard.focus.destinations[k];
        assert(df[k as int] == focus.deep_view());
        let id = focus.destination_id.as_str();
        let lens = ProxyOperatorDestinationLens {
            destination_id: focus.destination_id.duplicate(),
            incident_titles: destination_incident_titles(snapshot, id),
            work_items: destination_work_items(snapshot, id),
            board_items: destination_board_items(snapshot, id),
            global_blockers: duplicate_all(&context.global_blockers),
            scoped_blockers: scoped_destination_blockers(snapshot, id),
            global_overrides: duplicate_all(&context.global_overrides),
            focus: focus.duplicate(),
        };
        push_value(&mut destinations, lens);
        assert(destinations.deep_view() =~= df.subrange(0, k + 1).map_values(
            |f: DestinationFocusView| destination_lens_view(dashboard.snapshot, f),
        ));
        k = k + 1;
    }
    assert(df.subrange(0, k as int) =~= df);
    ProxyOperatorLensCatalog {
        state: state_label(snapshot.overview.report.state),
        global_blockers: context.global_blockers,
        global_overrides: context.global_overrides,
        routes,
        destinations,
    }
}

} // verus!
