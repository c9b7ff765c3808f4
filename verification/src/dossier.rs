//! Dossiers: for every focus packet of a dashboard, what the operator knows
//! of its route or destination in one record: the broker-wide context, its
//! blockers, incidents, work and board items, and its brief and lens when
//! the dashboard holds them.
use vstd::prelude::*;

use crate::board::{BoardItemView, ProxyOperatorBoardItem};
use crate::brief::{
    destination_detail_summary, destination_figures_summary, route_detail_summary,
    route_figures_summary, DestinationBriefView, ProxyOperatorDestinationBrief,
    ProxyOperatorRouteBrief, RouteBriefView,
};
use crate::casebook::incident_titles_view;
use crate::context::{
    all_board_items, destination_board_items, destination_incident_titles, destination_work_items,
    global_blockers_view, global_overrides_view, route_board_items, route_incident_titles,
    route_work_items, scoped_blockers_view, scoped_destination_blockers, scoped_route_blockers,
    scoped_work_items, select_items, snapshot_context,
};
use crate::dashboard::ProxyOperatorDashboard;
use crate::focus::{
    DestinationFocusView, ProxyOperatorDestinationFocusPacket, ProxyOperatorRouteFocusPacket,
    RouteFocusView,
};
use crate::lens::{
    DestinationLensView, ProxyOperatorDestinationLens, ProxyOperatorRouteLens, RouteLensView,
};
use crate::model::{ProxyOperatorSuggestedAction, SuggestedActionView};
use crate::policy::{state_label, state_label_of};
use crate::snapshot::{ProxyOperatorSnapshot, ProxyOperatorWorkItem, WorkItemView};
use crate::values::{copy_by_id, duplicate_all, find_by_id, push_value, Identified, OperatorValue};

verus! {

/// The dossier of one route.
#[derive(Clone, Debug)]
pub struct ProxyOperatorRouteDossier {
    pub route_id: String,
    pub state: String,
    pub summary: String,
    pub global_blockers: Vec<String>,
    pub scoped_blockers: Vec<String>,
    pub global_overrides: Vec<String>,
    pub incident_titles: Vec<String>,
    pub headline_timeline: Vec<String>,
    pub next_steps: Vec<String>,
    pub recommended_actions: Vec<ProxyOperatorSuggestedAction>,
    pub work_items: Vec<ProxyOperatorWorkItem>,
    pub board_items: Vec<ProxyOperatorBoardItem>,
    pub focus: ProxyOperatorRouteFocusPacket,
    pub brief: Option<ProxyOperatorRouteBrief>,
    pub lens: Option<ProxyOperatorRouteLens>,
}

/// The dossier of one destination.
#[derive(Clone, Debug)]
pub struct ProxyOperatorDestinationDossier {
    pub destination_id: String,
    pub state: String,
    pub summary: String,
    pub global_blockers: Vec<String>,
    pub scoped_blockers: Vec<String>,
    pub global_overrides: Vec<String>,
    pub incident_titles: Vec<String>,
    pub headline_timeline: Vec<String>,
    pub next_steps: Vec<String>,
    pub recommended_actions: Vec<ProxyOperatorSuggestedAction>,
    pub work_items: Vec<ProxyOperatorWorkItem>,
    pub board_items: Vec<ProxyOperatorBoardItem>,
    pub focus: ProxyOperatorDestinationFocusPacket,
    pub brief: Option<ProxyOperatorDestinationBrief>,
    pub lens: Option<ProxyOperatorDestinationLens>,
}

/// Dossiers of every focused route and destination.
#[derive(Clone, Debug, Default)]
pub struct ProxyOperatorDossierCatalog {
    pub state: String,
    pub global_blockers: Vec<String>,
    pub global_overrides: Vec<String>,
    pub routes: Vec<ProxyOperatorRouteDossier>,
    pub destinations: Vec<ProxyOperatorDestinationDossier>,
}

/// The contents of a route dossier.
pub struct RouteDossierView {
    pub route_id: Seq<char>,
    pub state: Seq<char>,
    pub summary: Seq<char>,
    pub global_blockers: Seq<Seq<char>>,
    pub scoped_blockers: Seq<Seq<char>>,
    pub global_overrides: Seq<Seq<char>>,
    pub incident_titles: Seq<Seq<char>>,
    pub headline_timeline: Seq<Seq<char>>,
    pub next_steps: Seq<Seq<char>>,
    pub recommended_actions: Seq<SuggestedActionView>,
    pub work_items: Seq<WorkItemView>,
    pub board_items: Seq<BoardItemView>,
    pub focus: RouteFocusView,
    pub brief: Option<RouteBriefView>,
    pub lens: Option<RouteLensView>,
}

/// The contents of a destination dossier.
pub struct DestinationDossierView {
    pub destination_id: Seq<char>,
    pub state: Seq<char>,
    pub summary: Seq<char>,
    pub global_blockers: Seq<Seq<char>>,
    pub scoped_blockers: Seq<Seq<char>>,
    pub global_overrides: Seq<Seq<char>>,
    pub incident_titles: Seq<Seq<char>>,
    pub headline_timeline: Seq<Seq<char>>,
    pub next_steps: Seq<Seq<char>>,
    pub recommended_actions: Seq<SuggestedActionView>,
    pub work_items: Seq<WorkItemView>,
    pub board_items: Seq<BoardItemView>,
    pub focus: DestinationFocusView,
    pub brief: Option<DestinationBriefView>,
    pub lens: Option<DestinationLensView>,
}

impl DeepView for ProxyOperatorRouteDossier {
    type V = RouteDossierView;

    open spec fn deep_view(&self) -> RouteDossierView {
        RouteDossierView {
            route_id: self.route_id@,
            state: self.state@,
            summary: self.summary@,
            global_blockers: self.global_blockers.deep_view(),
            scoped_blockers: self.scoped_blockers.deep_view(),
            global_overrides: self.global_overrides.deep_view(),
            incident_titles: self.incident_titles.deep_view(),
            headline_timeline: self.headline_timeline.deep_view(),
            next_steps: self.next_steps.deep_view(),
            recommended_actions: self.recommended_actions.deep_view(),
            work_items: self.work_items.deep_view(),
            board_items: self.board_items.deep_view(),
            focus: self.focus.deep_view(),
            brief: self.brief.deep_view(),
            lens: self.lens.deep_view(),
        }
    }
}

impl DeepView for ProxyOperatorDestinationDossier {
    type V = DestinationDossierView;

    open spec fn deep_view(&self) -> DestinationDossierView {
        DestinationDossierView {
            destination_id: self.destination_id@,
            state: self.state@,
            summary: self.summary@,
            global_blockers: self.global_blockers.deep_view(),
            scoped_blockers: self.scoped_blockers.deep_view(),
            global_overrides: self.global_overrides.deep_view(),
            incident_titles: self.incident_titles.deep_view(),
            headline_timeline: self.headline_timeline.deep_view(),
            next_steps: self.next_steps.deep_view(),
            recommended_actions: self.recommended_actions.deep_view(),
            work_items: self.work_items.deep_view(),
            board_items: self.board_items.deep_view(),
            focus: self.focus.deep_view(),
            brief: self.brief.deep_view(),
            lens: self.lens.deep_view(),
        }
    }
}

impl Identified for ProxyOperatorRouteDossier {
    open spec fn id_of(v: RouteDossierView) -> Seq<char> {
        v.route_id
    }

    fn id_text(&self) -> (r: &str) {
        self.route_id.as_str()
    }
}

impl Identified for ProxyOperatorDestinationDossier {
    open spec fn id_of(v: DestinationDossierView) -> Seq<char> {
        v.destination_id
    }

    fn id_text(&self) -> (r: &str) {
        self.destination_id.as_str()
    }
}

impl OperatorValue for ProxyOperatorRouteDossier {
    fn duplicate(&self) -> (r: Self) {
        ProxyOperatorRouteDossier {
            route_id: self.route_id.duplicate(),
            state: self.state.duplicate(),
            summary: self.summary.duplicate(),
            global_blockers: duplicate_all(&self.global_blockers),
            scoped_blockers: duplicate_all(&self.scoped_blockers),
            global_overrides: duplicate_all(&self.global_overrides),
            incident_titles: duplicate_all(&self.incident_titles),
            headline_timeline: duplicate_all(&self.headline_timeline),
            next_steps: duplicate_all(&self.next_steps),
            recommended_actions: duplicate_all(&self.recommended_actions),
            work_items: duplicate_all(&self.work_items),
            board_items: duplicate_all(&self.board_items),
            focus: self.focus.duplicate(),
            brief: self.brief.duplicate(),
            lens: self.lens.duplicate(),
        }
    }

    fn same_value(&self, other: &Self) -> (r: bool) {
        self.route_id.same_value(&other.route_id) && self.state.same_value(&other.state)
            && self.summary.same_value(&other.summary) && self.global_blockers.same_value(
            &other.global_blockers,
        ) && self.scoped_blockers.same_value(&other.scoped_blockers)
            && self.global_overrides.same_value(&other.global_overrides)
            && self.incident_titles.same_value(&other.incident_titles)
            && self.headline_timeline.same_value(&other.headline_timeline)
            && self.next_steps.same_value(&other.next_steps) && self.recommended_actions.same_value(
            &other.recommended_actions,
        ) && self.work_items.same_value(&other.work_items) && self.board_items.same_value(
            &other.board_items,
        ) && self.focus.same_value(&other.focus) && self.brief.same_value(&other.brief)
            && self.lens.same_value(&other.lens)
    }
}

impl OperatorValue for ProxyOperatorDestinationDossier {
    fn duplicate(&self) -> (r: Self) {
        ProxyOperatorDestinationDossier {
            destination_id: self.destination_id.duplicate(),
            state: self.state.duplicate(),
            summary: self.summary.duplicate(),
            global_blockers: duplicate_all(&self.global_blockers),
            scoped_blockers: duplicate_all(&self.scoped_blockers),
            global_overrides: duplicate_all(&self.global_overrides),
            incident_titles: duplicate_all(&self.incident_titles),
            headline_timeline: duplicate_all(&self.headline_timeline),
            next_steps: duplicate_all(&self.next_steps),
            recommended_actions: duplicate_all(&self.recommended_actions),
            work_items: duplicate_all(&self.work_items),
            board_items: duplicate_all(&self.board_items),
            focus: self.focus.duplicate(),
            brief: self.brief.duplicate(),
            lens: self.lens.duplicate(),
        }
    }

    fn same_value(&self, other: &Self) -> (r: bool) {
        self.destination_id.same_value(&other.destination_id) && self.state.same_value(
            &other.state,
        ) && self.summary.same_value(&other.summary) && self.global_blockers.same_value(
            &other.global_blockers,
        ) && self.scoped_blockers.same_value(&other.scoped_blockers)
            && self.global_overrides.same_value(&other.global_overrides)
            && self.incident_titles.same_value(&other.incident_titles)
            && self.headline_timeline.same_value(&other.headline_timeline)
            && self.next_steps.same_value(&other.next_steps) && self.recommended_actions.same_value(
            &other.recommended_actions,
        ) && self.work_items.same_value(&other.work_items) && self.board_items.same_value(
            &other.board_items,
        ) && self.focus.same_value(&other.focus) && self.brief.same_value(&other.brief)
            && self.lens.same_value(&other.lens)
    }
}

/// The dossier of a focused route, given the dashboard's briefs and lenses.
pub open spec fn route_dossier_view(
    snapshot: ProxyOperatorSnapshot,
    briefs: Seq<RouteBriefView>,
    lenses: Seq<RouteLensView>,
    f: RouteFocusView,
) -> RouteDossierView {
    let id = f.route_id;
    let brief = find_by_id::<ProxyOperatorRouteBrief>(briefs, id);
    RouteDossierView {
        route_id: id,
        state: state_label_of(snapshot.overview.report.state),
        summary: match brief {
            Some(b) => b.summary,
            None => route_detail_summary(
                f.detail.destination_ids.len(),
                f.detail.warnings.len(),
                f.detail.direct_udp_fallback_available,
            ),
        },
        global_blockers: global_blockers_view(snapshot),
        scoped_blockers: scoped_blockers_view(snapshot, id, true),
        global_overrides: global_overrides_view(snapshot),
        incident_titles: incident_titles_view(snapshot.incident_digest.clusters.deep_view(), id, true),
        headline_timeline: match brief {
            Some(b) => b.headline_timeline,
            None => Seq::empty(),
        },
        next_steps: match brief {
            Some(b) => b.next_steps,
            None => Seq::empty(),
        },
        recommended_actions: match brief {
            Some(b) => b.recommended_actions,
            None => Seq::empty(),
        },
        work_items: scoped_work_items(snapshot.worklist.items.deep_view(), id, true),
        board_items: select_items(all_board_items(snapshot), id, true, true),
        focus: f,
        brief,
        lens: find_by_id::<ProxyOperatorRouteLens>(lenses, id),
    }
}

/// The dossier of a focused destination, given the dashboard's briefs and lenses.
pub open spec fn destination_dossier_view(
    snapshot: ProxyOperatorSnapshot,
    briefs: Seq<DestinationBriefView>,
    lenses: Seq<DestinationLensView>,
    f: DestinationFocusView,
) -> DestinationDossierView {
    let id = f.destination_id;
    let brief = find_by_id::<ProxyOperatorDestinationBrief>(briefs, id);
    DestinationDossierView {
        destination_id: id,
        state: state_label_of(snapshot.overview.report.state),
        summary: match brief {
            Some(b) => b.summary,
            None => destination_detail_summary(
                f.detail.live_queue_depth as nat,
                f.detail.send_failures_total as nat,
                f.detail.drops_total as nat,
                f.detail.route_ids.len(),
            ),
        },
        global_blockers: global_blockers_view(snapshot),
        scoped_blockers: scoped_blockers_view(snapshot, id, false),
        global_overrides: global_overrides_view(snapshot),
        incident_titles: incident_titles_view(snapshot.incident_digest.clusters.deep_view(), id, false),
        headline_timeline: match brief {
            Some(b) => b.headline_timeline,
            None => Seq::empty(),
        },
        next_steps: match brief {
            Some(b) => b.next_steps,
            None => Seq::empty(),
        },
        recommended_actions: match brief {
            Some(b) => b.recommended_actions,
            None => Seq::empty(),
        },
        work_items: scoped_work_items(snapshot.worklist.items.deep_view(), id, false),
        board_items: select_items(all_board_items(snapshot), id, false, true),
        focus: f,
        brief,
        lens: find_by_id::<ProxyOperatorDestinationLens>(lenses, id),
    }
}

fn empty_texts() -> (r: Vec<String>)
    ensures
        r.deep_view() == Seq::<Seq<char>>::empty(),
{
    let r: Vec<String> = Vec::new();
    assert(r.deep_view() =~= Seq::<Seq<char>>::empty());
    r
}

fn empty_actions() -> (r: Vec<ProxyOperatorSuggestedAction>)
    ensures
        r.deep_view() == Seq::<SuggestedActionView>::empty(),
{
    let r: Vec<ProxyOperatorSuggestedAction> = Vec::new();
    assert(r.deep_view() =~= Seq::<SuggestedActionView>::empty());
    r
}

fn route_dossier(
    dashboard: &ProxyOperatorDashboard,
    global_blockers: &Vec<String>,
    global_overrides: &Vec<String>,
    focus: &ProxyOperatorRouteFocusPacket,
) -> (r: ProxyOperatorRouteDossier)
    requires
        global_blockers.deep_view() == global_blockers_view(dashboard.snapshot),
        global_overrides.deep_view() == global_overrides_view(dashboard.snapshot),
    ensures
        r.deep_view() == route_dossier_view(
            dashboard.snapshot,
            dashboard.brief.routes.deep_view(),
            dashboard.lens.routes.deep_view(),
            focus.deep_view(),
        ),
{
    let snapshot = &dashboard.snapshot;
    let id = focus.route_id.as_str();
    let brief = copy_by_id(&dashboard.brief.routes, id);
    let (summary, headline_timeline, next_steps, recommended_actions) = match &brief {
        Some(b) => (
            b.summary.duplicate(),
            duplicate_all(&b.headline_timeline),
            duplicate_all(&b.next_steps),
            duplicate_all(&b.recommended_actions),
        ),
        None => (
            route_figures_summary(
                focus.detail.destination_ids.len(),
                focus.detail.warnings.len(),
                focus.detail.direct_udp_fallback_available,
            ),
            empty_texts(),
            empty_texts(),
            empty_actions(),
        ),
    };
    ProxyOperatorRouteDossier {
        route_id: focus.route_id.duplicate(),
        state: state_label(snapshot.overview.report.state),
        summary,
        global_blockers: duplicate_all(global_blockers),
        scoped_blockers: scoped_route_blockers(snapshot, id),
        global_overrides: duplicate_all(global_overrides),
        incident_titles: route_incident_titles(snapshot, id),
        headline_timeline,
        next_steps,
        recommended_actions,
        work_items: route_work_items(snapshot, id),
        board_items: route_board_items(snapshot, id),
        focus: focus.duplicate(),
        brief,
        lens: copy_by_id(&dashboard.lens.routes, id),
    }
}

fn destination_dossier(
    dashboard: &ProxyOperatorDashboard,
    global_blockers: &Vec<String>,
    global_overrides: &Vec<String>,
    focus: &ProxyOperatorDestinationFocusPacket,
) -> (r: ProxyOperatorDestinationDossier)
    requires
        global_blockers.deep_view() == global_blockers_view(dashboard.snapshot),
        global_overrides.deep_view() == global_overrides_view(dashboard.snapshot),
    ensures
        r.deep_view() == destination_dossier_view(
            dashboard.snapshot,
            dashboard.brief.destinations.deep_view(),
            dashboard.lens.destinations.deep_view(),
            focus.deep_view(),
        ),
{
    let snapshot = &dashboard.snapshot;
    let id = focus.destination_id.as_str();
    let brief = copy_by_id(&dashboard.brief.destinations, id);
    let (summary, headline_timeline, next_steps, recommended_actions) = match &brief {
        Some(b) => (
            b.summary.duplicate(),
            duplicate_all(&b.headline_timeline),
            duplicate_all(&b.next_steps),
            duplicate_all(&b.recommended_actions),
        ),
        None => (
            destination_figures_summary(
                focus.detail.live_queue_depth,
                focus.detail.send_failures_total,
                focus.detail.drops_total,
                focus.detail.route_ids.len(),
            ),
            empty_texts(),
            empty_texts(),
            empty_actions(),
        ),
    };
    ProxyOperatorDestinationDossier {
        destination_id: focus.destination_id.duplicate(),
        state: state_label(snapshot.overview.report.state),
        summary,
        global_blockers: duplicate_all(global_blockers),
        scoped_blockers: scoped_destination_blockers(snapshot, id),
        global_overrides: duplicate_all(global_overrides),
        incident_titles: destination_incident_titles(snapshot, id),
        headline_timeline,
        next_steps,
        recommended_actions,
        work_items: destination_work_items(snapshot, id),
        board_items: destination_board_items(snapshot, id),
        focus: focus.duplicate(),
        brief,
        lens: copy_by_id(&dashboard.lens.destinations, id),
    }
}

/// Builds a dossier for every focused route and destination of a dashboard,
/// in focus order, with the broker-wide state, blockers and overrides.
pub fn proxy_operator_dossier_from_dashboard(dashboard: &ProxyOperatorDashboard) -> (r:
    ProxyOperatorDossierCatalog)
    ensures
        r.state@ == state_label_of(dashboard.snapshot.overview.report.state),
        r.global_blockers.deep_view() == global_blockers_view(dashboard.snapshot),
        r.global_overrides.deep_view() == global_overrides_view(dashboard.snapshot),
        r.routes.deep_view() == dashboard.focus.routes.deep_view().map_values(
            |f: RouteFocusView|
                route_dossier_view(
                    dashboard.snapshot,
                    dashboard.brief.routes.deep_view(),
                    dashboard.lens.routes.deep_view(),
                    f,
                ),
        ),
        r.destinations.deep_view() == dashboard.focus.destinations.deep_view().map_values(
            |f: DestinationFocusView|
                destination_dossier_view(
                    dashboard.snapshot,
                    dashboard.brief.destinations.deep_view(),
                    dashboard.lens.destinations.deep_view(),
                    f,
                ),
        ),
{
    let context = snapshot_context(&dashboard.snapshot);
    let ghost rf = dashboard.focus.routes.deep_view();
    let ghost df = dashboard.focus.destinations.deep_view();
    let mut routes: Vec<ProxyOperatorRouteDossier> = Vec::new();
    let mut i: usize = 0;
    while i < dashboard.focus.routes.len()
        invariant
            i <= dashboard.focus.routes@.len(),
            rf == dashboard.focus.routes.deep_view(),
            context.global_blockers.deep_view() == global_blockers_view(dashboard.snapshot),
            context.global_overrides.deep_view() == global_overrides_view(dashboard.snapshot),
            routes.deep_view() == rf.subrange(0, i as int).map_values(
                |f: RouteFocusView|
                    route_dossier_view(
                        dashboard.snapshot,
                        dashboard.brief.routes.deep_view(),
                        dashboard.lens.routes.deep_view(),
                        f,
                    ),
            ),
        decreases dashboard.focus.routes@.len() - i,
    {
        assert(rf[i as int] == dashboard.focus.routes@[i as int].deep_view());
        let entry = route_dossier(
            dashboard,
            &context.global_blockers,
            &context.global_overrides,
            &dashboard.focus.routes[i],
        );
        push_value(&mut routes, entry);
        assert(routes.deep_view() =~= rf.subrange(0, i + 1).map_values(
            |f: RouteFocusView|
                route_dossier_view(
                    dashboard.snapshot,
                    dashboard.brief.routes.deep_view(),
                    dashboard.lens.routes.deep_view(),
                    f,
                ),
        ));
        i = i + 1;
    }
    assert(rf.subrange(0, i as int) =~= rf);
    let mut destinations: Vec<ProxyOperatorDestinationDossier> = Vec::new();
    let mut k: usize = 0;
    while k < dashboard.focus.destinations.len()
        invariant
            k <= dashboard.focus.destinations@.len(),
            df == dashboard.focus.destinations.deep_view(),
            context.global_blockers.deep_view() == global_blockers_view(dashboard.snapshot),
            context.global_overrides.deep_view() == global_overrides_view(dashboard.snapshot),
            destinations.deep_view() == df.subrange(0, k as int).map_values(
                |f: DestinationFocusView|
                    destination_dossier_view(
                        dashboard.snapshot,
                        dashboard.brief.destinations.deep_view(),
                        dashboard.lens.destinations.deep_view(),
                        f,
                    ),
            ),
        decreases dashboard.focus.destinations@.len() - k,
    {
        assert(df[k as int] == dashboard.focus.destinations@[k as int].deep_view());
        let entry = destination_dossier(
            dashboard,
            &context.global_blockers,
            &context.global_overrides,
            &dashboard.focus.destinations[k],
        );
        push_value(&mut destinations, entry);
        assert(destinations.deep_view() =~= df.subrange(0, k + 1).map_values(
            |f: DestinationFocusView|
                destination_dossier_view(
                    dashboard.snapshot,
                    dashboard.brief.destinations.deep_view(),
                    dashboard.lens.destinations.deep_view(),
                    f,
                ),
        ));
        k = k + 1;
    }
    assert(df.subrange(0, k as int) =~= df);
    ProxyOperatorDossierCatalog {
        state: state_label(dashboard.snapshot.overview.report.state),
        global_blockers: context.global_blockers,
        global_overrides: context.global_overrides,
        routes,
        destinations,
    }
}

} // verus!
