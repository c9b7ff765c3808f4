//! The operator board: incidents and casebook records as items, filed into
//! blocked, degraded and watch lanes, each lane ordered by item id with
//! repeated ids kept once.
use vstd::prelude::*;

use crate::casebook::{
    destination_casebooks_view, proxy_operator_casebook, route_casebooks_view, CasebookView,
    ProxyOperatorCasebookCatalog, ProxyOperatorDestinationCasebook, ProxyOperatorRouteCasebook,
};
use crate::incident_digest::{
    IncidentClusterView, ProxyOperatorIncidentCluster, ProxyOperatorIncidentLevel,
};
use crate::model::{ProxyOperatorSuggestedAction, ProxyOperatorTraceEventLevel, SuggestedActionView};
use crate::policy::state_label_of;
use crate::snapshot::ProxyOperatorSnapshot;
use crate::sorting::{
    dedup_by_key, dedup_entries, entry_views, key_view, sort_by_key, sort_entries, KeyView, SortKey,
};
use crate::text::{join2, join3, utf8};
use crate::trace::{ProxyOperatorTimelineCatalog, ProxyOperatorTraceCatalog, ProxyOperatorTriageCatalog};
use crate::values::{
    duplicate_all, extend_unique, lemma_map_prefix_push, merge_unique, push_value, OperatorValue,
};

verus! {

broadcast use vstd::slice::group_slice_axioms;

/// What a board item concerns.
#[derive(Clone, Copy, Debug, PartialEq, Eq, Structural)]
pub enum ProxyOperatorBoardScope {
    Global,
    Route,
    Destination,
}

/// One item on the board.
#[derive(Clone, Debug)]
pub struct ProxyOperatorBoardItem {
    pub id: String,
    pub scope: ProxyOperatorBoardScope,
    pub level: ProxyOperatorTraceEventLevel,
    pub title: String,
    pub summary: String,
    pub reasons: Vec<String>,
    pub actions: Vec<ProxyOperatorSuggestedAction>,
    pub route_id: Option<String>,
    pub destination_id: Option<String>,
}

/// The contents of a board item.
pub struct BoardItemView {
    pub id: Seq<char>,
    pub scope: ProxyOperatorBoardScope,
    pub level: ProxyOperatorTraceEventLevel,
    pub title: Seq<char>,
    pub summary: Seq<char>,
    pub reasons: Seq<Seq<char>>,
    pub actions: Seq<SuggestedActionView>,
    pub route_id: Option<Seq<char>>,
    pub destination_id: Option<Seq<char>>,
}

impl DeepView for ProxyOperatorBoardItem {
    type V = BoardItemView;

    open spec fn deep_view(&self) -> BoardItemView {
        BoardItemView {
            id: self.id@,
            scope: self.scope,
            level: self.level,
            title: self.title@,
            summary: self.summary@,
            reasons: self.reasons.deep_view(),
            actions: self.actions.deep_view(),
            route_id: self.route_id.deep_view(),
            destination_id: self.destination_id.deep_view(),
        }
    }
}

impl OperatorValue for ProxyOperatorBoardItem {
    fn duplicate(&self) -> (r: Self) {
        ProxyOperatorBoardItem {
            id: self.id.duplicate(),
            scope: self.scope,
            level: self.level,
            title: self.title.duplicate(),
            summary: self.summary.duplicate(),
            reasons: duplicate_all(&self.reasons),
            actions: duplicate_all(&self.actions),
            route_id: self.route_id.duplicate(),
            destination_id: self.destination_id.duplicate(),
        }
    }

    fn same_value(&self, other: &Self) -> (r: bool) {
        self.id.same_value(&other.id) && self.scope == other.scope && self.level == other.level
            && self.title.same_value(&other.title) && self.summary.same_value(&other.summary)
            && self.reasons.same_value(&other.reasons) && self.actions.same_value(&other.actions)
            && self.route_id.same_value(&other.route_id) && self.destination_id.same_value(
            &other.destination_id,
        )
    }
}

/// The board: its state label and its three lanes.
#[derive(Clone, Debug, Default)]
pub struct ProxyOperatorBoard {
    pub state: String,
    pub blocked_items: Vec<ProxyOperatorBoardItem>,
    pub degraded_items: Vec<ProxyOperatorBoardItem>,
    pub watch_items: Vec<ProxyOperatorBoardItem>,
}

// ---------------------------------------------------------------------------
// Items
// ---------------------------------------------------------------------------

/// The scope of an incident's item: the route it names, else the destination, else global.
pub open spec fn cluster_item_scope(c: IncidentClusterView) -> ProxyOperatorBoardScope {
    if c.route_id is Some {
        ProxyOperatorBoardScope::Route
    } else if c.destination_id is Some {
        ProxyOperatorBoardScope::Destination
    } else {
        ProxyOperatorBoardScope::Global
    }
}

/// The board item of an incident.
pub open spec fn cluster_item_view(c: IncidentClusterView) -> BoardItemView {
    BoardItemView {
        id: "incident:"@ + c.id,
        scope: cluster_item_scope(c),
        level: match c.level {
            ProxyOperatorIncidentLevel::Blocked => ProxyOperatorTraceEventLevel::Blocked,
            ProxyOperatorIncidentLevel::Degraded => ProxyOperatorTraceEventLevel::Degraded,
        },
        title: c.title,
        summary: c.summary,
        reasons: c.reasons,
        actions: match c.action {
            Some(a) => seq![a],
            None => Seq::empty(),
        },
        route_id: c.route_id,
        destination_id: c.destination_id,
    }
}

/// The board item of a route casebook record.
pub open spec fn route_item_view(cb: CasebookView) -> BoardItemView {
    BoardItemView {
        id: "route:"@ + cb.id,
        scope: ProxyOperatorBoardScope::Route,
        level: cb.level,
        title: "Route `"@ + cb.id + "`"@,
        summary: cb.summary,
        reasons: merge_unique(cb.incident_titles, cb.recovery_surface),
        actions: cb.recommended_actions,
        route_id: Some(cb.id),
        destination_id: None,
    }
}

/// The board item of a destination casebook record.
pub open spec fn destination_item_view(cb: CasebookView) -> BoardItemView {
    BoardItemView {
        id: "destination:"@ + cb.id,
        scope: ProxyOperatorBoardScope::Destination,
        level: cb.level,
        title: "Destination `"@ + cb.id + "`"@,
        summary: cb.summary,
        reasons: merge_unique(cb.incident_titles, cb.recovery_surface),
        actions: cb.recommended_actions,
        route_id: None,
        destination_id: Some(cb.id),
    }
}

fn cluster_item(c: &ProxyOperatorIncidentCluster) -> (r: ProxyOperatorBoardItem)
    ensures
        r.deep_view() == cluster_item_view(c.deep_view()),
{
    let scope = if c.route_id.is_some() {
        ProxyOperatorBoardScope::Route
    } else if c.destination_id.is_some() {
        ProxyOperatorBoardScope::Destination
    } else {
        ProxyOperatorBoardScope::Global
    };
    let level = match c.level {
        ProxyOperatorIncidentLevel::Blocked => ProxyOperatorTraceEventLevel::Blocked,
        ProxyOperatorIncidentLevel::Degraded => ProxyOperatorTraceEventLevel::Degraded,
    };
    let mut actions: Vec<ProxyOperatorSuggestedAction> = Vec::new();
    match &c.action {
        Some(a) => {
            push_value(&mut actions, a.duplicate());
            assert(actions.deep_view() =~= seq![a.deep_view()]);
        },
        None => {
            assert(actions.deep_view() =~= Seq::<SuggestedActionView>::empty());
        },
    }
    ProxyOperatorBoardItem {
        id: join2("incident:", c.id.as_str()),
        scope,
        level,
        title: c.title.duplicate(),
        summary: c.summary.duplicate(),
        reasons: duplicate_all(&c.reasons),
        actions,
        route_id: c.route_id.duplicate(),
        destination_id: c.destination_id.duplicate(),
    }
}

fn route_item(cb: &ProxyOperatorRouteCasebook) -> (r: ProxyOperatorBoardItem)
    ensures
        r.deep_view() == route_item_view(cb.deep_view()),
{
    let mut reasons = duplicate_all(&cb.incident_titles);
    extend_unique(&mut reasons, &cb.recovery_surface);
    ProxyOperatorBoardItem {
        id: join2("route:", cb.route_id.as_str()),
        scope: ProxyOperatorBoardScope::Route,
        level: cb.level,
        title: join3("Route `", cb.route_id.as_str(), "`"),
        summary: cb.summary.duplicate(),
        reasons,
        actions: duplicate_all(&cb.recommended_actions),
        route_id: Some(cb.route_id.duplicate()),
        destination_id: None,
    }
}

fn destination_item(cb: &ProxyOperatorDestinationCasebook) -> (r: ProxyOperatorBoardItem)
    ensures
        r.deep_view() == destination_item_view(cb.deep_view()),
{
    let mut reasons = duplicate_all(&cb.incident_titles);
    extend_unique(&mut reasons, &cb.recovery_surface);
    ProxyOperatorBoardItem {
        id: join2("destination:", cb.destination_id.as_str()),
        scope: ProxyOperatorBoardScope::Destination,
        level: cb.level,
        title: join3("Destination `", cb.destination_id.as_str(), "`"),
        summary: cb.summary.duplicate(),
        reasons,
        actions: duplicate_all(&cb.recommended_actions),
        route_id: None,
        destination_id: Some(cb.destination_id.duplicate()),
    }
}

// ---------------------------------------------------------------------------
// Lanes
// ---------------------------------------------------------------------------

/// The lane an item is filed into: 0 blocked, 1 degraded, 2 watch; an
/// informational item with neither reasons nor actions is left off (3).
pub open spec fn item_lane(x: BoardItemView) -> int {
    match x.level {
        ProxyOperatorTraceEventLevel::Blocked => 0,
        ProxyOperatorTraceEventLevel::Degraded => 1,
        ProxyOperatorTraceEventLevel::Info => if x.reasons.len() > 0 || x.actions.len() > 0 {
            2
        } else {
            3
        },
    }
}

/// The items filed into `lane`, in order.
pub open spec fn lane_items(items: Seq<BoardItemView>, lane: int) -> Seq<BoardItemView>
    decreases items.len(),
{
    if items.len() == 0 {
        Seq::empty()
    } else {
        let prev = lane_items(items.drop_last(), lane);
        if item_lane(items.last()) == lane {
            prev.push(items.last())
        } else {
            prev
        }
    }
}

/// The sort entry of an item: ordered by the bytes of its id alone.
pub open spec fn item_entry(x: BoardItemView) -> (KeyView, BoardItemView) {
    ((0u64, 0u64, utf8(x.id)), x)
}

/// Items ordered by id (stably), keeping the first of each run with the same id.
pub open spec fn ordered_by_id(items: Seq<BoardItemView>) -> Seq<BoardItemView> {
    dedup_entries(sort_entries(items.map_values(|x: BoardItemView| item_entry(x)))).map_values(
        |e: (KeyView, BoardItemView)| e.1,
    )
}

/// Orders items by id and keeps the first of each run with the same id.
pub fn dedupe_items(items: Vec<ProxyOperatorBoardItem>) -> (r: Vec<ProxyOperatorBoardItem>)
    ensures
        r.deep_view() == ordered_by_id(items.deep_view()),
{
    let ghost s = items.deep_view();
    let mut rest = items;
    let mut keyed: Vec<(SortKey, ProxyOperatorBoardItem)> = Vec::new();
    let mut taken: usize = 0;
    let total = rest.len();
    assert(s.subrange(0, 0).map_values(|x: BoardItemView| item_entry(x)) =~= entry_views(keyed@));
    while rest.len() > 0
        invariant
            total == s.len(),
            taken + rest@.len() == s.len(),
            rest.deep_view() == s.subrange(taken as int, s.len() as int),
            entry_views(keyed@) == s.subrange(0, taken as int).map_values(
                |x: BoardItemView| item_entry(x),
            ),
        decreases rest@.len(),
    {
        let ghost before_rest = rest@;
        let ghost before_rest_deep = rest.deep_view();
        let x = rest.remove(0);
        assert(before_rest_deep[0] == x.deep_view());
        let text = vstd::slice::slice_to_vec(x.id.as_str().as_bytes());
        let entry = (SortKey { rank: 0, order: 0, text }, x);
        let ghost before = keyed@;
        keyed.push(entry);
        proof {
            assert(entry_views(keyed@) =~= entry_views(before).push(
                (key_view(entry.0), entry.1.deep_view()),
            ));
            lemma_map_prefix_push(s, taken as int, |x: BoardItemView| item_entry(x));
            assert forall|k: int| 0 <= k < rest@.len() implies #[trigger] rest.deep_view()[k]
                == s[taken + 1 + k] by {
                assert(rest@[k] == before_rest[k + 1]);
                assert(before_rest_deep[k + 1] == s[taken + 1 + k]);
            }
        }
        taken = taken + 1;
        assert(rest.deep_view() =~= s.subrange(taken as int, s.len() as int));
    }
    assert(s.subrange(0, taken as int) =~= s);
    let mut unique = dedup_by_key(sort_by_key(keyed));
    let ghost u = entry_views(unique@);
    let mut out: Vec<ProxyOperatorBoardItem> = Vec::new();
    let mut done: usize = 0;
    let count = unique.len();
    assert(u.subrange(0, 0).map_values(|e: (KeyView, BoardItemView)| e.1) =~= out.deep_view());
    while unique.len() > 0
        invariant
            count == u.len(),
            done + unique@.len() == u.len(),
            entry_views(unique@) == u.subrange(done as int, u.len() as int),
            out.deep_view() == u.subrange(0, done as int).map_values(
                |e: (KeyView, BoardItemView)| e.1,
            ),
        decreases unique@.len(),
    {
        let ghost before_unique = unique@;
        let e = unique.remove(0);
        assert(entry_views(before_unique)[0] == u[done as int]);
        push_value(&mut out, e.1);
        proof {
            lemma_map_prefix_push(u, done as int, |e: (KeyView, BoardItemView)| e.1);
            assert forall|k: int| 0 <= k < unique@.len() implies #[trigger] entry_views(unique@)[k]
                == u[done + 1 + k] by {
                assert(unique@[k] == before_unique[k + 1]);
                assert(entry_views(before_unique)[k + 1] == u[done + 1 + k]);
            }
        }
        done = done + 1;
        assert(entry_views(unique@) =~= u.subrange(done as int, u.len() as int));
    }
    assert(u.subrange(0, done as int) =~= u);
    out
}

// ---------------------------------------------------------------------------
// The board
// ---------------------------------------------------------------------------

/// Whether the snapshot carries no casebook records, so that the casebook is derived.
pub open spec fn casebook_is_empty(snapshot: ProxyOperatorSnapshot) -> bool {
    snapshot.casebook.route_casebooks.len() == 0 && snapshot.casebook.destination_casebooks.len() == 0
}

/// The route records the board is built from.
pub open spec fn board_route_records(
    snapshot: ProxyOperatorSnapshot,
    trace: ProxyOperatorTraceCatalog,
    triage: ProxyOperatorTriageCatalog,
    timeline: ProxyOperatorTimelineCatalog,
) -> Seq<CasebookView> {
    if casebook_is_empty(snapshot) {
        route_casebooks_view(snapshot, trace, triage, timeline)
    } else {
        snapshot.casebook.route_casebooks.deep_view()
    }
}

/// The destination records the board is built from.
pub open spec fn board_destination_records(
    snapshot: ProxyOperatorSnapshot,
    trace: ProxyOperatorTraceCatalog,
    triage: ProxyOperatorTriageCatalog,
    timeline: ProxyOperatorTimelineCatalog,
) -> Seq<CasebookView> {
    if casebook_is_empty(snapshot) {
        destination_casebooks_view(snapshot, trace, triage, timeline)
    } else {
        snapshot.casebook.destination_casebooks.deep_view()
    }
}

/// The state label of the board: that of the casebook it is built from.
pub open spec fn board_state(snapshot: ProxyOperatorSnapshot) -> Seq<char> {
    if casebook_is_empty(snapshot) {
        state_label_of(snapshot.overview.report.state)
    } else {
        snapshot.casebook.state@
    }
}

/// Every item before filing: incidents, then route records, then destination records.
pub open spec fn board_items_view(
    snapshot: ProxyOperatorSnapshot,
    trace: ProxyOperatorTraceCatalog,
    triage: ProxyOperatorTriageCatalog,
    timeline: ProxyOperatorTimelineCatalog,
) -> Seq<BoardItemView> {
    snapshot.incident_digest.clusters.deep_view().map_values(
        |c: IncidentClusterView| cluster_item_view(c),
    ) + board_route_records(snapshot, trace, triage, timeline).map_values(
        |cb: CasebookView| route_item_view(cb),
    ) + board_destination_records(snapshot, trace, triage, timeline).map_values(
        |cb: CasebookView| destination_item_view(cb),
    )
}

/// Builds the board from the snapshot (and, when the snapshot carries no
/// casebook, from the casebook of the given trace, triage and timeline).
pub fn proxy_operator_board(
    snapshot: &ProxyOperatorSnapshot,
    trace: &ProxyOperatorTraceCatalog,
    triage: &ProxyOperatorTriageCatalog,
    timeline: &ProxyOperatorTimelineCatalog,
) -> (r: ProxyOperatorBoard)
    ensures
        r.state@ == board_state(*snapshot),
        r.blocked_items.deep_view() == ordered_by_id(
            lane_items(board_items_view(*snapshot, *trace, *triage, *timeline), 0),
        ),
        r.degraded_items.deep_view() == ordered_by_id(
            lane_items(board_items_view(*snapshot, *trace, *triage, *timeline), 1),
        ),
        r.watch_items.deep_view() == ordered_by_id(
            lane_items(board_items_view(*snapshot, *trace, *triage, *timeline), 2),
        ),
{
    let derive = snapshot.casebook.route_casebooks.len() == 0
        && snapshot.casebook.destination_casebooks.len() == 0;
    let computed: Option<ProxyOperatorCasebookCatalog> = if derive {
        Some(proxy_operator_casebook(snapshot, trace, triage, timeline))
    } else {
        None
    };
    let casebook: &ProxyOperatorCasebookCatalog = match &computed {
        Some(c) => c,
        None => &snapshot.casebook,
    };
    let ghost routes = board_route_records(*snapshot, *trace, *triage, *timeline);
    let ghost destinations = board_destination_records(*snapshot, *trace, *triage, *timeline);
    assert(casebook.route_casebooks.deep_view() == routes);
    assert(casebook.destination_casebooks.deep_view() == destinations);
    assert(casebook.state@ == board_state(*snapshot));

    let clusters = &snapshot.incident_digest.clusters;
    let ghost a = clusters.deep_view().map_values(|c: IncidentClusterView| cluster_item_view(c));
    let ghost b = routes.map_values(|cb: CasebookView| route_item_view(cb));
    let ghost d = destinations.map_values(|cb: CasebookView| destination_item_view(cb));
    let mut all: Vec<ProxyOperatorBoardItem> = Vec::new();
    let mut i: usize = 0;
    while i < clusters.len()
        invariant
            i <= clusters@.len(),
            a == clusters.deep_view().map_values(|c: IncidentClusterView| cluster_item_view(c)),
            all.deep_view() == a.subrange(0, i as int),
        decreases clusters@.len() - i,
    {
        assert(clusters.deep_view()[i as int] == clusters@[i as int].deep_view());
        push_value(&mut all, cluster_item(&clusters[i]));
        assert(all.deep_view() =~= a.subrange(0, i + 1));
        i = i + 1;
    }
    assert(a.subrange(0, i as int) =~= a);
    let mut j: usize = 0;
    while j < casebook.route_casebooks.len()
        invariant
            j <= casebook.route_casebooks@.len(),
            casebook.route_casebooks.deep_view() == routes,
            b == routes.map_values(|cb: CasebookView| route_item_view(cb)),
            all.deep_view() == a + b.subrange(0, j as int),
        decreases casebook.route_casebooks@.len() - j,
    {
        assert(routes[j as int] == casebook.route_casebooks@[j as int].deep_view());
        push_value(&mut all, route_item(&casebook.route_casebooks[j]));
        assert(all.deep_view() =~= a + b.subrange(0, j + 1));
        j = j + 1;
    }
    assert(b.subrange(0, j as int) =~= b);
    let mut k: usize = 0;
    while k < casebook.destination_casebooks.len()
        invariant
            k <= casebook.destination_casebooks@.len(),
            casebook.destination_casebooks.deep_view() == destinations,
            d == destinations.map_values(|cb: CasebookView| destination_item_view(cb)),
            all.deep_view() == a + b + d.subrange(0, k as int),
        decreases casebook.destination_casebooks@.len() - k,
    {
        assert(destinations[k as int] == casebook.destination_casebooks@[k as int].deep_view());
        push_value(&mut all, destination_item(&casebook.destination_casebooks[k]));
        assert(all.deep_view() =~= a + b + d.subrange(0, k + 1));
        k = k + 1;
    }
    assert(d.subrange(0, k as int) =~= d);
    let ghost items = all.deep_view();
    assert(items == board_items_view(*snapshot, *trace, *triage, *timeline));

    let mut blocked: Vec<ProxyOperatorBoardItem> = Vec::new();
    let mut degraded: Vec<ProxyOperatorBoardItem> = Vec::new();
    let mut watch: Vec<ProxyOperatorBoardItem> = Vec::new();
    let mut n: usize = 0;
    assert(blocked.deep_view() =~= lane_items(items.subrange(0, 0), 0));
    assert(degraded.deep_view() =~= lane_items(items.subrange(0, 0), 1));
    assert(watch.deep_view() =~= lane_items(items.subrange(0, 0), 2));
    while n < all.len()
        invariant
            n <= all@.len(),
            items == all.deep_view(),
            blocked.deep_view() == lane_items(items.subrange(0, n as int), 0),
            degraded.deep_view() == lane_items(items.subrange(0, n as int), 1),
            watch.deep_view() == lane_items(items.subrange(0, n as int), 2),
        decreases all@.len() - n,
    {
        let ghost prefix = items.subrange(0, n + 1);
        assert(prefix.drop_last() =~= items.subrange(0, n as int));
        assert(prefix.last() == all@[n as int].deep_view());
        let x = all[n].duplicate();
        match x.level {
            ProxyOperatorTraceEventLevel::Blocked => push_value(&mut blocked, x),
            ProxyOperatorTraceEventLevel::Degraded => push_value(&mut degraded, x),
            ProxyOperatorTraceEventLevel::Info => {
                if x.reasons.len() > 0 || x.actions.len() > 0 {
                    push_value(&mut watch, x);
                }
            },
        }
        n = n + 1;
    }
    assert(items.subrange(0, n as int) =~= items);
    ProxyOperatorBoard {
        state: casebook.state.duplicate(),
        blocked_items: dedupe_items(blocked),
        degraded_items: dedupe_items(degraded),
        watch_items: dedupe_items(watch),
    }
}

} // verus!
