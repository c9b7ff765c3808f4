//! Views of the snapshot scoped to the whole broker, to one route or to one
//! destination: blockers, overrides, work items, board items, incident titles
//! and the resulting state.
use vstd::prelude::*;

use crate::board::{BoardItemView, ProxyOperatorBoardItem, ProxyOperatorBoardScope};
use crate::casebook::{cluster_concerns, cluster_concerns_exec, incident_titles, incident_titles_view};
use crate::handoff::step_if;
use crate::incident_digest::{IncidentClusterView, ProxyOperatorIncidentCluster};
use crate::model::ProxyOperatorTraceEventLevel;
use crate::policy::ProxyOperatorState;
use crate::snapshot::{ProxyOperatorSnapshot, ProxyOperatorWorkItem, WorkItemView};
use crate::text::{join2, owned, str_equal};
use crate::values::{extend_unique, push_unique_value, push_value, OperatorValue};

verus! {

/// What holds the whole broker back, and the overrides in force.
#[derive(Clone, Debug, Default)]
pub struct ProxyOperatorContext {
    pub global_blockers: Vec<String>,
    pub global_overrides: Vec<String>,
}

/// `s` with `t` appended unless it already holds it.
pub open spec fn add_unique(s: Seq<Seq<char>>, t: Seq<char>) -> Seq<Seq<char>> {
    if s.contains(t) {
        s
    } else {
        s.push(t)
    }
}

/// `s` with a title and then its reasons added, each unless already present.
pub open spec fn absorb_texts(s: Seq<Seq<char>>, title: Seq<char>, reasons: Seq<Seq<char>>) -> Seq<
    Seq<char>,
> {
    crate::values::merge_unique(add_unique(s, title), reasons)
}

fn absorb_texts_exec(target: &mut Vec<String>, title: &String, reasons: &Vec<String>)
    ensures
        final(target).deep_view() == absorb_texts(old(target).deep_view(), title@, reasons.deep_view()),
{
    push_unique_value(target, title.duplicate());
    extend_unique(target, reasons);
}

/// Whether a board item names route (`for_route`) or destination `id`.
pub open spec fn item_names(x: BoardItemView, id: Seq<char>, for_route: bool) -> bool {
    if for_route {
        x.route_id == Some(id)
    } else {
        x.destination_id == Some(id)
    }
}

fn item_names_exec(x: &ProxyOperatorBoardItem, id: &str, for_route: bool) -> (r: bool)
    ensures
        r == item_names(x.deep_view(), id@, for_route),
{
    let named = if for_route {
        &x.route_id
    } else {
        &x.destination_id
    };
    match named {
        Some(n) => str_equal(n.as_str(), id),
        None => false,
    }
}

/// Whether a board item's texts count as blockers: broker-wide items when no
/// id is given, else the items naming it.
pub open spec fn item_blocks(x: BoardItemView, id: Option<Seq<char>>, for_route: bool) -> bool {
    match id {
        None => x.scope == ProxyOperatorBoardScope::Global,
        Some(id) => item_names(x, id, for_route),
    }
}

/// `s` with the title and reasons of each selected item added, in order, each text once.
pub open spec fn absorb_items(
    s: Seq<Seq<char>>,
    items: Seq<BoardItemView>,
    id: Option<Seq<char>>,
    for_route: bool,
) -> Seq<Seq<char>>
    decreases items.len(),
{
    if items.len() == 0 {
        s
    } else {
        let prev = absorb_items(s, items.drop_last(), id, for_route);
        let x = items.last();
        if item_blocks(x, id, for_route) {
            absorb_texts(prev, x.title, x.reasons)
        } else {
            prev
        }
    }
}

fn absorb_items_exec(
    target: &mut Vec<String>,
    items: &Vec<ProxyOperatorBoardItem>,
    id: Option<&str>,
    for_route: bool,
)
    ensures
        final(target).deep_view() == absorb_items(
            old(target).deep_view(),
            items.deep_view(),
            match id {
                Some(i) => Some(i@),
                None => None,
            },
            for_route,
        ),
{
    let ghost base = target.deep_view();
    let ghost s = items.deep_view();
    let ghost sid = match id {
        Some(i) => Some(i@),
        None => None,
    };
    let mut i: usize = 0;
    assert(s.subrange(0, 0).len() == 0);
    while i < items.len()
        invariant
            i <= items@.len(),
            s == items.deep_view(),
            base == old(target).deep_view(),
            sid == (match id {
                Some(i) => Some(i@),
                None => None::<Seq<char>>,
            }),
            target.deep_view() == absorb_items(base, s.subrange(0, i as int), sid, for_route),
        decreases items@.len() - i,
    {
        let ghost prefix = s.subrange(0, i + 1);
        assert(prefix.drop_last() =~= s.subrange(0, i as int));
        assert(prefix.last() == items@[i as int].deep_view());
        let x = &items[i];
        let selected = match id {
            None => x.scope == ProxyOperatorBoardScope::Global,
            Some(n) => item_names_exec(x, n, for_route),
        };
        if selected {
            absorb_texts_exec(target, &x.title, &x.reasons);
        }
        i = i + 1;
    }
    assert(s.subrange(0, i as int) =~= s);
}

/// `s` with the title and reasons of each incident concerning the route or
/// destination `id` added, in order, each text once.
pub open spec fn absorb_clusters(
    s: Seq<Seq<char>>,
    clusters: Seq<IncidentClusterView>,
    id: Seq<char>,
    for_route: bool,
) -> Seq<Seq<char>>
    decreases clusters.len(),
{
    if clusters.len() == 0 {
        s
    } else {
        let prev = absorb_clusters(s, clusters.drop_last(), id, for_route);
        let c = clusters.last();
        if cluster_concerns(c, id, for_route) {
            absorb_texts(prev, c.title, c.reasons)
        } else {
            prev
        }
    }
}

fn absorb_clusters_exec(
    target: &mut Vec<String>,
    clusters: &Vec<ProxyOperatorIncidentCluster>,
    id: &str,
    for_route: bool,
)
    ensures
        final(target).deep_view() == absorb_clusters(
            old(target).deep_view(),
            clusters.deep_view(),
            id@,
            for_route,
        ),
{
    let ghost base = target.deep_view();
    let ghost s = clusters.deep_view();
    let mut i: usize = 0;
    while i < clusters.len()
        invariant
            i <= clusters@.len(),
            s == clusters.deep_view(),
            base == old(target).deep_view(),
            target.deep_view() == absorb_clusters(base, s.subrange(0, i as int), id@, for_route),
        decreases clusters@.len() - i,
    {
        let ghost prefix = s.subrange(0, i + 1);
        assert(prefix.drop_last() =~= s.subrange(0, i as int));
        assert(prefix.last() == clusters@[i as int].deep_view());
        let c = &clusters[i];
        if cluster_concerns_exec(c, id, for_route) {
            absorb_texts_exec(target, &c.title, &c.reasons);
        }
        i = i + 1;
    }
    assert(s.subrange(0, i as int) =~= s);
}

// ---------------------------------------------------------------------------
// Broker-wide context
// ---------------------------------------------------------------------------

/// The broker-wide blockers: the report's blockers, then the texts of the
/// broker-wide blocked and degraded board items, each once; when there are
/// none and traffic is frozen, that fact alone.
pub open spec fn global_blockers_view(snapshot: ProxyOperatorSnapshot) -> Seq<Seq<char>> {
    let b = absorb_items(
        absorb_items(
            snapshot.overview.report.blockers.deep_view(),
            snapshot.board.blocked_items.deep_view(),
            None,
            true,
        ),
        snapshot.board.degraded_items.deep_view(),
        None,
        true,
    );
    if b.len() == 0 && snapshot.overview.report.overrides.traffic_frozen {
        seq!["traffic is currently frozen by operator override"@]
    } else {
        b
    }
}

/// Lists the broker-wide blockers.
pub fn global_blockers(snapshot: &ProxyOperatorSnapshot) -> (r: Vec<String>)
    ensures
        r.deep_view() == global_blockers_view(*snapshot),
{
    let mut blockers = crate::values::duplicate_all(&snapshot.overview.report.blockers);
    absorb_items_exec(&mut blockers, &snapshot.board.blocked_items, None, true);
    absorb_items_exec(&mut blockers, &snapshot.board.degraded_items, None, true);
    if blockers.len() == 0 && snapshot.overview.report.overrides.traffic_frozen {
        push_value(&mut blockers, owned("traffic is currently frozen by operator override"));
        assert(blockers.deep_view() =~= seq!["traffic is currently frozen by operator override"@]);
    }
    blockers
}

/// The overrides in force: frozen traffic, and a launch profile other than `normal`.
pub open spec fn global_overrides_view(snapshot: ProxyOperatorSnapshot) -> Seq<Seq<char>> {
    let mode = snapshot.overview.report.overrides.launch_profile_mode@;
    step_if(snapshot.attention.traffic_frozen, "traffic_frozen"@) + step_if(
        mode != "normal"@,
        "launch_profile="@ + mode,
    )
}

/// Lists the overrides in force.
pub fn global_overrides(snapshot: &ProxyOperatorSnapshot) -> (r: Vec<String>)
    ensures
        r.deep_view() == global_overrides_view(*snapshot),
{
    let mut overrides: Vec<String> = Vec::new();
    let ghost mode = snapshot.overview.report.overrides.launch_profile_mode@;
    if snapshot.attention.traffic_frozen {
        push_value(&mut overrides, owned("traffic_frozen"));
    }
    assert(overrides.deep_view() =~= step_if(snapshot.attention.traffic_frozen, "traffic_frozen"@));
    let ghost first = overrides.deep_view();
    let mode_text = snapshot.overview.report.overrides.launch_profile_mode.as_str();
    if !str_equal(mode_text, "normal") {
        push_value(&mut overrides, join2("launch_profile=", mode_text));
    }
    assert(overrides.deep_view() =~= first + step_if(mode != "normal"@, "launch_profile="@ + mode));
    overrides
}

/// The broker-wide context of a snapshot.
pub fn snapshot_context(snapshot: &ProxyOperatorSnapshot) -> (r: ProxyOperatorContext)
    ensures
        r.global_blockers.deep_view() == global_blockers_view(*snapshot),
        r.global_overrides.deep_view() == global_overrides_view(*snapshot),
{
    ProxyOperatorContext {
        global_blockers: global_blockers(snapshot),
        global_overrides: global_overrides(snapshot),
    }
}

// ---------------------------------------------------------------------------
// Scoped blockers
// ---------------------------------------------------------------------------

/// The blockers of a route (`for_route`) or destination: the texts of the
/// blocked and degraded board items naming it, then those of the incidents
/// concerning it, each text once.
pub open spec fn scoped_blockers_view(snapshot: ProxyOperatorSnapshot, id: Seq<char>, for_route: bool) -> Seq<
    Seq<char>,
> {
    absorb_clusters(
        absorb_items(
            absorb_items(Seq::empty(), snapshot.board.blocked_items.deep_view(), Some(id), for_route),
            snapshot.board.degraded_items.deep_view(),
            Some(id),
            for_route,
        ),
        snapshot.incident_digest.clusters.deep_view(),
        id,
        for_route,
    )
}

fn scoped_blockers(snapshot: &ProxyOperatorSnapshot, id: &str, for_route: bool) -> (r: Vec<String>)
    ensures
        r.deep_view() == scoped_blockers_view(*snapshot, id@, for_route),
{
    let mut blockers: Vec<String> = Vec::new();
    assert(blockers.deep_view() =~= Seq::<Seq<char>>::empty());
    absorb_items_exec(&mut blockers, &snapshot.board.blocked_items, Some(id), for_route);
    absorb_items_exec(&mut blockers, &snapshot.board.degraded_items, Some(id), for_route);
    absorb_clusters_exec(&mut blockers, &snapshot.incident_digest.clusters, id, for_route);
    blockers
}

/// Lists the blockers of a route.
pub fn scoped_route_blockers(snapshot: &ProxyOperatorSnapshot, route_id: &str) -> (r: Vec<String>)
    ensures
        r.deep_view() == scoped_blockers_view(*snapshot, route_id@, true),
{
    scoped_blockers(snapshot, route_id, true)
}

/// Lists the blockers of a destination.
pub fn scoped_destination_blockers(snapshot: &ProxyOperatorSnapshot, destination_id: &str) -> (r: Vec<
    String,
>)
    ensures
        r.deep_view() == scoped_blockers_view(*snapshot, destination_id@, false),
{
    scoped_blockers(snapshot, destination_id, false)
}

// ---------------------------------------------------------------------------
// Work items
// ---------------------------------------------------------------------------

/// Whether a work item concerns the whole broker: it has no action, or its
/// action names neither a route nor a destination.
pub open spec fn is_global_work_item_view(item: WorkItemView) -> bool {
    match item.action {
        Some(a) => a.route_id is None && a.destination_id is None,
        None => true,
    }
}

/// Decides `is_global_work_item_view`.
pub fn is_global_work_item(item: &ProxyOperatorWorkItem) -> (r: bool)
    ensures
        r == is_global_work_item_view(item.deep_view()),
{
    match &item.action {
        Some(a) => a.route_id.is_none() && a.destination_id.is_none(),
        None => true,
    }
}

/// Whether a work item belongs to the route (`for_route`) or destination `id`:
/// it is broker-wide, or its action names it.
pub open spec fn work_item_concerns(item: WorkItemView, id: Seq<char>, for_route: bool) -> bool {
    is_global_work_item_view(item) || match item.action {
        Some(a) => if for_route {
            a.route_id == Some(id)
        } else {
            a.destination_id == Some(id)
        },
        None => false,
    }
}

/// The work items of a route or destination, in worklist order.
pub open spec fn scoped_work_items(items: Seq<WorkItemView>, id: Seq<char>, for_route: bool) -> Seq<
    WorkItemView,
>
    decreases items.len(),
{
    if items.len() == 0 {
        Seq::empty()
    } else {
        let prev = scoped_work_items(items.drop_last(), id, for_route);
        if work_item_concerns(items.last(), id, for_route) {
            prev.push(items.last())
        } else {
            prev
        }
    }
}

fn work_items(snapshot: &ProxyOperatorSnapshot, id: &str, for_route: bool) -> (r: Vec<
    ProxyOperatorWorkItem,
>)
    ensures
        r.deep_view() == scoped_work_items(snapshot.worklist.items.deep_view(), id@, for_route),
{
    let items = &snapshot.worklist.items;
    let ghost s = items.deep_view();
    let mut out: Vec<ProxyOperatorWorkItem> = Vec::new();
    let mut i: usize = 0;
    assert(out.deep_view() =~= scoped_work_items(s.subrange(0, 0), id@, for_route));
    while i < items.len()
        invariant
            i <= items@.len(),
            s == items.deep_view(),
            out.deep_view() == scoped_work_items(s.subrange(0, i as int), id@, for_route),
        decreases items@.len() - i,
    {
        let ghost prefix = s.subrange(0, i + 1);
        assert(prefix.drop_last() =~= s.subrange(0, i as int));
        assert(prefix.last() == items@[i as int].deep_view());
        let item = &items[i];
        let named = match &item.action {
            Some(a) => {
                let target = if for_route {
                    &a.route_id
                } else {
                    &a.destination_id
                };
                match target {
                    Some(n) => str_equal(n.as_str(), id),
                    None => false,
                }
            },
            None => false,
        };
        if is_global_work_item(item) || named {
            push_value(&mut out, item.duplicate());
        }
        i = i + 1;
    }
    assert(s.subrange(0, i as int) =~= s);
    out
}

/// The work items of a route: broker-wide ones and those whose action names it.
pub fn route_work_items(snapshot: &ProxyOperatorSnapshot, route_id: &str) -> (r: Vec<
    ProxyOperatorWorkItem,
>)
    ensures
        r.deep_view() == scoped_work_items(snapshot.worklist.items.deep_view(), route_id@, true),
{
    work_items(snapshot, route_id, true)
}

/// The work items of a destination: broker-wide ones and those whose action names it.
pub fn destination_work_items(snapshot: &ProxyOperatorSnapshot, destination_id: &str) -> (r: Vec<
    ProxyOperatorWorkItem,
>)
    ensures
        r.deep_view() == scoped_work_items(
            snapshot.worklist.items.deep_view(),
            destination_id@,
            false,
        ),
{
    work_items(snapshot, destination_id, false)
}

// ---------------------------------------------------------------------------
// Board items and state
// ---------------------------------------------------------------------------

/// Every board item of the snapshot: blocked, then degraded, then watch.
pub open spec fn all_board_items(snapshot: ProxyOperatorSnapshot) -> Seq<BoardItemView> {
    snapshot.board.blocked_items.deep_view() + snapshot.board.degraded_items.deep_view()
        + snapshot.board.watch_items.deep_view()
}

/// Whether a board item is selected for the route or destination `id`: it
/// names it, or, with `with_global`, it is broker-wide.
pub open spec fn item_selected(x: BoardItemView, id: Seq<char>, for_route: bool, with_global: bool) -> bool {
    item_names(x, id, for_route) || (with_global && x.scope == ProxyOperatorBoardScope::Global)
}

/// The selected items, in order.
pub open spec fn select_items(
    items: Seq<BoardItemView>,
    id: Seq<char>,
    for_route: bool,
    with_global: bool,
) -> Seq<BoardItemView>
    decreases items.len(),
{
    if items.len() == 0 {
        Seq::empty()
    } else {
        let prev = select_items(items.drop_last(), id, for_route, with_global);
        if item_selected(items.last(), id, for_route, with_global) {
            prev.push(items.last())
        } else {
            prev
        }
    }
}

pub(crate) fn select_from(
    out: &mut Vec<ProxyOperatorBoardItem>,
    items: &Vec<ProxyOperatorBoardItem>,
    id: &str,
    for_route: bool,
    with_global: bool,
)
    ensures
        final(out).deep_view() == old(out).deep_view() + select_items(
            items.deep_view(),
            id@,
            for_route,
            with_global,
        ),
{
    let ghost base = out.deep_view();
    let ghost s = items.deep_view();
    let mut i: usize = 0;
    assert(base + select_items(s.subrange(0, 0), id@, for_route, with_global) =~= base);
    while i < items.len()
        invariant
            i <= items@.len(),
            s == items.deep_view(),
            base == old(out).deep_view(),
            out.deep_view() == base + select_items(s.subrange(0, i as int), id@, for_route, with_global),
        decreases items@.len() - i,
    {
        let ghost prefix = s.subrange(0, i + 1);
        assert(prefix.drop_last() =~= s.subrange(0, i as int));
        assert(prefix.last() == items@[i as int].deep_view());
        let x = &items[i];
        if item_names_exec(x, id, for_route) || (with_global && x.scope
            == ProxyOperatorBoardScope::Global) {
            let ghost before = out.deep_view();
            push_value(out, x.duplicate());
            assert(out.deep_view() =~= base + select_items(prefix, id@, for_route, with_global));
        }
        i = i + 1;
    }
    assert(s.subrange(0, i as int) =~= s);
}

proof fn lemma_select_append(
    a: Seq<BoardItemView>,
    b: Seq<BoardItemView>,
    id: Seq<char>,
    for_route: bool,
    with_global: bool,
)
    ensures
        select_items(a + b, id, for_route, with_global) == select_items(a, id, for_route, with_global)
            + select_items(b, id, for_route, with_global),
    decreases b.len(),
{
    if b.len() == 0 {
        assert(a + b =~= a);
        assert(select_items(a, id, for_route, with_global) + select_items(b, id, for_route, with_global)
            =~= select_items(a, id, for_route, with_global));
    } else {
        lemma_select_append(a, b.drop_last(), id, for_route, with_global);
        assert((a + b).drop_last() =~= a + b.drop_last());
        assert((a + b).last() == b.last());
        let sa = select_items(a, id, for_route, with_global);
        let sb = select_items(b.drop_last(), id, for_route, with_global);
        assert((sa + sb).push(b.last()) =~= sa + sb.push(b.last()));
    }
}

/// The board items selected for a route or destination, from the blocked,
/// degraded and watch lanes in turn.
pub fn scoped_board_items(snapshot: &ProxyOperatorSnapshot, id: &str, for_route: bool, with_global: bool) -> (r:
    Vec<ProxyOperatorBoardItem>)
    ensures
        r.deep_view() == select_items(all_board_items(*snapshot), id@, for_route, with_global),
{
    let ghost b = snapshot.board.blocked_items.deep_view();
    let ghost d = snapshot.board.degraded_items.deep_view();
    let ghost w = snapshot.board.watch_items.deep_view();
    let mut out: Vec<ProxyOperatorBoardItem> = Vec::new();
    assert(out.deep_view() =~= Seq::<BoardItemView>::empty());
    select_from(&mut out, &snapshot.board.blocked_items, id, for_route, with_global);
    select_from(&mut out, &snapshot.board.degraded_items, id, for_route, with_global);
    select_from(&mut out, &snapshot.board.watch_items, id, for_route, with_global);
    proof {
        lemma_select_append(b, d, id@, for_route, with_global);
        lemma_select_append(b + d, w, id@, for_route, with_global);
        assert(out.deep_view() =~= select_items(b + d + w, id@, for_route, with_global));
    }
    out
}

/// The board items of a route: broker-wide ones and those naming it, from
/// the blocked, degraded and watch lanes in turn.
pub fn route_board_items(snapshot: &ProxyOperatorSnapshot, route_id: &str) -> (r: Vec<
    ProxyOperatorBoardItem,
>)
    ensures
        r.deep_view() == select_items(all_board_items(*snapshot), route_id@, true, true),
{
    scoped_board_items(snapshot, route_id, true, true)
}

/// The board items of a destination: broker-wide ones and those naming it,
/// from the blocked, degraded and watch lanes in turn.
pub fn destination_board_items(snapshot: &ProxyOperatorSnapshot, destination_id: &str) -> (r: Vec<
    ProxyOperatorBoardItem,
>)
    ensures
        r.deep_view() == select_items(all_board_items(*snapshot), destination_id@, false, true),
{
    scoped_board_items(snapshot, destination_id, false, true)
}

/// The state of a set of items: blocked if any is blocked, a warning if there
/// are any, healthy otherwise.
pub open spec fn scoped_state_view(items: Seq<BoardItemView>) -> ProxyOperatorState {
    if exists|i: int| 0 <= i < items.len() && #[trigger] items[i].level == ProxyOperatorTraceEventLevel::Blocked {
        ProxyOperatorState::Blocked
    } else if items.len() > 0 {
        ProxyOperatorState::Warning
    } else {
        ProxyOperatorState::Healthy
    }
}

/// Decides `scoped_state_view`.
pub fn scoped_state(items: &Vec<ProxyOperatorBoardItem>) -> (r: ProxyOperatorState)
    ensures
        r == scoped_state_view(items.deep_view()),
{
    let mut i: usize = 0;
    while i < items.len()
        invariant
            i <= items@.len(),
            forall|j: int| 0 <= j < i ==> #[trigger] items.deep_view()[j].level
                != ProxyOperatorTraceEventLevel::Blocked,
        decreases items@.len() - i,
    {
        assert(items.deep_view()[i as int] == items@[i as int].deep_view());
        if items[i].level == ProxyOperatorTraceEventLevel::Blocked {
            assert(items.deep_view()[i as int].level == ProxyOperatorTraceEventLevel::Blocked);
            return ProxyOperatorState::Blocked;
        }
        i = i + 1;
    }
    if items.len() > 0 {
        ProxyOperatorState::Warning
    } else {
        ProxyOperatorState::Healthy
    }
}

/// The state of a route, from the board items naming it.
pub fn route_state(snapshot: &ProxyOperatorSnapshot, route_id: &str) -> (r: ProxyOperatorState)
    ensures
        r == scoped_state_view(select_items(all_board_items(*snapshot), route_id@, true, false)),
{
    let items = scoped_board_items(snapshot, route_id, true, false);
    scoped_state(&items)
}

/// The state of a destination, from the board items naming it.
pub fn destination_state(snapshot: &ProxyOperatorSnapshot, destination_id: &str) -> (r: ProxyOperatorState)
    ensures
        r == scoped_state_view(select_items(all_board_items(*snapshot), destination_id@, false, false)),
{
    let items = scoped_board_items(snapshot, destination_id, false, false);
    scoped_state(&items)
}

/// Titles of the incidents concerning a route, sorted, each once.
pub fn route_incident_titles(snapshot: &ProxyOperatorSnapshot, route_id: &str) -> (r: Vec<String>)
    ensures
        r.deep_view() == incident_titles_view(
            snapshot.incident_digest.clusters.deep_view(),
            route_id@,
            true,
        ),
{
    incident_titles(snapshot, route_id, true)
}

/// Titles of the incidents concerning a destination, sorted, each once.
pub fn destination_incident_titles(snapshot: &ProxyOperatorSnapshot, destination_id: &str) -> (r: Vec<
    String,
>)
    ensures
        r.deep_view() == incident_titles_view(
            snapshot.incident_digest.clusters.deep_view(),
            destination_id@,
            false,
        ),
{
    incident_titles(snapshot, destination_id, false)
}

} // verus!
