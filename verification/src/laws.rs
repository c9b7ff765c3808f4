//! Properties that hold across the operator views for every input.
use vstd::prelude::*;

use crate::board::{item_entry, item_lane, lane_items, ordered_by_id, BoardItemView};
use crate::casebook::{casebook_summary_view, sorted_unique, title_entry};
use crate::context::{
    absorb_clusters, absorb_items, absorb_texts, add_unique, global_blockers_view, item_selected,
    scoped_blockers_view, select_items,
};
use crate::board::ProxyOperatorBoardScope;
use crate::dashboard::{hotspot_entry, hotspots, positive_counters, timeline_key, timeline_view};
use crate::handoff::{destination_next_steps_view, route_next_steps_view};
use crate::history::bounded_view;
use crate::incident_digest::{count_level, IncidentClusterView, ProxyOperatorIncidentLevel};
use crate::launch::{
    capture_changed, rehydrate_changed, replay_changed, safe_route, safe_routes, CapturePolicy,
    LaunchRouteView,
};
use crate::model::TimelineEntryView;
use crate::policy::{
    destination_signal_problematic, route_signal_problematic, ProxyOperatorDestinationSignal,
    ProxyOperatorRouteSignal,
};
use crate::report::{
    destination_views, operator_state_view, problematic_destinations, problematic_routes,
    route_views,
};
use crate::policy::{BreakerStateSnapshot, ProxyOperatorState};
use crate::incident_digest::destination_cluster_view;
use crate::dashboard::{summarizes_traffic, destination_count, ProxyOperatorTrafficSummary};
use crate::status::{DestinationRuntimeView, UdpProxyRuntimeStatus, UdpProxyStatusSnapshot};
use crate::request::{hex_value, percent_decode, target_path, target_query, PERCENT_SIGN};
use crate::routes::{control_route_plan, RoutePlan};
use crate::text::lemma_first_index_of;
use crate::snapshot::ProxyOperatorSnapshot;
use crate::sorting::{
    bytes_lt, entry_lt, entry_values, has_key, keys_increasing, keys_nondecreasing,
    lemma_bytes_lt_irreflexive, lemma_sort_entries, lemma_sorted_unique_entries, sort_entries,
    dedup_entries, KeyView,
};
use crate::status::{ConfigEventView, OperatorActionView};
use crate::text::{lemma_utf8_injective, utf8};
use crate::values::{find_by_id, lemma_find_by_id, lemma_merge_unique_properties, merge_unique, Identified};
use crate::control::{is_loopback_ip, listen_check_view, ListenIp};
use crate::lifecycle::released_isolations;
use crate::records::{board_items_in_scope, narrowed, RecordScope};
use crate::http::{
    is_white_space, lemma_line_end_at_least, lemma_next_index_at, line_end, request_from_text_view,
    HttpRequestError,
};

verus! {

broadcast use {vstd::seq_lib::group_seq_properties, vstd::multiset::group_multiset_axioms};

// ---------------------------------------------------------------------------
// Orderings
// ---------------------------------------------------------------------------

/// Each board lane holds its items in strictly increasing byte order of their
/// ids (so no id twice), every item it holds was filed into it, and every id
/// filed into it is present.
pub proof fn law_board_lane_ids_unique(items: Seq<BoardItemView>)
    ensures
        forall|i: int, j: int|
            0 <= i < j < ordered_by_id(items).len() ==> bytes_lt(
                utf8((#[trigger] ordered_by_id(items)[i]).id),
                utf8((#[trigger] ordered_by_id(items)[j]).id),
            ),
        forall|x: BoardItemView| #[trigger] ordered_by_id(items).contains(x) ==> items.contains(x),
        forall|i: int|
            0 <= i < items.len() ==> exists|j: int|
                0 <= j < ordered_by_id(items).len() && (#[trigger] ordered_by_id(items)[j]).id == (
                #[trigger] items[i]).id,
{
    let e = items.map_values(|x: BoardItemView| item_entry(x));
    let d = dedup_entries(sort_entries(e));
    let r = ordered_by_id(items);
    lemma_sorted_unique_entries(e);
    assert(r == entry_values(d));
    assert forall|k: int| 0 <= k < d.len() implies (#[trigger] d[k]).0 == (
        0u64,
        0u64,
        utf8(d[k].1.id),
    ) && items.contains(d[k].1) by {
        assert(d.contains(d[k]));
        assert(e.contains(d[k]));
        let m = choose|m: int| 0 <= m < e.len() && e[m] == d[k];
        assert(e[m] == item_entry(items[m]));
    }
    assert forall|i: int, j: int| 0 <= i < j < r.len() implies bytes_lt(
        utf8((#[trigger] r[i]).id),
        utf8((#[trigger] r[j]).id),
    ) by {
        assert(entry_lt(d[i], d[j]));
        assert(d[i].0 == (0u64, 0u64, utf8(d[i].1.id)));
        assert(d[j].0 == (0u64, 0u64, utf8(d[j].1.id)));
    }
    assert forall|x: BoardItemView| #[trigger] r.contains(x) implies items.contains(x) by {
        let k = choose|k: int| 0 <= k < r.len() && r[k] == x;
        assert(d[k].1 == x);
    }
    assert forall|i: int| 0 <= i < items.len() implies exists|j: int|
        0 <= j < r.len() && (#[trigger] r[j]).id == (#[trigger] items[i]).id by {
        assert(e[i] == item_entry(items[i]));
        assert(has_key(d, e[i].0));
        let j = choose|j: int| 0 <= j < d.len() && (#[trigger] d[j]).0 == e[i].0;
        assert(d[j].0 == (0u64, 0u64, utf8(d[j].1.id)));
        lemma_utf8_injective(d[j].1.id, items[i].id);
        assert(r[j] == d[j].1);
    }
}

/// Sorted unique titles are in strictly increasing byte order (so none
/// twice), each is one of the given titles, and every given title is present.
pub proof fn law_sorted_unique_titles(titles: Seq<Seq<char>>)
    ensures
        forall|i: int, j: int|
            0 <= i < j < sorted_unique(titles).len() ==> bytes_lt(
                utf8(#[trigger] sorted_unique(titles)[i]),
                utf8(#[trigger] sorted_unique(titles)[j]),
            ),
        forall|t: Seq<char>| #[trigger] sorted_unique(titles).contains(t) <==> titles.contains(t),
{
    let e = titles.map_values(|t: Seq<char>| title_entry(t));
    let d = dedup_entries(sort_entries(e));
    let r = sorted_unique(titles);
    lemma_sorted_unique_entries(e);
    assert(r == entry_values(d));
    assert forall|k: int| 0 <= k < d.len() implies (#[trigger] d[k]).0 == (
        0u64,
        0u64,
        utf8(d[k].1),
    ) && titles.contains(d[k].1) by {
        assert(d.contains(d[k]));
        assert(e.contains(d[k]));
        let m = choose|m: int| 0 <= m < e.len() && e[m] == d[k];
        assert(e[m] == title_entry(titles[m]));
    }
    assert forall|i: int, j: int| 0 <= i < j < r.len() implies bytes_lt(
        utf8(#[trigger] r[i]),
        utf8(#[trigger] r[j]),
    ) by {
        assert(entry_lt(d[i], d[j]));
    }
    assert forall|t: Seq<char>| #[trigger] r.contains(t) <==> titles.contains(t) by {
        if r.contains(t) {
            let k = choose|k: int| 0 <= k < r.len() && r[k] == t;
            assert(d[k].1 == t);
        }
        if titles.contains(t) {
            let i = choose|i: int| 0 <= i < titles.len() && titles[i] == t;
            assert(e[i] == title_entry(titles[i]));
            assert(has_key(d, e[i].0));
            let j = choose|j: int| 0 <= j < d.len() && (#[trigger] d[j]).0 == e[i].0;
            lemma_utf8_injective(d[j].1, t);
            assert(r[j] == d[j].1);
        }
    }
}

proof fn lemma_positive_counters(s: Seq<(Seq<char>, u64)>)
    ensures
        forall|x: (Seq<char>, u64)| #[trigger] positive_counters(s).contains(x) ==> s.contains(x)
            && x.1 > 0,
    decreases s.len(),
{
    if s.len() > 0 {
        lemma_positive_counters(s.drop_last());
        assert forall|x: (Seq<char>, u64)| #[trigger] positive_counters(s).contains(x) implies s.contains(
            x,
        ) && x.1 > 0 by {
            let prev = positive_counters(s.drop_last());
            if prev.contains(x) {
                let k = choose|k: int| 0 <= k < s.drop_last().len() && s.drop_last()[k] == x;
                assert(s[k] == x);
            } else {
                assert(x == s.last());
                assert(s[s.len() - 1] == x);
            }
        }
    }
}

/// The hotspots of a list of counters are at most `limit` counters, each
/// above zero and taken from the list, with totals that never increase.
pub proof fn law_hotspots_ranked(s: Seq<(Seq<char>, u64)>, limit: nat)
    ensures
        hotspots(s, limit).len() <= limit,
        forall|x: (Seq<char>, u64)| #[trigger] hotspots(s, limit).contains(x) ==> s.contains(x) && x.1
            > 0,
        forall|i: int, j: int|
            0 <= i < j < hotspots(s, limit).len() ==> (#[trigger] hotspots(s, limit)[i]).1 >= (
            #[trigger] hotspots(s, limit)[j]).1,
{
    let p = positive_counters(s);
    let e = p.map_values(|x: (Seq<char>, u64)| hotspot_entry(x));
    let sorted = sort_entries(e);
    let ranked = entry_values(sorted);
    let r = hotspots(s, limit);
    lemma_sort_entries(e);
    lemma_positive_counters(s);
    sorted.to_multiset_ensures();
    e.to_multiset_ensures();
    assert forall|k: int| 0 <= k < sorted.len() implies (#[trigger] sorted[k]).0 == hotspot_entry(
        sorted[k].1,
    ).0 && p.contains(sorted[k].1) by {
        assert(sorted.contains(sorted[k]));
        assert(sorted.to_multiset().count(sorted[k]) > 0);
        assert(e.to_multiset().count(sorted[k]) > 0);
        assert(e.contains(sorted[k]));
        let m = choose|m: int| 0 <= m < e.len() && e[m] == sorted[k];
        assert(e[m] == hotspot_entry(p[m]));
    }
    assert(r.len() <= limit);
    assert forall|x: (Seq<char>, u64)| #[trigger] r.contains(x) implies s.contains(x) && x.1 > 0 by {
        let k = choose|k: int| 0 <= k < r.len() && r[k] == x;
        assert(ranked[k] == x);
        assert(sorted[k].1 == x);
        assert(p.contains(x));
    }
    assert forall|i: int, j: int| 0 <= i < j < r.len() implies (#[trigger] r[i]).1 >= (
    #[trigger] r[j]).1 by {
        assert(r[i] == sorted[i].1 && r[j] == sorted[j].1);
        assert(!entry_lt(sorted[j], sorted[i]));
        assert(p.contains(sorted[i].1) && p.contains(sorted[j].1));
    }
}

/// The timeline runs from the newest entry to the oldest.
pub proof fn law_timeline_newest_first(actions: Seq<OperatorActionView>, events: Seq<ConfigEventView>)
    ensures
        forall|i: int, j: int|
            0 <= i < j < timeline_view(actions, events).len() ==> (#[trigger] timeline_view(
                actions,
                events,
            )[i]).recorded_at_unix_ms >= (#[trigger] timeline_view(
                actions,
                events,
            )[j]).recorded_at_unix_ms,
{
    let all = actions.map_values(|a: OperatorActionView| crate::dashboard::action_entry_view(a))
        + events.map_values(|e: ConfigEventView| crate::dashboard::config_entry_view(e));
    let e = all.map_values(|x: TimelineEntryView| timeline_key(x));
    let sorted = sort_entries(e);
    let r = timeline_view(actions, events);
    lemma_sort_entries(e);
    sorted.to_multiset_ensures();
    e.to_multiset_ensures();
    assert forall|k: int| 0 <= k < sorted.len() implies (#[trigger] sorted[k]).0 == timeline_key(
        sorted[k].1,
    ).0 by {
        assert(sorted.contains(sorted[k]));
        assert(sorted.to_multiset().count(sorted[k]) > 0);
        assert(e.to_multiset().count(sorted[k]) > 0);
        assert(e.contains(sorted[k]));
        let m = choose|m: int| 0 <= m < e.len() && e[m] == sorted[k];
        assert(e[m] == timeline_key(all[m]));
    }
    assert forall|i: int, j: int| 0 <= i < j < r.len() implies (#[trigger] r[i]).recorded_at_unix_ms
        >= (#[trigger] r[j]).recorded_at_unix_ms by {
        assert(r[i] == sorted[i].1 && r[j] == sorted[j].1);
        assert(!entry_lt(sorted[j], sorted[i]));
    }
}

// ---------------------------------------------------------------------------
// Filters and bounds
// ---------------------------------------------------------------------------

/// The problematic route signals are exactly the signals that are problematic.
pub proof fn law_problematic_routes_exact(s: Seq<ProxyOperatorRouteSignal>)
    ensures
        forall|x: ProxyOperatorRouteSignal| #[trigger] problematic_routes(s).contains(x) <==> (
        s.contains(x) && route_signal_problematic(x)),
        problematic_routes(s).len() <= s.len(),
    decreases s.len(),
{
    if s.len() > 0 {
        let prev = s.drop_last();
        law_problematic_routes_exact(prev);
        assert forall|x: ProxyOperatorRouteSignal| #[trigger] problematic_routes(s).contains(x) <==> (
        s.contains(x) && route_signal_problematic(x)) by {
            if s.contains(x) && x != s.last() {
                let k = choose|k: int| 0 <= k < s.len() && s[k] == x;
                assert(prev[k] == x);
            }
            if prev.contains(x) {
                let k = choose|k: int| 0 <= k < prev.len() && prev[k] == x;
                assert(s[k] == x);
            }
            assert(s[s.len() - 1] == s.last());
        }
    }
}

/// The problematic destination signals are exactly the signals that are problematic.
pub proof fn law_problematic_destinations_exact(s: Seq<ProxyOperatorDestinationSignal>)
    ensures
        forall|x: ProxyOperatorDestinationSignal| #[trigger] problematic_destinations(s).contains(x)
            <==> (s.contains(x) && destination_signal_problematic(x)),
        problematic_destinations(s).len() <= s.len(),
    decreases s.len(),
{
    if s.len() > 0 {
        let prev = s.drop_last();
        law_problematic_destinations_exact(prev);
        assert forall|x: ProxyOperatorDestinationSignal| #[trigger] problematic_destinations(
            s,
        ).contains(x) <==> (s.contains(x) && destination_signal_problematic(x)) by {
            if s.contains(x) && x != s.last() {
                let k = choose|k: int| 0 <= k < s.len() && s[k] == x;
                assert(prev[k] == x);
            }
            if prev.contains(x) {
                let k = choose|k: int| 0 <= k < prev.len() && prev[k] == x;
                assert(s[k] == x);
            }
            assert(s[s.len() - 1] == s.last());
        }
    }
}

/// Bounding history keeps the newest `limit` entries, in order: as many as
/// the limit allows, and exactly the last ones.
pub proof fn law_bounded_keeps_newest<T>(s: Seq<T>, limit: Option<usize>)
    ensures
        bounded_view(s, limit).len() == (match limit {
            Some(l) => if s.len() > l {
                l as nat
            } else {
                s.len()
            },
            None => s.len(),
        }),
        forall|i: int|
            0 <= i < bounded_view(s, limit).len() ==> #[trigger] bounded_view(s, limit)[i] == s[s.len()
                - bounded_view(s, limit).len() + i],
{
}

/// Blocked and degraded incidents together are all the incidents.
pub proof fn law_digest_counts_cover(clusters: Seq<IncidentClusterView>)
    ensures
        count_level(clusters, ProxyOperatorIncidentLevel::Blocked) + count_level(
            clusters,
            ProxyOperatorIncidentLevel::Degraded,
        ) == clusters.len(),
    decreases clusters.len(),
{
    if clusters.len() > 0 {
        law_digest_counts_cover(clusters.drop_last());
    }
}

// ---------------------------------------------------------------------------
// Next steps and summaries
// ---------------------------------------------------------------------------

/// Every route and destination handoff names at least one next step, and
/// with traffic frozen the first is to thaw it.
pub proof fn law_next_steps_never_empty(reasons: Seq<Seq<char>>, traffic_frozen: bool)
    ensures
        route_next_steps_view(reasons, traffic_frozen).len() >= 1,
        destination_next_steps_view(reasons, traffic_frozen).len() >= 1,
        traffic_frozen ==> route_next_steps_view(reasons, traffic_frozen)[0]
            == "Thaw traffic before expecting this route to resume live forwarding or recovery."@,
        traffic_frozen ==> destination_next_steps_view(reasons, traffic_frozen)[0]
            == "Thaw traffic before treating this destination as fully recovered or stable."@,
{
}

/// A handoff summary that repeats the trace summary is not repeated in the casebook.
pub proof fn law_casebook_summary_not_repeated(summary: Seq<char>)
    ensures
        casebook_summary_view(summary, Some(summary)) == summary,
        casebook_summary_view(summary, None) == summary,
{
}

// ---------------------------------------------------------------------------
// Blockers
// ---------------------------------------------------------------------------

proof fn lemma_add_unique_no_duplicates(s: Seq<Seq<char>>, t: Seq<char>)
    requires
        s.no_duplicates(),
    ensures
        add_unique(s, t).no_duplicates(),
{
    if !s.contains(t) {
        let r = s.push(t);
        assert forall|i: int, j: int| 0 <= i < r.len() && 0 <= j < r.len() && i != j implies r[i]
            != r[j] by {
            if i < s.len() && j < s.len() {
                assert(r[i] == s[i] && r[j] == s[j]);
            } else if i < s.len() {
                assert(r[i] == s[i]);
            } else if j < s.len() {
                assert(r[j] == s[j]);
            }
        }
    }
}

proof fn lemma_absorb_texts_no_duplicates(s: Seq<Seq<char>>, title: Seq<char>, reasons: Seq<Seq<char>>)
    requires
        s.no_duplicates(),
    ensures
        absorb_texts(s, title, reasons).no_duplicates(),
{
    lemma_add_unique_no_duplicates(s, title);
    lemma_merge_unique_properties(add_unique(s, title), reasons);
}

proof fn lemma_absorb_items_no_duplicates(
    s: Seq<Seq<char>>,
    items: Seq<BoardItemView>,
    id: Option<Seq<char>>,
    for_route: bool,
)
    requires
        s.no_duplicates(),
    ensures
        absorb_items(s, items, id, for_route).no_duplicates(),
    decreases items.len(),
{
    if items.len() > 0 {
        lemma_absorb_items_no_duplicates(s, items.drop_last(), id, for_route);
        let prev = absorb_items(s, items.drop_last(), id, for_route);
        lemma_absorb_texts_no_duplicates(prev, items.last().title, items.last().reasons);
    }
}

proof fn lemma_absorb_clusters_no_duplicates(
    s: Seq<Seq<char>>,
    clusters: Seq<IncidentClusterView>,
    id: Seq<char>,
    for_route: bool,
)
    requires
        s.no_duplicates(),
    ensures
        absorb_clusters(s, clusters, id, for_route).no_duplicates(),
    decreases clusters.len(),
{
    if clusters.len() > 0 {
        lemma_absorb_clusters_no_duplicates(s, clusters.drop_last(), id, for_route);
        let prev = absorb_clusters(s, clusters.drop_last(), id, for_route);
        lemma_absorb_texts_no_duplicates(prev, clusters.last().title, clusters.last().reasons);
    }
}

/// The blockers of a route or destination name no text twice.
pub proof fn law_scoped_blockers_unique(snapshot: ProxyOperatorSnapshot, id: Seq<char>, for_route: bool)
    ensures
        scoped_blockers_view(snapshot, id, for_route).no_duplicates(),
{
    let e = Seq::<Seq<char>>::empty();
    let b = snapshot.board.blocked_items.deep_view();
    let d = snapshot.board.degraded_items.deep_view();
    lemma_absorb_items_no_duplicates(e, b, Some(id), for_route);
    lemma_absorb_items_no_duplicates(absorb_items(e, b, Some(id), for_route), d, Some(id), for_route);
    lemma_absorb_clusters_no_duplicates(
        absorb_items(absorb_items(e, b, Some(id), for_route), d, Some(id), for_route),
        snapshot.incident_digest.clusters.deep_view(),
        id,
        for_route,
    );
}

/// The broker-wide blockers name no text twice when the report's blockers do not.
pub proof fn law_global_blockers_unique(snapshot: ProxyOperatorSnapshot)
    requires
        snapshot.overview.report.blockers.deep_view().no_duplicates(),
    ensures
        global_blockers_view(snapshot).no_duplicates(),
{
    let r = snapshot.overview.report.blockers.deep_view();
    let b = snapshot.board.blocked_items.deep_view();
    let d = snapshot.board.degraded_items.deep_view();
    lemma_absorb_items_no_duplicates(r, b, None, true);
    lemma_absorb_items_no_duplicates(absorb_items(r, b, None, true), d, None, true);
}

// ---------------------------------------------------------------------------
// Launch profiles
// ---------------------------------------------------------------------------

proof fn lemma_changed_of_safe(routes: Seq<LaunchRouteView>)
    ensures
        capture_changed(safe_routes(routes)).len() == 0,
        replay_changed(safe_routes(routes)).len() == 0,
        rehydrate_changed(safe_routes(routes)).len() == 0,
    decreases routes.len(),
{
    if routes.len() > 0 {
        lemma_changed_of_safe(routes.drop_last());
        assert(safe_routes(routes).drop_last()
            =~= routes.drop_last().map_values(|x: LaunchRouteView| safe_route(x)));
    }
}

/// Safe mode leaves no route capturing, replaying or rehydrating on restart,
/// keeps route ids and rehydrate-on-connect, and applying it again changes
/// nothing and reports no route.
pub proof fn law_safe_mode_idempotent(routes: Seq<LaunchRouteView>)
    ensures
        forall|i: int|
            0 <= i < routes.len() ==> {
                let r = #[trigger] safe_routes(routes)[i];
                &&& r.capture == CapturePolicy::Off
                &&& !r.recovery.replay_allowed
                &&& !r.recovery.rehydrate_on_restart
                &&& r.recovery.rehydrate_on_connect == routes[i].recovery.rehydrate_on_connect
                &&& r.id == routes[i].id
            },
        safe_routes(safe_routes(routes)) == safe_routes(routes),
        capture_changed(safe_routes(routes)).len() == 0,
        replay_changed(safe_routes(routes)).len() == 0,
        rehydrate_changed(safe_routes(routes)).len() == 0,
{
    lemma_changed_of_safe(routes);
    assert(safe_routes(safe_routes(routes)) =~= safe_routes(routes));
}

// ---------------------------------------------------------------------------
// Request decoding
// ---------------------------------------------------------------------------

/// Text without a percent sign decodes to itself.
pub proof fn law_percent_decode_identity(bytes: Seq<u8>)
    requires
        !bytes.contains(PERCENT_SIGN),
    ensures
        percent_decode(bytes) == Some(bytes),
    decreases bytes.len(),
{
    if bytes.len() > 0 {
        let rest = bytes.subrange(1, bytes.len() as int);
        assert(bytes[0] != PERCENT_SIGN) by {
            if bytes[0] == PERCENT_SIGN {
                assert(bytes.contains(bytes[0]));
            }
        }
        assert(!rest.contains(PERCENT_SIGN)) by {
            if rest.contains(PERCENT_SIGN) {
                let k = choose|k: int| 0 <= k < rest.len() && rest[k] == PERCENT_SIGN;
                assert(bytes[k + 1] == PERCENT_SIGN);
            }
        }
        law_percent_decode_identity(rest);
        assert(seq![bytes[0]] + rest =~= bytes);
    }
}

/// The upper-case hexadecimal digit of a value below sixteen.
pub open spec fn hex_digit(n: u8) -> u8 {
    if n < 10 {
        (48 + n) as u8
    } else {
        (55 + n) as u8
    }
}

/// Every byte written as `%` and its two upper-case hexadecimal digits.
pub open spec fn percent_encode(bytes: Seq<u8>) -> Seq<u8>
    decreases bytes.len(),
{
    if bytes.len() == 0 {
        Seq::empty()
    } else {
        seq![PERCENT_SIGN, hex_digit(bytes[0] / 16), hex_digit(bytes[0] % 16)] + percent_encode(
            bytes.subrange(1, bytes.len() as int),
        )
    }
}

/// A path component whose every byte is percent-encoded decodes to those bytes.
pub proof fn law_percent_decode_inverts_encoding(bytes: Seq<u8>)
    ensures
        percent_decode(percent_encode(bytes)) == Some(bytes),
    decreases bytes.len(),
{
    if bytes.len() > 0 {
        let rest = bytes.subrange(1, bytes.len() as int);
        let b = bytes[0];
        let e = percent_encode(bytes);
        law_percent_decode_inverts_encoding(rest);
        assert(hex_value(hex_digit(b / 16)) == Some((b / 16) as u8));
        assert(hex_value(hex_digit(b % 16)) == Some((b % 16) as u8));
        assert(e.subrange(3, e.len() as int) =~= percent_encode(rest));
        assert(((b / 16) * 16 + b % 16) as u8 == b);
        assert(seq![b] + rest =~= bytes);
    }
}

proof fn lemma_lane_items_members(items: Seq<BoardItemView>, lane: int)
    ensures
        forall|x: BoardItemView| #[trigger] lane_items(items, lane).contains(x) ==> items.contains(x)
            && item_lane(x) == lane,
    decreases items.len(),
{
    if items.len() > 0 {
        lemma_lane_items_members(items.drop_last(), lane);
        assert forall|x: BoardItemView| #[trigger] lane_items(items, lane).contains(x) implies items.contains(
            x,
        ) && item_lane(x) == lane by {
            if lane_items(items.drop_last(), lane).contains(x) {
                let k = choose|k: int| 0 <= k < items.drop_last().len() && items.drop_last()[k] == x;
                assert(items[k] == x);
            } else {
                assert(x == items.last());
                assert(items[items.len() - 1] == x);
            }
        }
    }
}

/// Every item of a board lane belongs in that lane: blocked items in the
/// blocked lane, degraded in the degraded lane, informational items with
/// reasons or actions in the watch lane.
pub proof fn law_board_lanes_by_level(items: Seq<BoardItemView>, lane: int)
    ensures
        forall|x: BoardItemView| #[trigger] ordered_by_id(lane_items(items, lane)).contains(x)
            ==> items.contains(x) && item_lane(x) == lane,
{
    lemma_lane_items_members(items, lane);
    law_board_lane_ids_unique(lane_items(items, lane));
}

/// With every signal selected, a signals view holds the report's signals unchanged.
pub proof fn law_signals_view_all_unchanged(
    routes: Vec<ProxyOperatorRouteSignal>,
    destinations: Vec<ProxyOperatorDestinationSignal>,
)
    ensures
        route_views(routes@) == routes.deep_view(),
        destination_views(destinations@) == destinations.deep_view(),
{
    assert(route_views(routes@) =~= routes.deep_view());
    assert(destination_views(destinations@) =~= destinations.deep_view());
}


// ---------------------------------------------------------------------------
// Control surface and lifecycle
// ---------------------------------------------------------------------------

/// A reload releases exactly the route isolations it had before and not after.
pub proof fn law_released_isolations_exact(previous: Seq<Seq<char>>, next: Seq<Seq<char>>)
    ensures
        forall|x: Seq<char>|
            #[trigger] released_isolations(previous, next).contains(x) <==> (previous.contains(x)
                && !next.contains(x)),
    decreases previous.len(),
{
    if previous.len() > 0 {
        let rest = previous.drop_last();
        law_released_isolations_exact(rest, next);
        assert forall|x: Seq<char>| #[trigger] previous.contains(x) <==> (rest.contains(x) || x
            == previous.last()) by {
            if previous.contains(x) {
                let k = choose|k: int| 0 <= k < previous.len() && previous[k] == x;
                if k < previous.len() - 1 {
                    assert(rest[k] == x);
                }
            }
            if rest.contains(x) {
                let k = choose|k: int| 0 <= k < rest.len() && rest[k] == x;
                assert(previous[k] == x);
            }
            if x == previous.last() {
                assert(previous[previous.len() - 1] == x);
            }
        }
        let released_rest = released_isolations(rest, next);
        assert forall|x: Seq<char>| #[trigger] released_rest.push(previous.last()).contains(x) <==> (
        released_rest.contains(x) || x == previous.last()) by {
            let pushed = released_rest.push(previous.last());
            if pushed.contains(x) {
                let k = choose|k: int| 0 <= k < pushed.len() && pushed[k] == x;
                if k < released_rest.len() {
                    assert(released_rest[k] == x);
                }
            }
            if released_rest.contains(x) {
                let k = choose|k: int| 0 <= k < released_rest.len() && released_rest[k] == x;
                assert(pushed[k] == x);
            }
            if x == previous.last() {
                assert(pushed[released_rest.len() as int] == x);
            }
        }
    }
}

/// The control listener may bind exactly when its name resolves to at least
/// one address and every address it resolves to is a loopback one.
pub proof fn law_listen_check_loopback_only(listen: Seq<char>, ips: Seq<ListenIp>, texts: Seq<Seq<char>>)
    ensures
        listen_check_view(listen, ips, texts) is Ok <==> (ips.len() > 0 && forall|i: int|
            0 <= i < ips.len() ==> is_loopback_ip(#[trigger] ips[i])),
    decreases ips.len(),
{
    if ips.len() > 1 && is_loopback_ip(ips[0]) {
        law_listen_check_loopback_only(listen, ips.drop_first(), texts.drop_first());
        assert forall|i: int| 0 <= i < ips.len() && (forall|j: int|
            0 <= j < ips.drop_first().len() ==> is_loopback_ip(#[trigger] ips.drop_first()[j])) implies is_loopback_ip(
            #[trigger] ips[i],
        ) by {
            if i > 0 {
                assert(ips[i] == ips.drop_first()[i - 1]);
            }
        }
        assert forall|j: int| 0 <= j < ips.drop_first().len() && (forall|i: int|
            0 <= i < ips.len() ==> is_loopback_ip(#[trigger] ips[i])) implies is_loopback_ip(
            #[trigger] ips.drop_first()[j],
        ) by {
            assert(ips.drop_first()[j] == ips[j + 1]);
        }
    }
}

/// Narrowed to a route, an inspection shows one record, of that route, and
/// no destination's, and it is refused only when the route has no record;
/// narrowed to a destination, the same the other way round; unnarrowed, it
/// shows every record.
pub proof fn law_narrowed_names_scope<R: Identified, D: Identified>(
    routes: Seq<R::V>,
    destinations: Seq<D::V>,
    scope: RecordScope,
)
    ensures
        match scope {
            RecordScope::All => narrowed::<R, D>(routes, destinations, scope) == Some((routes, destinations)),
            RecordScope::Route(id) => match narrowed::<R, D>(routes, destinations, scope) {
                Some((rs, ds)) => rs.len() == 1 && R::id_of(rs[0]) == id@ && routes.contains(rs[0])
                    && ds.len() == 0,
                None => forall|i: int| 0 <= i < routes.len() ==> R::id_of(#[trigger] routes[i]) != id@,
            },
            RecordScope::Destination(id) => match narrowed::<R, D>(routes, destinations, scope) {
                Some((rs, ds)) => ds.len() == 1 && D::id_of(ds[0]) == id@ && destinations.contains(ds[0])
                    && rs.len() == 0,
                None => forall|i: int|
                    0 <= i < destinations.len() ==> D::id_of(#[trigger] destinations[i]) != id@,
            },
        },
{
    match scope {
        RecordScope::All => {},
        RecordScope::Route(id) => {
            lemma_find_by_id::<R>(routes, id@);
        },
        RecordScope::Destination(id) => {
            lemma_find_by_id::<D>(destinations, id@);
        },
    }
}


/// A request head that starts with a method, a space and a path, neither of
/// them empty nor holding white space, and goes on with white space or
/// nothing, is read as that method and that path.
pub proof fn law_request_line_read_back(method: Seq<char>, path: Seq<char>, rest: Seq<char>)
    requires
        method.len() > 0,
        path.len() > 0,
        forall|i: int| 0 <= i < method.len() ==> !is_white_space(#[trigger] method[i]),
        forall|i: int| 0 <= i < path.len() ==> !is_white_space(#[trigger] path[i]),
        rest.len() == 0 || is_white_space(rest[0]),
    ensures
        request_from_text_view(method + " "@ + path + rest) == Ok::<
            (Seq<char>, Seq<char>),
            HttpRequestError,
        >((method, path)),
{
    let t = method + " "@ + path + rest;
    let m = method.len() as int;
    let p = path.len() as int;
    assert(" "@[0] == ' ') by {
        reveal_strlit(" ");
    }
    assert(" "@.len() == 1) by {
        reveal_strlit(" ");
    }
    assert forall|j: int| 0 <= j < m implies #[trigger] t[j] == method[j] by {}
    assert(t[m] == ' ');
    assert forall|j: int| 0 <= j < p implies #[trigger] t[m + 1 + j] == path[j] by {}
    assert forall|j: int| 0 <= j < m + 1 + p implies #[trigger] t[j] != '\n' by {
        if j < m {
            assert(t[j] == method[j]);
            assert(!is_white_space(method[j]));
        } else if j > m {
            assert(t[m + 1 + (j - m - 1)] == path[j - m - 1]);
            assert(!is_white_space(path[j - m - 1]));
        }
    }
    lemma_line_end_at_least(t, m + 1 + p);
    let line = t.take(line_end(t));
    assert forall|j: int| 0 <= j < m implies !is_white_space(#[trigger] line[j]) by {
        assert(line[j] == method[j]);
    }
    assert(is_white_space(line[m]));
    assert forall|j: int| m + 1 <= j < m + 1 + p implies !is_white_space(#[trigger] line[j]) by {
        assert(line[j] == t[m + 1 + (j - m - 1)]);
    }
    lemma_next_index_at(line, 0, false, 0);
    lemma_next_index_at(line, 0, true, m);
    lemma_next_index_at(line, m, false, m + 1);
    if line.len() > m + 1 + p {
        assert(line[m + 1 + p] == rest[0]);
    }
    lemma_next_index_at(line, m + 1, true, m + 1 + p);
    assert(line.subrange(0, m) =~= method);
    assert(line.subrange(m + 1, m + 1 + p) =~= path);
}


proof fn lemma_select_items_exact(items: Seq<BoardItemView>, id: Seq<char>, for_route: bool, with_global: bool)
    ensures
        forall|x: BoardItemView|
            #[trigger] select_items(items, id, for_route, with_global).contains(x) <==> (items.contains(x)
                && item_selected(x, id, for_route, with_global)),
    decreases items.len(),
{
    if items.len() > 0 {
        let rest = items.drop_last();
        lemma_select_items_exact(rest, id, for_route, with_global);
        let prev = select_items(rest, id, for_route, with_global);
        assert forall|x: BoardItemView| #[trigger] items.contains(x) <==> (rest.contains(x) || x
            == items.last()) by {
            if items.contains(x) {
                let k = choose|k: int| 0 <= k < items.len() && items[k] == x;
                if k < items.len() - 1 {
                    assert(rest[k] == x);
                }
            }
            if rest.contains(x) {
                let k = choose|k: int| 0 <= k < rest.len() && rest[k] == x;
                assert(items[k] == x);
            }
            if x == items.last() {
                assert(items[items.len() - 1] == x);
            }
        }
        assert forall|x: BoardItemView| #[trigger] prev.push(items.last()).contains(x) <==> (
        prev.contains(x) || x == items.last()) by {
            let pushed = prev.push(items.last());
            if pushed.contains(x) {
                let k = choose|k: int| 0 <= k < pushed.len() && pushed[k] == x;
                if k < prev.len() {
                    assert(prev[k] == x);
                }
            }
            if prev.contains(x) {
                let k = choose|k: int| 0 <= k < prev.len() && prev[k] == x;
                assert(pushed[k] == x);
            }
            if x == items.last() {
                assert(pushed[prev.len() as int] == x);
            }
        }
    }
}

/// A scope keeps exactly the board items it names and every broker-wide
/// item: narrowing never hides a broker-wide item and never adds one.
pub proof fn law_board_scope_keeps_global_items(items: Seq<BoardItemView>, scope: RecordScope)
    ensures
        forall|x: BoardItemView| #[trigger] board_items_in_scope(items, scope).contains(x) ==> items.contains(x),
        forall|x: BoardItemView|
            items.contains(x) && x.scope == ProxyOperatorBoardScope::Global ==> #[trigger] board_items_in_scope(
                items,
                scope,
            ).contains(x),
        scope matches RecordScope::Route(id) ==> forall|x: BoardItemView|
            #[trigger] board_items_in_scope(items, scope).contains(x) <==> (items.contains(x) && (
            x.scope == ProxyOperatorBoardScope::Global || x.route_id == Some(id@))),
        scope matches RecordScope::Destination(id) ==> forall|x: BoardItemView|
            #[trigger] board_items_in_scope(items, scope).contains(x) <==> (items.contains(x) && (
            x.scope == ProxyOperatorBoardScope::Global || x.destination_id == Some(id@))),
{
    match scope {
        RecordScope::All => {},
        RecordScope::Route(id) => {
            lemma_select_items_exact(items, id@, true, true);
        },
        RecordScope::Destination(id) => {
            lemma_select_items_exact(items, id@, false, true);
        },
    }
}


// ---------------------------------------------------------------------------
// Report state, problematic signals, incident levels and traffic counts
// ---------------------------------------------------------------------------

/// The operator state is blocked exactly when there are blockers. Without
/// blockers it is a warning when there are warnings, when the runtime has
/// frozen traffic, or when it has isolated at least one route; it is healthy
/// exactly when there are no blockers, no warnings, no freeze and no
/// isolated route.
pub proof fn law_operator_state_by_overrides(
    status: UdpProxyStatusSnapshot,
    warnings: Seq<Seq<char>>,
    blockers: Seq<Seq<char>>,
)
    ensures
        (operator_state_view(status, warnings, blockers) == ProxyOperatorState::Blocked) <==> blockers.len() > 0,
        blockers.len() == 0 && warnings.len() > 0 ==> operator_state_view(status, warnings, blockers)
            == ProxyOperatorState::Warning,
        blockers.len() == 0 && (match status.runtime {
            Some(rt) => rt.traffic_frozen,
            None => false,
        }) ==> operator_state_view(status, warnings, blockers) == ProxyOperatorState::Warning,
        blockers.len() == 0 && (match status.runtime {
            Some(rt) => rt.isolated_route_ids@.len() > 0,
            None => false,
        }) ==> operator_state_view(status, warnings, blockers) == ProxyOperatorState::Warning,
        (operator_state_view(status, warnings, blockers) == ProxyOperatorState::Healthy) <==> (
        blockers.len() == 0 && warnings.len() == 0 && match status.runtime {
            Some(rt) => !rt.traffic_frozen && rt.isolated_route_ids@.len() == 0,
            None => true,
        }),
{
    if let Some(rt) = status.runtime {
        assert(rt.isolated_route_ids.deep_view().len() == rt.isolated_route_ids@.len());
    }
}

/// A destination is among the problematic ones exactly when it has a queue
/// backlog, send failures, drops, or an open or half-open breaker.
pub proof fn law_problematic_destinations_by_fields(s: Seq<ProxyOperatorDestinationSignal>)
    ensures
        forall|x: ProxyOperatorDestinationSignal| #[trigger] problematic_destinations(s).contains(x)
            <==> (s.contains(x) && (x.queue_depth > 0 || x.send_failures_total > 0 || x.drops_total
            > 0 || x.breaker_state == Some(BreakerStateSnapshot::Open) || x.breaker_state == Some(
            BreakerStateSnapshot::HalfOpen))),
        forall|x: ProxyOperatorDestinationSignal|
            s.contains(x) && x.queue_depth > 0 ==> #[trigger] problematic_destinations(s).contains(x),
{
    law_problematic_destinations_exact(s);
}

/// A route is among the problematic ones exactly when it is inactive,
/// isolated, without direct UDP fallback, has configuration warnings, or has
/// dispatch or transform failures.
pub proof fn law_problematic_routes_by_fields(s: Seq<ProxyOperatorRouteSignal>)
    ensures
        forall|x: ProxyOperatorRouteSignal| #[trigger] problematic_routes(s).contains(x) <==> (s.contains(
            x,
        ) && (!x.active || x.isolated || !x.direct_udp_fallback_available
            || x.config_warnings@.len() > 0 || x.dispatch_failures_total > 0
            || x.transform_failures_total > 0)),
{
    law_problematic_routes_exact(s);
}

/// A destination's incident is blocked exactly when its breaker is open, and
/// degraded otherwise, a half-open breaker included.
pub proof fn law_destination_incident_level(signal: ProxyOperatorDestinationSignal)
    ensures
        (destination_cluster_view(signal).level == ProxyOperatorIncidentLevel::Blocked) <==> signal.breaker_state
            == Some(BreakerStateSnapshot::Open),
        signal.breaker_state != Some(BreakerStateSnapshot::Open) ==> destination_cluster_view(signal).level
            == ProxyOperatorIncidentLevel::Degraded,
        destination_cluster_view(signal).destination_id == Some(signal.destination_id@),
{
}

proof fn lemma_destination_count_filter(ds: Seq<DestinationRuntimeView>)
    ensures
        destination_count(ds, 0) == ds.filter(|d: DestinationRuntimeView| d.queue_depth > 0).len(),
        destination_count(ds, 1) == ds.filter(
            |d: DestinationRuntimeView| d.breaker_state == Some(BreakerStateSnapshot::Open),
        ).len(),
        destination_count(ds, 2) == ds.filter(
            |d: DestinationRuntimeView| d.breaker_state == Some(BreakerStateSnapshot::HalfOpen),
        ).len(),
    decreases ds.len(),
{
    reveal_with_fuel(Seq::<DestinationRuntimeView>::filter, 1);
    if ds.len() > 0 {
        lemma_destination_count_filter(ds.drop_last());
    }
}

/// A traffic summary counts as having a backlog, an open breaker or a
/// half-open breaker exactly the runtime destinations with a queue depth
/// above zero, with an open breaker, and with a half-open breaker.
pub proof fn law_traffic_destination_counts(rt: UdpProxyRuntimeStatus, r: ProxyOperatorTrafficSummary)
    requires
        summarizes_traffic(rt, r),
    ensures
        r.destinations_with_backlog == rt.destinations.deep_view().filter(
            |d: DestinationRuntimeView| d.queue_depth > 0,
        ).len(),
        r.destinations_with_open_breakers == rt.destinations.deep_view().filter(
            |d: DestinationRuntimeView| d.breaker_state == Some(BreakerStateSnapshot::Open),
        ).len(),
        r.destinations_with_half_open_breakers == rt.destinations.deep_view().filter(
            |d: DestinationRuntimeView| d.breaker_state == Some(BreakerStateSnapshot::HalfOpen),
        ).len(),
{
    lemma_destination_count_filter(rt.destinations.deep_view());
}


// ---------------------------------------------------------------------------
// Routing of the plain operator views
// ---------------------------------------------------------------------------

/// A request target: a path, and a `?` and the query when there is one.
pub open spec fn target_with(path: Seq<u8>, query: Option<Seq<u8>>) -> Seq<u8> {
    match query {
        Some(q) => path + seq![63u8] + q,
        None => path,
    }
}

proof fn lemma_ascii_target(p: Seq<char>, query: Option<Seq<u8>>)
    requires
        vstd::utf8::is_ascii_chars(p),
        forall|i: int| 0 <= i < p.len() ==> #[trigger] p[i] != '?',
    ensures
        target_path(target_with(utf8(p), query)) == utf8(p),
        target_query(target_with(utf8(p), query)) == query,
{
    vstd::utf8::is_ascii_chars_encode_utf8(p);
    let b = utf8(p);
    let t = target_with(b, query);
    assert forall|j: int| 0 <= j < b.len() implies #[trigger] t[j] != 63u8 by {
        assert(t[j] == b[j]);
        assert(b[j] == p[j] as u8);
    }
    match query {
        Some(q) => {
            assert(t[b.len() as int] == 63u8);
            lemma_first_index_of(t, 63u8, b.len() as int);
            assert(t.subrange(0, b.len() as int) =~= b);
            assert(t.subrange(b.len() as int + 1, t.len() as int) =~= q);
        },
        None => {
            lemma_first_index_of(t, 63u8, b.len() as int);
            assert(t.subrange(0, b.len() as int) =~= b);
        },
    }
}

proof fn lemma_utf8_differ(a: Seq<char>, b: Seq<char>, i: int)
    requires
        a.len() != b.len() || (0 <= i < a.len() && i < b.len() && a[i] != b[i]),
    ensures
        utf8(a) != utf8(b),
{
    lemma_utf8_injective(a, b);
}

proof fn lemma_route_status(query: Option<Seq<u8>>)
    ensures
        control_route_plan(utf8("GET"@), target_with(utf8("/status"@), query)) == RoutePlan::Status,
{
    reveal_strlit("/status");
    assert(vstd::utf8::is_ascii_chars("/status"@));
    assert(forall|i: int| 0 <= i < "/status"@.len() ==> #[trigger] "/status"@[i] != '?');
    lemma_ascii_target("/status"@, query);
    reveal_strlit("/dashboard");
    lemma_utf8_differ("/status"@, "/dashboard"@, -1);
    reveal_strlit("/dashboard/");
    lemma_utf8_differ("/status"@, "/dashboard/"@, -1);
    reveal_strlit("/dashboard/app.css");
    lemma_utf8_differ("/status"@, "/dashboard/app.css"@, -1);
    reveal_strlit("/dashboard/app.js");
    lemma_utf8_differ("/status"@, "/dashboard/app.js"@, -1);
    reveal_strlit("/dashboard/dashboard-state.js");
    lemma_utf8_differ("/status"@, "/dashboard/dashboard-state.js"@, -1);
    reveal_strlit("/dashboard/dashboard-render.js");
    lemma_utf8_differ("/status"@, "/dashboard/dashboard-render.js"@, -1);
    reveal_strlit("/dashboard/data");
    lemma_utf8_differ("/status"@, "/dashboard/data"@, -1);
}

proof fn lemma_route_report(query: Option<Seq<u8>>)
    ensures
        control_route_plan(utf8("GET"@), target_with(utf8("/report"@), query)) == RoutePlan::Report,
{
    reveal_strlit("/report");
    assert(vstd::utf8::is_ascii_chars("/report"@));
    assert(forall|i: int| 0 <= i < "/report"@.len() ==> #[trigger] "/report"@[i] != '?');
    lemma_ascii_target("/report"@, query);
    reveal_strlit("/dashboard");
    lemma_utf8_differ("/report"@, "/dashboard"@, -1);
    reveal_strlit("/dashboard/");
    lemma_utf8_differ("/report"@, "/dashboard/"@, -1);
    reveal_strlit("/dashboard/app.css");
    lemma_utf8_differ("/report"@, "/dashboard/app.css"@, -1);
    reveal_strlit("/dashboard/app.js");
    lemma_utf8_differ("/report"@, "/dashboard/app.js"@, -1);
    reveal_strlit("/dashboard/dashboard-state.js");
    lemma_utf8_differ("/report"@, "/dashboard/dashboard-state.js"@, -1);
    reveal_strlit("/dashboard/dashboard-render.js");
    lemma_utf8_differ("/report"@, "/dashboard/dashboard-render.js"@, -1);
    reveal_strlit("/dashboard/data");
    lemma_utf8_differ("/report"@, "/dashboard/data"@, -1);
    reveal_strlit("/status");
    lemma_utf8_differ("/report"@, "/status"@, 1);
}

proof fn lemma_route_overview(query: Option<Seq<u8>>)
    ensures
        control_route_plan(utf8("GET"@), target_with(utf8("/overview"@), query)) == RoutePlan::Overview,
{
    reveal_strlit("/overview");
    assert(vstd::utf8::is_ascii_chars("/overview"@));
    assert(forall|i: int| 0 <= i < "/overview"@.len() ==> #[trigger] "/overview"@[i] != '?');
    lemma_ascii_target("/overview"@, query);
    reveal_strlit("/dashboard");
    lemma_utf8_differ("/overview"@, "/dashboard"@, -1);
    reveal_strlit("/dashboard/");
    lemma_utf8_differ("/overview"@, "/dashboard/"@, -1);
    reveal_strlit("/dashboard/app.css");
    lemma_utf8_differ("/overview"@, "/dashboard/app.css"@, -1);
    reveal_strlit("/dashboard/app.js");
    lemma_utf8_differ("/overview"@, "/dashboard/app.js"@, -1);
    reveal_strlit("/dashboard/dashboard-state.js");
    lemma_utf8_differ("/overview"@, "/dashboard/dashboard-state.js"@, -1);
    reveal_strlit("/dashboard/dashboard-render.js");
    lemma_utf8_differ("/overview"@, "/dashboard/dashboard-render.js"@, -1);
    reveal_strlit("/dashboard/data");
    lemma_utf8_differ("/overview"@, "/dashboard/data"@, -1);
    reveal_strlit("/status");
    lemma_utf8_differ("/overview"@, "/status"@, -1);
    reveal_strlit("/report");
    lemma_utf8_differ("/overview"@, "/report"@, -1);
}

proof fn lemma_route_readiness(query: Option<Seq<u8>>)
    ensures
        control_route_plan(utf8("GET"@), target_with(utf8("/readiness"@), query)) == RoutePlan::Readiness,
{
    reveal_strlit("/readiness");
    assert(vstd::utf8::is_ascii_chars("/readiness"@));
    assert(forall|i: int| 0 <= i < "/readiness"@.len() ==> #[trigger] "/readiness"@[i] != '?');
    lemma_ascii_target("/readiness"@, query);
    reveal_strlit("/dashboard");
    lemma_utf8_differ("/readiness"@, "/dashboard"@, 1);
    reveal_strlit("/dashboard/");
    lemma_utf8_differ("/readiness"@, "/dashboard/"@, -1);
    reveal_strlit("/dashboard/app.css");
    lemma_utf8_differ("/readiness"@, "/dashboard/app.css"@, -1);
    reveal_strlit("/dashboard/app.js");
    lemma_utf8_differ("/readiness"@, "/dashboard/app.js"@, -1);
    reveal_strlit("/dashboard/dashboard-state.js");
    lemma_utf8_differ("/readiness"@, "/dashboard/dashboard-state.js"@, -1);
    reveal_strlit("/dashboard/dashboard-render.js");
    lemma_utf8_differ("/readiness"@, "/dashboard/dashboard-render.js"@, -1);
    reveal_strlit("/dashboard/data");
    lemma_utf8_differ("/readiness"@, "/dashboard/data"@, -1);
    reveal_strlit("/status");
    lemma_utf8_differ("/readiness"@, "/status"@, -1);
    reveal_strlit("/report");
    lemma_utf8_differ("/readiness"@, "/report"@, -1);
    reveal_strlit("/overview");
    lemma_utf8_differ("/readiness"@, "/overview"@, -1);
}

proof fn lemma_route_attention(query: Option<Seq<u8>>)
    ensures
        control_route_plan(utf8("GET"@), target_with(utf8("/attention"@), query)) == RoutePlan::Attention,
{
    reveal_strlit("/attention");
    assert(vstd::utf8::is_ascii_chars("/attention"@));
    assert(forall|i: int| 0 <= i < "/attention"@.len() ==> #[trigger] "/attention"@[i] != '?');
    lemma_ascii_target("/attention"@, query);
    reveal_strlit("/dashboard");
    lemma_utf8_differ("/attention"@, "/dashboard"@, 1);
    reveal_strlit("/dashboard/");
    lemma_utf8_differ("/attention"@, "/dashboard/"@, -1);
    reveal_strlit("/dashboard/app.css");
    lemma_utf8_differ("/attention"@, "/dashboard/app.css"@, -1);
    reveal_strlit("/dashboard/app.js");
    lemma_utf8_differ("/attention"@, "/dashboard/app.js"@, -1);
    reveal_strlit("/dashboard/dashboard-state.js");
    lemma_utf8_differ("/attention"@, "/dashboard/dashboard-state.js"@, -1);
    reveal_strlit("/dashboard/dashboard-render.js");
    lemma_utf8_differ("/attention"@, "/dashboard/dashboard-render.js"@, -1);
    reveal_strlit("/dashboard/data");
    lemma_utf8_differ("/attention"@, "/dashboard/data"@, -1);
    reveal_strlit("/status");
    lemma_utf8_differ("/attention"@, "/status"@, -1);
    reveal_strlit("/report");
    lemma_utf8_differ("/attention"@, "/report"@, -1);
    reveal_strlit("/overview");
    lemma_utf8_differ("/attention"@, "/overview"@, -1);
    reveal_strlit("/readiness");
    lemma_utf8_differ("/attention"@, "/readiness"@, 1);
    reveal_strlit("/readyz");
    lemma_utf8_differ("/attention"@, "/readyz"@, -1);
    reveal_strlit("/snapshot");
    lemma_utf8_differ("/attention"@, "/snapshot"@, -1);
    reveal_strlit("/diagnostics");
    lemma_utf8_differ("/attention"@, "/diagnostics"@, -1);
}

proof fn lemma_route_overrides(query: Option<Seq<u8>>)
    ensures
        control_route_plan(utf8("GET"@), target_with(utf8("/overrides"@), query)) == RoutePlan::Overrides,
{
    reveal_strlit("/overrides");
    assert(vstd::utf8::is_ascii_chars("/overrides"@));
    assert(forall|i: int| 0 <= i < "/overrides"@.len() ==> #[trigger] "/overrides"@[i] != '?');
    lemma_ascii_target("/overrides"@, query);
    reveal_strlit("/dashboard");
    lemma_utf8_differ("/overrides"@, "/dashboard"@, 1);
    reveal_strlit("/dashboard/");
    lemma_utf8_differ("/overrides"@, "/dashboard/"@, -1);
    reveal_strlit("/dashboard/app.css");
    lemma_utf8_differ("/overrides"@, "/dashboard/app.css"@, -1);
    reveal_strlit("/dashboard/app.js");
    lemma_utf8_differ("/overrides"@, "/dashboard/app.js"@, -1);
    reveal_strlit("/dashboard/dashboard-state.js");
    lemma_utf8_differ("/overrides"@, "/dashboard/dashboard-state.js"@, -1);
    reveal_strlit("/dashboard/dashboard-render.js");
    lemma_utf8_differ("/overrides"@, "/dashboard/dashboard-render.js"@, -1);
    reveal_strlit("/dashboard/data");
    lemma_utf8_differ("/overrides"@, "/dashboard/data"@, -1);
    reveal_strlit("/status");
    lemma_utf8_differ("/overrides"@, "/status"@, -1);
    reveal_strlit("/report");
    lemma_utf8_differ("/overrides"@, "/report"@, -1);
    reveal_strlit("/overview");
    lemma_utf8_differ("/overrides"@, "/overview"@, -1);
    reveal_strlit("/readiness");
    lemma_utf8_differ("/overrides"@, "/readiness"@, 1);
    reveal_strlit("/readyz");
    lemma_utf8_differ("/overrides"@, "/readyz"@, -1);
    reveal_strlit("/snapshot");
    lemma_utf8_differ("/overrides"@, "/snapshot"@, -1);
    reveal_strlit("/diagnostics");
    lemma_utf8_differ("/overrides"@, "/diagnostics"@, -1);
    reveal_strlit("/attention");
    lemma_utf8_differ("/overrides"@, "/attention"@, 1);
    reveal_strlit("/incidents");
    lemma_utf8_differ("/overrides"@, "/incidents"@, 1);
    reveal_strlit("/handoff");
    lemma_utf8_differ("/overrides"@, "/handoff"@, -1);
    reveal_strlit("/triage");
    lemma_utf8_differ("/overrides"@, "/triage"@, -1);
    reveal_strlit("/casebook");
    lemma_utf8_differ("/overrides"@, "/casebook"@, -1);
    reveal_strlit("/board");
    lemma_utf8_differ("/overrides"@, "/board"@, -1);
    reveal_strlit("/timeline");
    lemma_utf8_differ("/overrides"@, "/timeline"@, -1);
    reveal_strlit("/trace");
    lemma_utf8_differ("/overrides"@, "/trace"@, -1);
    reveal_strlit("/focus");
    lemma_utf8_differ("/overrides"@, "/focus"@, -1);
    reveal_strlit("/lens");
    lemma_utf8_differ("/overrides"@, "/lens"@, -1);
    reveal_strlit("/brief");
    lemma_utf8_differ("/overrides"@, "/brief"@, -1);
    reveal_strlit("/dossier");
    lemma_utf8_differ("/overrides"@, "/dossier"@, -1);
}

proof fn lemma_route_blockers(query: Option<Seq<u8>>)
    ensures
        control_route_plan(utf8("GET"@), target_with(utf8("/blockers"@), query)) == RoutePlan::Blockers,
{
    reveal_strlit("/blockers");
    assert(vstd::utf8::is_ascii_chars("/blockers"@));
    assert(forall|i: int| 0 <= i < "/blockers"@.len() ==> #[trigger] "/blockers"@[i] != '?');
    lemma_ascii_target("/blockers"@, query);
    reveal_strlit("/dashboard");
    lemma_utf8_differ("/blockers"@, "/dashboard"@, -1);
    reveal_strlit("/dashboard/");
    lemma_utf8_differ("/blockers"@, "/dashboard/"@, -1);
    reveal_strlit("/dashboard/app.css");
    lemma_utf8_differ("/blockers"@, "/dashboard/app.css"@, -1);
    reveal_strlit("/dashboard/app.js");
    lemma_utf8_differ("/blockers"@, "/dashboard/app.js"@, -1);
    reveal_strlit("/dashboard/dashboard-state.js");
    lemma_utf8_differ("/blockers"@, "/dashboard/dashboard-state.js"@, -1);
    reveal_strlit("/dashboard/dashboard-render.js");
    lemma_utf8_differ("/blockers"@, "/dashboard/dashboard-render.js"@, -1);
    reveal_strlit("/dashboard/data");
    lemma_utf8_differ("/blockers"@, "/dashboard/data"@, -1);
    reveal_strlit("/status");
    lemma_utf8_differ("/blockers"@, "/status"@, -1);
    reveal_strlit("/report");
    lemma_utf8_differ("/blockers"@, "/report"@, -1);
    reveal_strlit("/overview");
    lemma_utf8_differ("/blockers"@, "/overview"@, 1);
    reveal_strlit("/readiness");
    lemma_utf8_differ("/blockers"@, "/readiness"@, -1);
    reveal_strlit("/readyz");
    lemma_utf8_differ("/blockers"@, "/readyz"@, -1);
    reveal_strlit("/snapshot");
    lemma_utf8_differ("/blockers"@, "/snapshot"@, 1);
    reveal_strlit("/diagnostics");
    lemma_utf8_differ("/blockers"@, "/diagnostics"@, -1);
    reveal_strlit("/attention");
    lemma_utf8_differ("/blockers"@, "/attention"@, -1);
    reveal_strlit("/incidents");
    lemma_utf8_differ("/blockers"@, "/incidents"@, -1);
    reveal_strlit("/handoff");
    lemma_utf8_differ("/blockers"@, "/handoff"@, -1);
    reveal_strlit("/triage");
    lemma_utf8_differ("/blockers"@, "/triage"@, -1);
    reveal_strlit("/casebook");
    lemma_utf8_differ("/blockers"@, "/casebook"@, 1);
    reveal_strlit("/board");
    lemma_utf8_differ("/blockers"@, "/board"@, -1);
    reveal_strlit("/timeline");
    lemma_utf8_differ("/blockers"@, "/timeline"@, 1);
    reveal_strlit("/trace");
    lemma_utf8_differ("/blockers"@, "/trace"@, -1);
    reveal_strlit("/focus");
    lemma_utf8_differ("/blockers"@, "/focus"@, -1);
    reveal_strlit("/lens");
    lemma_utf8_differ("/blockers"@, "/lens"@, -1);
    reveal_strlit("/brief");
    lemma_utf8_differ("/blockers"@, "/brief"@, -1);
    reveal_strlit("/dossier");
    lemma_utf8_differ("/blockers"@, "/dossier"@, -1);
    reveal_strlit("/overrides");
    lemma_utf8_differ("/blockers"@, "/overrides"@, -1);
    reveal_strlit("/signals");
    lemma_utf8_differ("/blockers"@, "/signals"@, -1);
}

/// A `GET` of `/status`, `/report`, `/overview`, `/readiness`, `/attention`,
/// `/overrides` or `/blockers` asks for that view, whatever query follows,
/// and no two of them ask for the same one.
pub proof fn law_plain_views_route_to_themselves(query: Option<Seq<u8>>)
    ensures
        control_route_plan(utf8("GET"@), target_with(utf8("/status"@), query)) == RoutePlan::Status,
        control_route_plan(utf8("GET"@), target_with(utf8("/report"@), query)) == RoutePlan::Report,
        control_route_plan(utf8("GET"@), target_with(utf8("/overview"@), query)) == RoutePlan::Overview,
        control_route_plan(utf8("GET"@), target_with(utf8("/readiness"@), query)) == RoutePlan::Readiness,
        control_route_plan(utf8("GET"@), target_with(utf8("/attention"@), query)) == RoutePlan::Attention,
        control_route_plan(utf8("GET"@), target_with(utf8("/overrides"@), query)) == RoutePlan::Overrides,
        control_route_plan(utf8("GET"@), target_with(utf8("/blockers"@), query)) == RoutePlan::Blockers,
{
    lemma_route_status(query);
    lemma_route_report(query);
    lemma_route_overview(query);
    lemma_route_readiness(query);
    lemma_route_attention(query);
    lemma_route_overrides(query);
    lemma_route_blockers(query);
}

} // verus!
