//! The incident digest: configuration blockers, frozen traffic and every
//! problematic route and destination as one ordered list of incident clusters.
use vstd::prelude::*;

use crate::model::{
    ProxyOperatorSuggestedAction, ProxyOperatorSuggestedActionKind, SuggestedActionView,
};
use crate::policy::{
    state_label, state_label_of, BreakerStateSnapshot, ProxyOperatorDestinationSignal,
    ProxyOperatorRouteSignal,
};
use crate::snapshot::ProxyOperatorSnapshot;
use crate::sorting::{entry_views, sort_by_key, sort_entries, KeyView, SortKey};
use crate::text::{count_string, decimal, decimal_string, join2, join3, owned, utf8};
use crate::values::{duplicate_all, lemma_map_prefix_push, lemma_map_push, push_value, OperatorValue};

verus! {

broadcast use vstd::slice::group_slice_axioms;

/// Severity of an incident; blocked incidents sort first.
#[derive(Clone, Copy, Debug, PartialEq, Eq, Structural)]
pub enum ProxyOperatorIncidentLevel {
    Blocked,
    Degraded,
}

/// What an incident is about.
#[derive(Clone, Copy, Debug, PartialEq, Eq, Structural)]
pub enum ProxyOperatorIncidentScope {
    Global,
    Config,
    Route,
    Destination,
}

/// One incident with its reasons and the action that addresses it.
#[derive(Clone, Debug)]
pub struct ProxyOperatorIncidentCluster {
    pub id: String,
    pub scope: ProxyOperatorIncidentScope,
    pub level: ProxyOperatorIncidentLevel,
    pub title: String,
    pub summary: String,
    pub route_id: Option<String>,
    pub destination_id: Option<String>,
    pub reasons: Vec<String>,
    pub action: Option<ProxyOperatorSuggestedAction>,
}

/// The contents of an incident cluster.
pub struct IncidentClusterView {
    pub id: Seq<char>,
    pub scope: ProxyOperatorIncidentScope,
    pub level: ProxyOperatorIncidentLevel,
    pub title: Seq<char>,
    pub summary: Seq<char>,
    pub route_id: Option<Seq<char>>,
    pub destination_id: Option<Seq<char>>,
    pub reasons: Seq<Seq<char>>,
    pub action: Option<SuggestedActionView>,
}

impl DeepView for ProxyOperatorIncidentCluster {
    type V = IncidentClusterView;

    open spec fn deep_view(&self) -> IncidentClusterView {
        IncidentClusterView {
            id: self.id@,
            scope: self.scope,
            level: self.level,
            title: self.title@,
            summary: self.summary@,
            route_id: self.route_id.deep_view(),
            destination_id: self.destination_id.deep_view(),
            reasons: self.reasons.deep_view(),
            action: self.action.deep_view(),
        }
    }
}

impl OperatorValue for ProxyOperatorIncidentCluster {
    fn duplicate(&self) -> (r: Self) {
        ProxyOperatorIncidentCluster {
            id: self.id.duplicate(),
            scope: self.scope,
            level: self.level,
            title: self.title.duplicate(),
            summary: self.summary.duplicate(),
            route_id: self.route_id.duplicate(),
            destination_id: self.destination_id.duplicate(),
            reasons: duplicate_all(&self.reasons),
            action: self.action.duplicate(),
        }
    }

    fn same_value(&self, other: &Self) -> (r: bool) {
        self.id.same_value(&other.id) && self.scope == other.scope && self.level == other.level
            && self.title.same_value(&other.title) && self.summary.same_value(&other.summary)
            && self.route_id.same_value(&other.route_id) && self.destination_id.same_value(
            &other.destination_id,
        ) && self.reasons.same_value(&other.reasons) && self.action.same_value(&other.action)
    }
}

/// The digest: clusters in order, and how many are blocked and degraded.
#[derive(Clone, Debug, Default)]
pub struct ProxyOperatorIncidentDigest {
    pub state: String,
    pub blocked_count: usize,
    pub degraded_count: usize,
    pub clusters: Vec<ProxyOperatorIncidentCluster>,
}

/// Rank of a scope in the digest order.
pub open spec fn scope_rank(scope: ProxyOperatorIncidentScope) -> u64 {
    match scope {
        ProxyOperatorIncidentScope::Global => 0,
        ProxyOperatorIncidentScope::Config => 1,
        ProxyOperatorIncidentScope::Route => 2,
        ProxyOperatorIncidentScope::Destination => 3,
    }
}

/// Rank of a level in the digest order.
pub open spec fn level_rank(level: ProxyOperatorIncidentLevel) -> u64 {
    match level {
        ProxyOperatorIncidentLevel::Blocked => 0,
        ProxyOperatorIncidentLevel::Degraded => 1,
    }
}

impl ProxyOperatorIncidentCluster {
    /// Position of this cluster's scope in the digest order.
    pub fn scope_order(&self) -> (r: u8)
        ensures
            r as u64 == scope_rank(self.scope),
    {
        match self.scope {
            ProxyOperatorIncidentScope::Global => 0,
            ProxyOperatorIncidentScope::Config => 1,
            ProxyOperatorIncidentScope::Route => 2,
            ProxyOperatorIncidentScope::Destination => 3,
        }
    }
}

/// ASCII letters in lower case, every other byte unchanged, as
/// `str::to_ascii_lowercase` maps them.
pub open spec fn ascii_lowercase(bytes: Seq<u8>) -> Seq<u8> {
    bytes.map_values(|b: u8| if 65 <= b <= 90 { (b + 32) as u8 } else { b })
}

/// Lower-cases the ASCII letters of a text's bytes.
pub fn lowercase_bytes(text: &str) -> (r: Vec<u8>)
    ensures
        r@ == ascii_lowercase(utf8(text@)),
{
    let bytes = text.as_bytes();
    let mut out: Vec<u8> = Vec::new();
    let mut i: usize = 0;
    while i < bytes.len()
        invariant
            i <= bytes@.len(),
            out@ == ascii_lowercase(bytes@).subrange(0, i as int),
        decreases bytes@.len() - i,
    {
        let b = bytes[i];
        let lowered = if 65 <= b && b <= 90 {
            b + 32
        } else {
            b
        };
        out.push(lowered);
        assert(out@ =~= ascii_lowercase(bytes@).subrange(0, i + 1));
        i = i + 1;
    }
    assert(ascii_lowercase(bytes@).subrange(0, i as int) =~= ascii_lowercase(bytes@));
    out
}

/// The digest order of a cluster: level, then scope, then lower-cased id.
pub open spec fn cluster_key(c: IncidentClusterView) -> KeyView {
    (level_rank(c.level), scope_rank(c.scope), ascii_lowercase(utf8(c.id)))
}

fn keyed_cluster(cluster: ProxyOperatorIncidentCluster) -> (r: (SortKey, ProxyOperatorIncidentCluster))
    ensures
        (crate::sorting::key_view(r.0), r.1.deep_view()) == (
            cluster_key(cluster.deep_view()),
            cluster.deep_view(),
        ),
{
    let rank = match cluster.level {
        ProxyOperatorIncidentLevel::Blocked => 0,
        ProxyOperatorIncidentLevel::Degraded => 1,
    };
    let order = cluster.scope_order() as u64;
    let text = lowercase_bytes(cluster.id.as_str());
    (SortKey { rank, order, text }, cluster)
}

/// The configuration-blockers cluster.
pub open spec fn config_cluster_view(blockers: Seq<Seq<char>>) -> IncidentClusterView {
    IncidentClusterView {
        id: "config-blockers"@,
        scope: ProxyOperatorIncidentScope::Config,
        level: ProxyOperatorIncidentLevel::Blocked,
        title: "Configuration blockers"@,
        summary: decimal(blockers.len()) + " blocker(s) are preventing a clean ready state."@,
        route_id: None,
        destination_id: None,
        reasons: blockers,
        action: None,
    }
}

fn config_cluster(blockers: &Vec<String>) -> (r: ProxyOperatorIncidentCluster)
    ensures
        r.deep_view() == config_cluster_view(blockers.deep_view()),
{
    ProxyOperatorIncidentCluster {
        id: owned("config-blockers"),
        scope: ProxyOperatorIncidentScope::Config,
        level: ProxyOperatorIncidentLevel::Blocked,
        title: owned("Configuration blockers"),
        summary: join2(
            count_string(blockers.len()).as_str(),
            " blocker(s) are preventing a clean ready state.",
        ),
        route_id: None,
        destination_id: None,
        reasons: duplicate_all(blockers),
        action: None,
    }
}

/// The frozen-traffic cluster.
pub open spec fn frozen_cluster_view() -> IncidentClusterView {
    IncidentClusterView {
        id: "traffic-frozen"@,
        scope: ProxyOperatorIncidentScope::Global,
        level: ProxyOperatorIncidentLevel::Degraded,
        title: "Traffic frozen"@,
        summary: "Live dispatch is paused under an operator override."@,
        route_id: None,
        destination_id: None,
        reasons: seq![
            "traffic is currently frozen by operator override"@,
            "live packets remain queued until thaw"@,
        ],
        action: Some(
            SuggestedActionView {
                kind: ProxyOperatorSuggestedActionKind::ThawTraffic,
                label: "Thaw traffic"@,
                route_id: None,
                destination_id: None,
            },
        ),
    }
}

fn frozen_cluster() -> (r: ProxyOperatorIncidentCluster)
    ensures
        r.deep_view() == frozen_cluster_view(),
{
    let mut reasons: Vec<String> = Vec::new();
    reasons.push(owned("traffic is currently frozen by operator override"));
    reasons.push(owned("live packets remain queued until thaw"));
    let r = ProxyOperatorIncidentCluster {
        id: owned("traffic-frozen"),
        scope: ProxyOperatorIncidentScope::Global,
        level: ProxyOperatorIncidentLevel::Degraded,
        title: owned("Traffic frozen"),
        summary: owned("Live dispatch is paused under an operator override."),
        route_id: None,
        destination_id: None,
        reasons,
        action: Some(
            ProxyOperatorSuggestedAction {
                kind: ProxyOperatorSuggestedActionKind::ThawTraffic,
                label: owned("Thaw traffic"),
                route_id: None,
                destination_id: None,
            },
        ),
    };
    assert(r.deep_view().reasons =~= frozen_cluster_view().reasons);
    r
}

/// Why a problematic route is in the digest.
pub open spec fn route_reasons_view(signal: ProxyOperatorRouteSignal) -> Seq<Seq<char>> {
    let found = (if signal.isolated {
        seq!["route is currently isolated"@]
    } else {
        Seq::empty()
    }) + (if !signal.direct_udp_fallback_available {
        seq!["route is missing direct UDP fallback coverage"@]
    } else {
        Seq::empty()
    }) + signal.config_warnings.deep_view() + (if signal.dispatch_failures_total > 0 {
        seq!["dispatch failures observed ("@ + decimal(signal.dispatch_failures_total as nat) + ")"@]
    } else {
        Seq::empty()
    }) + (if signal.transform_failures_total > 0 {
        seq![
            "transform failures observed ("@ + decimal(signal.transform_failures_total as nat)
                + ")"@,
        ]
    } else {
        Seq::empty()
    });
    if found.len() == 0 {
        seq!["route is marked problematic by operator policy"@]
    } else {
        found
    }
}

/// Lists why a problematic route is in the digest.
pub fn route_reasons(signal: &ProxyOperatorRouteSignal) -> (r: Vec<String>)
    ensures
        r.deep_view() == route_reasons_view(*signal),
{
    let mut reasons: Vec<String> = Vec::new();
    let ghost mut expected: Seq<Seq<char>> = Seq::empty();
    if signal.isolated {
        reasons.push(owned("route is currently isolated"));
        proof {
            expected = expected.push("route is currently isolated"@);
        }
    }
    if !signal.direct_udp_fallback_available {
        reasons.push(owned("route is missing direct UDP fallback coverage"));
        proof {
            expected = expected.push("route is missing direct UDP fallback coverage"@);
        }
    }
    assert(reasons.deep_view() =~= expected);
    let ghost before = expected;
    let warnings = duplicate_all(&signal.config_warnings);
    let mut i: usize = 0;
    while i < warnings.len()
        invariant
            i <= warnings@.len(),
            warnings.deep_view() == signal.config_warnings.deep_view(),
            reasons.deep_view() == before + warnings.deep_view().subrange(0, i as int),
        decreases warnings@.len() - i,
    {
        push_value(&mut reasons, warnings[i].duplicate());
        assert(warnings.deep_view().subrange(0, i + 1) =~= warnings.deep_view().subrange(
            0,
            i as int,
        ).push(warnings.deep_view()[i as int]));
        assert(reasons.deep_view() =~= before + warnings.deep_view().subrange(0, i + 1));
        i = i + 1;
    }
    assert(warnings.deep_view().subrange(0, i as int) =~= warnings.deep_view());
    let ghost middle = reasons.deep_view();
    if signal.dispatch_failures_total > 0 {
        reasons.push(
            join3(
                "dispatch failures observed (",
                decimal_string(signal.dispatch_failures_total).as_str(),
                ")",
            ),
        );
    }
    let ghost after_dispatch = reasons.deep_view();
    if signal.transform_failures_total > 0 {
        reasons.push(
            join3(
                "transform failures observed (",
                decimal_string(signal.transform_failures_total).as_str(),
                ")",
            ),
        );
    }
    proof {
        let d = if signal.dispatch_failures_total > 0 {
            seq!["dispatch failures observed ("@ + decimal(signal.dispatch_failures_total as nat) + ")"@]
        } else {
            Seq::<Seq<char>>::empty()
        };
        let t = if signal.transform_failures_total > 0 {
            seq![
                "transform failures observed ("@ + decimal(signal.transform_failures_total as nat)
                    + ")"@,
            ]
        } else {
            Seq::<Seq<char>>::empty()
        };
        assert(after_dispatch =~= middle + d);
        assert(reasons.deep_view() =~= middle + d + t);
    }
    if reasons.len() == 0 {
        reasons.push(owned("route is marked problematic by operator policy"));
        assert(reasons.deep_view() =~= seq!["route is marked problematic by operator policy"@]);
    }
    reasons
}

/// Why a problematic destination is in the digest.
pub open spec fn destination_reasons_view(signal: ProxyOperatorDestinationSignal) -> Seq<Seq<char>> {
    let found = (if signal.queue_depth > 0 {
        seq!["queue backlog observed ("@ + decimal(signal.queue_depth as nat) + ")"@]
    } else {
        Seq::empty()
    }) + (if signal.send_failures_total > 0 {
        seq!["send failures observed ("@ + decimal(signal.send_failures_total as nat) + ")"@]
    } else {
        Seq::empty()
    }) + (if signal.drops_total > 0 {
        seq!["drops observed ("@ + decimal(signal.drops_total as nat) + ")"@]
    } else {
        Seq::empty()
    }) + (match signal.breaker_state {
        Some(BreakerStateSnapshot::Open) => seq!["destination breaker is open"@],
        Some(BreakerStateSnapshot::HalfOpen) => seq!["destination breaker is half-open"@],
        _ => Seq::empty(),
    });
    if found.len() == 0 {
        seq!["destination is marked problematic by operator policy"@]
    } else {
        found
    }
}

/// Lists why a problematic destination is in the digest.
pub fn destination_reasons(signal: &ProxyOperatorDestinationSignal) -> (r: Vec<String>)
    ensures
        r.deep_view() == destination_reasons_view(*signal),
{
    let mut reasons: Vec<String> = Vec::new();
    if signal.queue_depth > 0 {
        reasons.push(
            join3("queue backlog observed (", count_string(signal.queue_depth).as_str(), ")"),
        );
    }
    let ghost a = reasons.deep_view();
    if signal.send_failures_total > 0 {
        reasons.push(
            join3(
                "send failures observed (",
                decimal_string(signal.send_failures_total).as_str(),
                ")",
            ),
        );
    }
    let ghost b = reasons.deep_view();
    if signal.drops_total > 0 {
        reasons.push(join3("drops observed (", decimal_string(signal.drops_total).as_str(), ")"));
    }
    let ghost c = reasons.deep_view();
    match signal.breaker_state {
        Some(BreakerStateSnapshot::Open) => {
            reasons.push(owned("destination breaker is open"));
        },
        Some(BreakerStateSnapshot::HalfOpen) => {
            reasons.push(owned("destination breaker is half-open"));
        },
        _ => {},
    }
    proof {
        let s1 = if signal.queue_depth > 0 {
            seq!["queue backlog observed ("@ + decimal(signal.queue_depth as nat) + ")"@]
        } else {
            Seq::<Seq<char>>::empty()
        };
        let s2 = if signal.send_failures_total > 0 {
            seq!["send failures observed ("@ + decimal(signal.send_failures_total as nat) + ")"@]
        } else {
            Seq::<Seq<char>>::empty()
        };
        let s3 = if signal.drops_total > 0 {
            seq!["drops observed ("@ + decimal(signal.drops_total as nat) + ")"@]
        } else {
            Seq::<Seq<char>>::empty()
        };
        let s4 = match signal.breaker_state {
            Some(BreakerStateSnapshot::Open) => seq!["destination breaker is open"@],
            Some(BreakerStateSnapshot::HalfOpen) => seq!["destination breaker is half-open"@],
            _ => Seq::<Seq<char>>::empty(),
        };
        assert(a =~= s1);
        assert(b =~= s1 + s2);
        assert(c =~= s1 + s2 + s3);
        assert(reasons.deep_view() =~= s1 + s2 + s3 + s4);
    }
    if reasons.len() == 0 {
        reasons.push(owned("destination is marked problematic by operator policy"));
        assert(reasons.deep_view() =~= seq![
            "destination is marked problematic by operator policy"@,
        ]);
    }
    reasons
}

/// The cluster of a problematic route: blocked without a direct UDP fallback,
/// otherwise degraded; an isolated route suggests restoring it, any other
/// focusing it.
pub open spec fn route_cluster_view(signal: ProxyOperatorRouteSignal) -> IncidentClusterView {
    let id = signal.route_id@;
    let isolated = signal.isolated;
    IncidentClusterView {
        id: "route:"@ + id,
        scope: ProxyOperatorIncidentScope::Route,
        level: if !signal.direct_udp_fallback_available {
            ProxyOperatorIncidentLevel::Blocked
        } else {
            ProxyOperatorIncidentLevel::Degraded
        },
        title: if isolated {
            "Route `"@ + id + "` is isolated"@
        } else {
            "Route `"@ + id + "` needs attention"@
        },
        summary: if isolated {
            "This route is intentionally isolated and not forwarding live traffic."@
        } else {
            "This route is reporting operator-visible issues."@
        },
        route_id: Some(id),
        destination_id: None,
        reasons: route_reasons_view(signal),
        action: Some(
            SuggestedActionView {
                kind: if isolated {
                    ProxyOperatorSuggestedActionKind::RestoreRoute
                } else {
                    ProxyOperatorSuggestedActionKind::FocusRoute
                },
                label: if isolated {
                    "Restore route"@
                } else {
                    "Focus route"@
                },
                route_id: Some(id),
                destination_id: None,
            },
        ),
    }
}

/// Builds the cluster of a problematic route.
pub fn route_cluster(signal: &ProxyOperatorRouteSignal) -> (r: ProxyOperatorIncidentCluster)
    ensures
        r.deep_view() == route_cluster_view(*signal),
{
    let isolated = signal.isolated;
    let id = signal.route_id.as_str();
    ProxyOperatorIncidentCluster {
        id: join2("route:", id),
        scope: ProxyOperatorIncidentScope::Route,
        level: if !signal.direct_udp_fallback_available {
            ProxyOperatorIncidentLevel::Blocked
        } else {
            ProxyOperatorIncidentLevel::Degraded
        },
        title: if isolated {
            join3("Route `", id, "` is isolated")
        } else {
            join3("Route `", id, "` needs attention")
        },
        summary: if isolated {
            owned("This route is intentionally isolated and not forwarding live traffic.")
        } else {
            owned("This route is reporting operator-visible issues.")
        },
        route_id: Some(signal.route_id.duplicate()),
        destination_id: None,
        reasons: route_reasons(signal),
        action: Some(
            ProxyOperatorSuggestedAction {
                kind: if isolated {
                    ProxyOperatorSuggestedActionKind::RestoreRoute
                } else {
                    ProxyOperatorSuggestedActionKind::FocusRoute
                },
                label: if isolated {
                    owned("Restore route")
                } else {
                    owned("Focus route")
                },
                route_id: Some(signal.route_id.duplicate()),
                destination_id: None,
            },
        ),
    }
}

/// The cluster of a problematic destination: blocked when its breaker is
/// open, otherwise degraded; it suggests rehydrating the destination.
pub open spec fn destination_cluster_view(signal: ProxyOperatorDestinationSignal) -> IncidentClusterView {
    let id = signal.destination_id@;
    IncidentClusterView {
        id: "destination:"@ + id,
        scope: ProxyOperatorIncidentScope::Destination,
        level: if signal.breaker_state == Some(BreakerStateSnapshot::Open) {
            ProxyOperatorIncidentLevel::Blocked
        } else {
            ProxyOperatorIncidentLevel::Degraded
        },
        title: "Destination `"@ + id + "` needs recovery"@,
        summary: "Destination health is degraded by queue, drop, or breaker pressure."@,
        route_id: None,
        destination_id: Some(id),
        reasons: destination_reasons_view(signal),
        action: Some(
            SuggestedActionView {
                kind: ProxyOperatorSuggestedActionKind::RehydrateDestination,
                label: "Rehydrate destination"@,
                route_id: None,
                destination_id: Some(id),
            },
        ),
    }
}

fn destination_cluster(signal: &ProxyOperatorDestinationSignal) -> (r: ProxyOperatorIncidentCluster)
    ensures
        r.deep_view() == destination_cluster_view(*signal),
{
    let id = signal.destination_id.as_str();
    ProxyOperatorIncidentCluster {
        id: join2("destination:", id),
        scope: ProxyOperatorIncidentScope::Destination,
        level: match signal.breaker_state {
            Some(BreakerStateSnapshot::Open) => ProxyOperatorIncidentLevel::Blocked,
            _ => ProxyOperatorIncidentLevel::Degraded,
        },
        title: join3("Destination `", id, "` needs recovery"),
        summary: owned("Destination health is degraded by queue, drop, or breaker pressure."),
        route_id: None,
        destination_id: Some(signal.destination_id.duplicate()),
        reasons: destination_reasons(signal),
        action: Some(
            ProxyOperatorSuggestedAction {
                kind: ProxyOperatorSuggestedActionKind::RehydrateDestination,
                label: owned("Rehydrate destination"),
                route_id: None,
                destination_id: Some(signal.destination_id.duplicate()),
            },
        ),
    }
}

/// A cluster paired with its digest order.
pub open spec fn keyed_view(c: IncidentClusterView) -> (KeyView, IncidentClusterView) {
    (cluster_key(c), c)
}

/// The clusters of a snapshot before ordering: configuration blockers, frozen
/// traffic, then each problematic route and each problematic destination.
pub open spec fn digest_entries(snapshot: ProxyOperatorSnapshot) -> Seq<
    (KeyView, IncidentClusterView),
> {
    let report = snapshot.overview.report;
    (if report.blockers@.len() > 0 {
        seq![keyed_view(config_cluster_view(report.blockers.deep_view()))]
    } else {
        Seq::empty()
    }) + (if report.overrides.traffic_frozen {
        seq![keyed_view(frozen_cluster_view())]
    } else {
        Seq::empty()
    }) + snapshot.incidents.problematic_routes@.map_values(
        |s: ProxyOperatorRouteSignal| keyed_view(route_cluster_view(s)),
    ) + snapshot.incidents.problematic_destinations@.map_values(
        |s: ProxyOperatorDestinationSignal| keyed_view(destination_cluster_view(s)),
    )
}

/// The clusters of the digest, in digest order.
pub open spec fn digest_clusters(snapshot: ProxyOperatorSnapshot) -> Seq<IncidentClusterView> {
    sort_entries(digest_entries(snapshot)).map_values(
        |e: (KeyView, IncidentClusterView)| e.1,
    )
}

/// How many clusters have the given level.
pub open spec fn count_level(clusters: Seq<IncidentClusterView>, level: ProxyOperatorIncidentLevel) -> nat
    decreases clusters.len(),
{
    if clusters.len() == 0 {
        0
    } else {
        count_level(clusters.drop_last(), level) + if clusters.last().level == level {
            1nat
        } else {
            0nat
        }
    }
}

fn count_clusters(clusters: &Vec<ProxyOperatorIncidentCluster>, level: ProxyOperatorIncidentLevel) -> (r:
    usize)
    ensures
        r as nat == count_level(clusters.deep_view(), level),
{
    let mut n: usize = 0;
    let mut i: usize = 0;
    while i < clusters.len()
        invariant
            i <= clusters@.len(),
            n <= i,
            n as nat == count_level(clusters.deep_view().subrange(0, i as int), level),
        decreases clusters@.len() - i,
    {
        let ghost prefix = clusters.deep_view().subrange(0, i + 1);
        assert(prefix.drop_last() =~= clusters.deep_view().subrange(0, i as int));
        if clusters[i].level == level {
            n = n + 1;
        }
        i = i + 1;
    }
    assert(clusters.deep_view().subrange(0, i as int) =~= clusters.deep_view());
    n
}

/// Builds the incident digest of a snapshot.
pub fn proxy_operator_incident_digest(snapshot: &ProxyOperatorSnapshot) -> (r:
    ProxyOperatorIncidentDigest)
    ensures
        r.clusters.deep_view() == digest_clusters(*snapshot),
        r.blocked_count as nat == count_level(
            digest_clusters(*snapshot),
            ProxyOperatorIncidentLevel::Blocked,
        ),
        r.degraded_count as nat == count_level(
            digest_clusters(*snapshot),
            ProxyOperatorIncidentLevel::Degraded,
        ),
        r.state@ == state_label_of(snapshot.overview.report.state),
{
    let report = &snapshot.overview.report;
    let mut keyed: Vec<(SortKey, ProxyOperatorIncidentCluster)> = Vec::new();
    if report.blockers.len() > 0 {
        keyed.push(keyed_cluster(config_cluster(&report.blockers)));
    }
    if report.overrides.traffic_frozen {
        keyed.push(keyed_cluster(frozen_cluster()));
    }
    let ghost head = entry_views(keyed@);
    let routes = &snapshot.incidents.problematic_routes;
    let mut i: usize = 0;
    while i < routes.len()
        invariant
            i <= routes@.len(),
            entry_views(keyed@) == head + routes@.subrange(0, i as int).map_values(
                |s: ProxyOperatorRouteSignal| keyed_view(route_cluster_view(s)),
            ),
        decreases routes@.len() - i,
    {
        let ghost before = keyed@;
        let entry = keyed_cluster(route_cluster(&routes[i]));
        keyed.push(entry);
        proof {
            lemma_map_push(
                before,
                entry,
                |e: (SortKey, ProxyOperatorIncidentCluster)| (crate::sorting::key_view(e.0), e.1.deep_view()),
            );
            lemma_map_prefix_push(
                routes@,
                i as int,
                |s: ProxyOperatorRouteSignal| keyed_view(route_cluster_view(s)),
            );
        }
        assert(entry_views(keyed@) =~= head + routes@.subrange(0, i + 1).map_values(
            |s: ProxyOperatorRouteSignal| keyed_view(route_cluster_view(s)),
        ));
        i = i + 1;
    }
    assert(routes@.subrange(0, i as int) =~= routes@);
    let ghost middle = entry_views(keyed@);
    let destinations = &snapshot.incidents.problematic_destinations;
    let mut k: usize = 0;
    while k < destinations.len()
        invariant
            k <= destinations@.len(),
            entry_views(keyed@) == middle + destinations@.subrange(0, k as int).map_values(
                |s: ProxyOperatorDestinationSignal| keyed_view(destination_cluster_view(s)),
            ),
        decreases destinations@.len() - k,
    {
        let ghost before = keyed@;
        let entry = keyed_cluster(destination_cluster(&destinations[k]));
        keyed.push(entry);
        proof {
            lemma_map_push(
                before,
                entry,
                |e: (SortKey, ProxyOperatorIncidentCluster)| (crate::sorting::key_view(e.0), e.1.deep_view()),
            );
            lemma_map_prefix_push(
                destinations@,
                k as int,
                |s: ProxyOperatorDestinationSignal| keyed_view(destination_cluster_view(s)),
            );
        }
        assert(entry_views(keyed@) =~= middle + destinations@.subrange(0, k + 1).map_values(
            |s: ProxyOperatorDestinationSignal| keyed_view(destination_cluster_view(s)),
        ));
        k = k + 1;
    }
    assert(destinations@.subrange(0, k as int) =~= destinations@);
    assert(entry_views(keyed@) =~= digest_entries(*snapshot));
    let sorted = sort_by_key(keyed);
    let clusters = unkeyed(sorted);
    let blocked_count = count_clusters(&clusters, ProxyOperatorIncidentLevel::Blocked);
    let degraded_count = count_clusters(&clusters, ProxyOperatorIncidentLevel::Degraded);
    ProxyOperatorIncidentDigest {
        state: state_label(report.state),
        blocked_count,
        degraded_count,
        clusters,
    }
}

/// Drops the sort keys.
fn unkeyed(entries: Vec<(SortKey, ProxyOperatorIncidentCluster)>) -> (r: Vec<
    ProxyOperatorIncidentCluster,
>)
    ensures
        r.deep_view() == entry_views(entries@).map_values(
            |e: (KeyView, IncidentClusterView)| e.1,
        ),
{
    let ghost input = entry_views(entries@);
    let mut rest = entries;
    let mut out: Vec<ProxyOperatorIncidentCluster> = Vec::new();
    let mut taken: usize = 0;
    let total = rest.len();
    while rest.len() > 0
        invariant
            total == input.len(),
            taken + rest@.len() == input.len(),
            entry_views(rest@) == input.subrange(taken as int, input.len() as int),
            out.deep_view() == input.subrange(0, taken as int).map_values(
                |e: (KeyView, IncidentClusterView)| e.1,
            ),
        decreases rest@.len(),
    {
        let ghost before_rest = rest@;
        let (_key, cluster) = rest.remove(0);
        assert(entry_views(before_rest)[0].1 == cluster.deep_view());
        push_value(&mut out, cluster);
        proof {
            lemma_map_prefix_push(input, taken as int, |e: (KeyView, IncidentClusterView)| e.1);
        }
        proof {
            assert forall|j: int| 0 <= j < rest@.len() implies #[trigger] entry_views(rest@)[j]
                == input[taken + 1 + j] by {
                assert(rest@[j] == before_rest[j + 1]);
                assert(entry_views(before_rest)[j + 1] == input[taken + j + 1]);
            }
        }
        assert(out.deep_view() =~= input.subrange(0, taken + 1).map_values(
            |e: (KeyView, IncidentClusterView)| e.1,
        ));
        taken = taken + 1;
        assert(entry_views(rest@) =~= input.subrange(taken as int, input.len() as int));
    }
    assert(input.subrange(0, taken as int) =~= input);
    out
}

} // verus!
