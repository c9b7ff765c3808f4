use rosc_broker::board::{
    proxy_operator_board, ProxyOperatorBoard, ProxyOperatorBoardItem, ProxyOperatorBoardScope,
};
use rosc_broker::casebook::{proxy_operator_casebook, ProxyOperatorCasebookCatalog};
use rosc_broker::context::{
    destination_state, route_board_items, route_incident_titles, route_state, route_work_items,
    scoped_route_blockers, snapshot_context,
};
use rosc_broker::handoff::{proxy_operator_handoff_from_trace, ProxyOperatorHandoffCatalog};
use rosc_broker::incident_digest::{
    proxy_operator_incident_digest, ProxyOperatorIncidentCluster, ProxyOperatorIncidentDigest,
    ProxyOperatorIncidentLevel, ProxyOperatorIncidentScope,
};
use rosc_broker::launch::ProxyLaunchProfileStatus;
use rosc_broker::mission::global_mission;
use rosc_broker::model::{
    ProxyOperatorSuggestedAction, ProxyOperatorSuggestedActionKind, ProxyOperatorTraceEvent,
    ProxyOperatorTraceEventLevel,
};
use rosc_broker::policy::{
    ProxyOperatorDestinationSignal, ProxyOperatorOverrides, ProxyOperatorRouteSignal,
    ProxyOperatorRuntimeSignals, ProxyOperatorSignalScope, ProxyOperatorState,
    ProxyRuntimeSafetyPolicy,
};
use rosc_broker::report::{ProxyOperatorHighlights, ProxyOperatorSignalsView};
use rosc_broker::snapshot::{
    ProxyOperatorAttention, ProxyOperatorIncidents, ProxyOperatorOverview, ProxyOperatorReadiness,
    ProxyOperatorReadinessLevel, ProxyOperatorReport, ProxyOperatorSnapshot, ProxyOperatorWorkItem,
    ProxyOperatorWorklist,
};
use rosc_broker::status::{UdpProxyStatusSnapshot, UdpProxySummary};
use rosc_broker::views::ProxyOperatorDiagnostics;
use rosc_broker::dashboard::{
    proxy_operator_dashboard_from_snapshot, timeline_from_snapshot,
    ProxyOperatorDestinationDetailState, ProxyOperatorRouteDetailState,
};
use rosc_broker::dossier::proxy_operator_dossier_from_dashboard;
use rosc_broker::mission::{destination_trace_highlights, route_trace_highlights};
use rosc_broker::records::{
    narrow_board, narrow_brief_catalog, narrow_casebook_catalog, narrow_dossier_catalog,
    narrow_focus_catalog, narrow_handoff_catalog, narrow_lens_catalog, narrow_timeline_catalog,
    narrow_triage_catalog, record_scope, RecordScope,
};
use rosc_broker::status::{
    RecentConfigEvent, RecentConfigEventKind, RecentOperatorAction, UdpProxyDestinationStatus,
    UdpProxyRouteStatus,
};
use rosc_broker::trace::{
    ProxyOperatorRecovery, ProxyOperatorRecoveryRoute, ProxyOperatorRouteTrace,
    ProxyOperatorRouteTriage, ProxyOperatorTimelineCatalog, ProxyOperatorTraceCatalog,
    ProxyOperatorTriageCatalog,
};

fn strings(items: &[&str]) -> Vec<String> {
    items.iter().map(|s| s.to_string()).collect()
}

fn route_signal(id: &str, isolated: bool) -> ProxyOperatorRouteSignal {
    ProxyOperatorRouteSignal {
        route_id: id.to_string(),
        active: true,
        isolated,
        direct_udp_fallback_available: true,
        config_warnings: Vec::new(),
        dispatch_failures_total: 0,
        transform_failures_total: 0,
    }
}

fn empty_status() -> UdpProxyStatusSnapshot {
    UdpProxyStatusSnapshot {
        summary: UdpProxySummary::default(),
        launch_profile: ProxyLaunchProfileStatus::default(),
        routes: Vec::new(),
        fallback_routes: Vec::new(),
        route_assessments: Vec::new(),
        destinations: Vec::new(),
        runtime: None,
    }
}

fn report(blockers: Vec<String>, frozen: bool, routes: Vec<ProxyOperatorRouteSignal>) -> ProxyOperatorReport {
    ProxyOperatorReport {
        state: if blockers.is_empty() { ProxyOperatorState::Healthy } else { ProxyOperatorState::Blocked },
        policy: ProxyRuntimeSafetyPolicy::default(),
        warnings: Vec::new(),
        blockers,
        overrides: ProxyOperatorOverrides {
            launch_profile_mode: "normal".to_string(),
            traffic_frozen: frozen,
            ..ProxyOperatorOverrides::default()
        },
        runtime_signals: ProxyOperatorRuntimeSignals::default(),
        route_signals: routes,
        destination_signals: Vec::new(),
        highlights: ProxyOperatorHighlights::default(),
        report_lines: Vec::new(),
    }
}

fn snapshot_with(report: ProxyOperatorReport, problematic: Vec<ProxyOperatorRouteSignal>) -> ProxyOperatorSnapshot {
    let frozen = report.overrides.traffic_frozen;
    let state = report.state;
    let overview = ProxyOperatorOverview {
        status: empty_status(),
        report,
        problematic_signals: ProxyOperatorSignalsView {
            scope: ProxyOperatorSignalScope::Problematic,
            runtime_signals: ProxyOperatorRuntimeSignals::default(),
            route_signals: Vec::new(),
            destination_signals: Vec::new(),
        },
    };
    ProxyOperatorSnapshot {
        diagnostics: ProxyOperatorDiagnostics {
            overview: overview.clone(),
            recent_operator_actions: Vec::new(),
            recent_config_events: Vec::new(),
        },
        overview,
        attention: ProxyOperatorAttention {
            state,
            blockers: Vec::new(),
            warnings: Vec::new(),
            traffic_frozen: frozen,
            isolated_route_ids: Vec::new(),
            latest_operator_action: None,
            latest_config_issue: None,
            problematic_route_ids: Vec::new(),
            problematic_destination_ids: Vec::new(),
            destinations_with_backlog: Vec::new(),
            destinations_with_open_breakers: Vec::new(),
            destinations_with_half_open_breakers: Vec::new(),
        },
        readiness: ProxyOperatorReadiness {
            level: ProxyOperatorReadinessLevel::Degraded,
            ready: false,
            reasons: strings(&["route camera is isolated"]),
        },
        incidents: ProxyOperatorIncidents {
            state,
            open_blockers: Vec::new(),
            open_warnings: Vec::new(),
            latest_operator_action: None,
            latest_config_issue: None,
            recent_operator_actions: Vec::new(),
            recent_config_issues: Vec::new(),
            problematic_routes: problematic,
            problematic_destinations: Vec::<ProxyOperatorDestinationSignal>::new(),
        },
        worklist: ProxyOperatorWorklist { items: Vec::new() },
        incident_digest: ProxyOperatorIncidentDigest::default(),
        recovery: ProxyOperatorRecovery::default(),
        triage: ProxyOperatorTriageCatalog::default(),
        handoff: ProxyOperatorHandoffCatalog::default(),
        casebook: ProxyOperatorCasebookCatalog::default(),
        board: ProxyOperatorBoard::default(),
    }
}

fn thaw_action() -> ProxyOperatorSuggestedAction {
    ProxyOperatorSuggestedAction {
        kind: ProxyOperatorSuggestedActionKind::ThawTraffic,
        label: "Thaw traffic".to_string(),
        route_id: None,
        destination_id: None,
    }
}

fn camera_trace() -> ProxyOperatorRouteTrace {
    ProxyOperatorRouteTrace {
        route_id: "camera".to_string(),
        level: ProxyOperatorTraceEventLevel::Degraded,
        summary: "Route is isolated.".to_string(),
        related_destination_ids: strings(&["renderer"]),
        actions: vec![thaw_action()],
        recent_events: vec![ProxyOperatorTraceEvent {
            level: ProxyOperatorTraceEventLevel::Degraded,
            title: "isolated".to_string(),
            summary: "operator isolated the route".to_string(),
        }],
        open_reasons: strings(&["route is under operator isolation", "dispatch failures observed (3)"]),
    }
}

#[test]
fn incident_digest_orders_blocked_before_degraded() {
    let snapshot = snapshot_with(
        report(strings(&["missing fallback"]), true, vec![route_signal("camera", true)]),
        vec![route_signal("camera", true)],
    );
    let digest = proxy_operator_incident_digest(&snapshot);
    assert_eq!(digest.state, "blocked");
    assert_eq!(digest.blocked_count, 1);
    assert_eq!(digest.degraded_count, 2);
    assert_eq!(digest.blocked_count + digest.degraded_count, digest.clusters.len());
    assert_eq!(digest.clusters[0].id, "config-blockers");
    assert_eq!(digest.clusters[0].summary, "1 blocker(s) are preventing a clean ready state.");
    assert_eq!(digest.clusters[1].scope, ProxyOperatorIncidentScope::Global);
    assert_eq!(digest.clusters[1].id, "traffic-frozen");
    assert_eq!(digest.clusters[2].scope, ProxyOperatorIncidentScope::Route);
    assert_eq!(digest.clusters[2].reasons[0], "route is currently isolated");
}

#[test]
fn handoff_lists_thaw_first_when_frozen() {
    let snapshot = snapshot_with(report(Vec::new(), true, Vec::new()), Vec::new());
    let trace = ProxyOperatorTraceCatalog { routes: vec![camera_trace()], destinations: Vec::new() };
    let handoff = proxy_operator_handoff_from_trace(&snapshot, trace);
    assert_eq!(handoff.state, "degraded");
    assert_eq!(handoff.route_handoffs.len(), 1);
    let steps = &handoff.route_handoffs[0].next_steps;
    assert_eq!(
        steps,
        &strings(&[
            "Thaw traffic before expecting this route to resume live forwarding or recovery.",
            "Confirm the route can resume live forwarding, then restore isolation.",
            "Inspect downstream destination health and breaker state before replaying or rehydrating.",
        ])
    );
}

#[test]
fn handoff_falls_back_to_monitoring() {
    let snapshot = snapshot_with(report(Vec::new(), false, Vec::new()), Vec::new());
    let mut quiet = camera_trace();
    quiet.open_reasons = Vec::new();
    let trace = ProxyOperatorTraceCatalog { routes: vec![quiet], destinations: Vec::new() };
    let handoff = proxy_operator_handoff_from_trace(&snapshot, trace);
    assert_eq!(
        handoff.route_handoffs[0].next_steps,
        strings(&["Monitor this route and keep the focus view open for repeated runtime pressure."])
    );
}

fn cluster(id: &str, title: &str, route: Option<&str>, scope: ProxyOperatorIncidentScope) -> ProxyOperatorIncidentCluster {
    ProxyOperatorIncidentCluster {
        id: id.to_string(),
        scope,
        level: ProxyOperatorIncidentLevel::Degraded,
        title: title.to_string(),
        summary: String::new(),
        route_id: route.map(|r| r.to_string()),
        destination_id: None,
        reasons: strings(&["reason"]),
        action: None,
    }
}

#[test]
fn casebook_joins_trace_handoff_and_recovery() {
    let mut snapshot = snapshot_with(report(Vec::new(), false, Vec::new()), Vec::new());
    snapshot.incident_digest.clusters = vec![
        cluster("route:camera", "Route camera isolated", Some("camera"), ProxyOperatorIncidentScope::Route),
        cluster("traffic-frozen", "Traffic frozen", None, ProxyOperatorIncidentScope::Global),
        cluster("route:other", "Route other isolated", Some("other"), ProxyOperatorIncidentScope::Route),
        cluster("dup", "Traffic frozen", None, ProxyOperatorIncidentScope::Config),
    ];
    snapshot.recovery.route_candidates = vec![ProxyOperatorRecoveryRoute {
        route_id: "camera".to_string(),
        cache_policy: "last_value_per_address".to_string(),
        capture_policy: "off".to_string(),
        rehydrate_on_connect: true,
        replay_allowed: false,
        fallback_ready: true,
    }];
    let trace = ProxyOperatorTraceCatalog { routes: vec![camera_trace()], destinations: Vec::new() };
    let mut triage = ProxyOperatorTriageCatalog::default();
    triage.route_triage = vec![ProxyOperatorRouteTriage {
        route_id: "camera".to_string(),
        summary: "triage".to_string(),
        next_steps: strings(&["Check the renderer."]),
        actions: vec![thaw_action()],
        recent_events: Vec::new(),
    }];
    let casebook = proxy_operator_casebook(&snapshot, &trace, &triage, &ProxyOperatorTimelineCatalog::default());
    assert_eq!(casebook.state, "healthy");
    assert_eq!(casebook.route_casebooks.len(), 1);
    let record = &casebook.route_casebooks[0];
    assert_eq!(record.route_id, "camera");
    assert_eq!(record.summary, "Route is isolated.");
    assert_eq!(record.incident_titles, strings(&["Route camera isolated", "Traffic frozen"]));
    assert_eq!(
        record.next_steps,
        strings(&[
            "Confirm the route can resume live forwarding, then restore isolation.",
            "Inspect downstream destination health and breaker state before replaying or rehydrating.",
            "Check the renderer.",
        ])
    );
    assert_eq!(record.recommended_actions.len(), 1);
    assert_eq!(
        record.recovery_surface,
        strings(&[
            "cache_policy=last_value_per_address",
            "capture_policy=off",
            "rehydrate_on_connect=true",
            "replay_allowed=false",
            "fallback_ready=true",
        ])
    );
    assert!(record.timeline.is_empty());
}

fn board_item(id: &str, scope: ProxyOperatorBoardScope, level: ProxyOperatorTraceEventLevel, route: Option<&str>) -> ProxyOperatorBoardItem {
    ProxyOperatorBoardItem {
        id: id.to_string(),
        scope,
        level,
        title: format!("title {id}"),
        summary: String::new(),
        reasons: strings(&["shared reason"]),
        actions: Vec::new(),
        route_id: route.map(|r| r.to_string()),
        destination_id: None,
    }
}

#[test]
fn board_files_items_into_lanes_by_id() {
    let mut snapshot = snapshot_with(report(Vec::new(), false, Vec::new()), Vec::new());
    snapshot.incident_digest.clusters = vec![
        cluster("b", "Second", Some("camera"), ProxyOperatorIncidentScope::Route),
        cluster("a", "First", None, ProxyOperatorIncidentScope::Global),
        cluster("a", "Again", None, ProxyOperatorIncidentScope::Global),
    ];
    let trace = ProxyOperatorTraceCatalog { routes: vec![camera_trace()], destinations: Vec::new() };
    let board = proxy_operator_board(
        &snapshot,
        &trace,
        &ProxyOperatorTriageCatalog::default(),
        &ProxyOperatorTimelineCatalog::default(),
    );
    assert_eq!(board.state, "healthy");
    let ids: Vec<&str> = board.degraded_items.iter().map(|i| i.id.as_str()).collect();
    assert_eq!(ids, vec!["incident:a", "incident:b", "route:camera"]);
    assert_eq!(board.degraded_items[0].title, "First");
    assert_eq!(board.degraded_items[2].title, "Route `camera`");
    assert!(board.blocked_items.is_empty());
    assert!(board.watch_items.is_empty());
}

#[test]
fn scoped_context_reads_the_board() {
    let mut snapshot = snapshot_with(report(strings(&["missing fallback"]), true, Vec::new()), Vec::new());
    snapshot.board.blocked_items = vec![board_item(
        "route:camera",
        ProxyOperatorBoardScope::Route,
        ProxyOperatorTraceEventLevel::Blocked,
        Some("camera"),
    )];
    snapshot.board.degraded_items = vec![board_item(
        "incident:frozen",
        ProxyOperatorBoardScope::Global,
        ProxyOperatorTraceEventLevel::Degraded,
        None,
    )];
    snapshot.incident_digest.clusters = vec![cluster(
        "traffic-frozen",
        "Traffic frozen",
        None,
        ProxyOperatorIncidentScope::Global,
    )];
    assert_eq!(route_state(&snapshot, "camera"), ProxyOperatorState::Blocked);
    assert_eq!(route_state(&snapshot, "other"), ProxyOperatorState::Healthy);
    assert_eq!(destination_state(&snapshot, "renderer"), ProxyOperatorState::Healthy);
    assert_eq!(route_board_items(&snapshot, "camera").len(), 2);
    assert_eq!(route_board_items(&snapshot, "other").len(), 1);
    assert_eq!(
        scoped_route_blockers(&snapshot, "camera"),
        strings(&["title route:camera", "shared reason", "Traffic frozen", "reason"])
    );
    assert_eq!(route_incident_titles(&snapshot, "camera"), strings(&["Traffic frozen"]));
    let context = snapshot_context(&snapshot);
    assert_eq!(
        context.global_blockers,
        strings(&["missing fallback", "title incident:frozen", "shared reason"])
    );
    assert_eq!(context.global_overrides, strings(&["traffic_frozen"]));
}

#[test]
fn frozen_traffic_alone_is_a_global_blocker() {
    let mut snapshot = snapshot_with(report(Vec::new(), true, Vec::new()), Vec::new());
    snapshot.overview.report.overrides.launch_profile_mode = "safe_mode".to_string();
    snapshot.attention.traffic_frozen = false;
    let context = snapshot_context(&snapshot);
    assert_eq!(
        context.global_blockers,
        strings(&["traffic is currently frozen by operator override"])
    );
    assert_eq!(context.global_overrides, strings(&["launch_profile=safe_mode"]));
}

#[test]
fn route_work_items_keep_global_and_named_items() {
    let mut snapshot = snapshot_with(report(Vec::new(), false, Vec::new()), Vec::new());
    let mut named = thaw_action();
    named.route_id = Some("camera".to_string());
    let mut other = thaw_action();
    other.route_id = Some("other".to_string());
    snapshot.worklist.items = vec![
        ProxyOperatorWorkItem { id: "1".to_string(), title: "global".to_string(), action: None },
        ProxyOperatorWorkItem { id: "2".to_string(), title: "camera".to_string(), action: Some(named) },
        ProxyOperatorWorkItem { id: "3".to_string(), title: "other".to_string(), action: Some(other) },
    ];
    let items = route_work_items(&snapshot, "camera");
    let titles: Vec<&str> = items.iter().map(|i| i.title.as_str()).collect();
    assert_eq!(titles, vec!["global", "camera"]);
}

#[test]
fn global_mission_headline_prefers_frozen_traffic() {
    let snapshot = snapshot_with(report(strings(&["x"]), true, Vec::new()), Vec::new());
    let mission = global_mission(&snapshot);
    assert_eq!(
        mission.headline,
        "Global override is freezing live traffic; thaw before trusting route-level recovery."
    );
    assert_eq!(mission.readiness_level, "degraded");
    assert_eq!(mission.state, "blocked");
    assert_eq!(mission.recovery_summary[0], "cached_routes=0");
    assert_eq!(mission.recovery_summary[4], "destination_candidates=0");

    let unfrozen = snapshot_with(report(strings(&["x", "y"]), false, Vec::new()), Vec::new());
    assert_eq!(
        global_mission(&unfrozen).headline,
        "2 config blocker(s) still gate a clean rollout."
    );
    let clear = snapshot_with(report(Vec::new(), false, Vec::new()), Vec::new());
    assert_eq!(global_mission(&clear).headline, "route camera is isolated");
}

fn camera_route() -> UdpProxyRouteStatus {
    UdpProxyRouteStatus {
        id: "camera".to_string(),
        enabled: true,
        mode: "osc1_0_strict".to_string(),
        traffic_class: "StatefulControl".to_string(),
        ingress_ids: strings(&["udp_localhost_in"]),
        address_patterns: strings(&["/ue5/camera/fov"]),
        destination_ids: strings(&["renderer"]),
        rename_address: None,
        cache_policy: "last_value".to_string(),
        capture_policy: "off".to_string(),
        rehydrate_on_connect: false,
        replay_allowed: true,
    }
}

fn renderer_destination() -> UdpProxyDestinationStatus {
    UdpProxyDestinationStatus {
        id: "renderer".to_string(),
        bind: "127.0.0.1:0".to_string(),
        target: "127.0.0.1:9001".to_string(),
        route_ids: strings(&["camera"]),
        queue_depth: 16,
        drop_policy: "drop_oldest".to_string(),
        breaker_open_after_consecutive_failures: 3,
        breaker_open_after_consecutive_queue_overflows: 5,
        breaker_cooldown_ms: 1000,
    }
}

fn dashboard_snapshot() -> ProxyOperatorSnapshot {
    let mut snapshot = snapshot_with(
        report(Vec::new(), false, vec![route_signal("camera", true)]),
        vec![route_signal("camera", true)],
    );
    snapshot.overview.status.routes = vec![camera_route()];
    snapshot.overview.status.destinations = vec![renderer_destination()];
    snapshot.diagnostics.recent_operator_actions = vec![RecentOperatorAction {
        action: "isolate_route".to_string(),
        recorded_at_unix_ms: 10,
        details: strings(&["route_id=camera"]),
    }];
    snapshot.diagnostics.recent_config_events = vec![RecentConfigEvent {
        kind: RecentConfigEventKind::Applied,
        recorded_at_unix_ms: 20,
        revision: Some(2),
        launch_profile_mode: None,
        details: Vec::new(),
    }];
    snapshot
}

#[test]
fn dashboard_joins_details_focus_lens_and_brief() {
    let snapshot = dashboard_snapshot();
    let timeline = timeline_from_snapshot(&snapshot);
    assert_eq!(timeline.len(), 2);
    assert_eq!(timeline[0].label, "config_applied");
    assert_eq!(timeline[0].details, strings(&["revision=2"]));
    assert_eq!(timeline[1].label, "isolate_route");

    let trace = ProxyOperatorTraceCatalog { routes: vec![camera_trace()], destinations: Vec::new() };
    let dashboard =
        proxy_operator_dashboard_from_snapshot(snapshot, trace, ProxyOperatorTimelineCatalog::default());
    assert_eq!(dashboard.refresh_interval_ms, 2500);
    assert!(!dashboard.traffic.has_runtime_status);
    assert_eq!(dashboard.timeline.len(), 2);
    assert_eq!(dashboard.route_details.len(), 1);
    assert_eq!(dashboard.route_details[0].state, ProxyOperatorRouteDetailState::Isolated);
    assert_eq!(dashboard.destination_details.len(), 1);
    assert_eq!(dashboard.destination_details[0].live_queue_depth, 16);
    assert_eq!(
        dashboard.destination_details[0].state,
        ProxyOperatorDestinationDetailState::Warning
    );

    assert_eq!(dashboard.focus.state, "healthy");
    assert_eq!(dashboard.focus.routes.len(), 1);
    assert_eq!(dashboard.focus.routes[0].route_id, "camera");
    assert!(dashboard.focus.routes[0].trace.is_some());
    assert!(dashboard.focus.routes[0].timeline.is_none());
    assert!(dashboard.focus.destinations[0].trace.is_none());

    assert_eq!(dashboard.lens.routes.len(), 1);
    assert_eq!(dashboard.lens.routes[0].route_id, "camera");
    assert_eq!(dashboard.brief.routes.len(), 1);
    assert!(dashboard.brief.routes[0].summary.starts_with("1 destination(s), "));
    assert!(dashboard.brief.routes[0].lens.is_some());
    assert_eq!(dashboard.brief.routes[0].headline_timeline, strings(&["isolated"]));
    assert_eq!(
        dashboard.brief.destinations[0].summary,
        "queue_depth=16, send_failures=0, drops=0, linked_routes=1"
    );

    assert_eq!(route_trace_highlights(&dashboard, "camera"), strings(&["isolated"]));
    assert!(route_trace_highlights(&dashboard, "lights").is_empty());
    assert!(destination_trace_highlights(&dashboard, "renderer").is_empty());

    let dossier = proxy_operator_dossier_from_dashboard(&dashboard);
    assert_eq!(dossier.state, "healthy");
    assert_eq!(dossier.routes.len(), 1);
    assert_eq!(dossier.routes[0].summary, dashboard.brief.routes[0].summary);
    assert!(dossier.routes[0].brief.is_some());
    assert!(dossier.routes[0].lens.is_some());
    assert_eq!(dossier.routes[0].headline_timeline, strings(&["isolated"]));
    assert_eq!(dossier.destinations.len(), 1);
    assert_eq!(dossier.destinations[0].destination_id, "renderer");
}

#[test]
fn dossier_falls_back_to_detail_figures_without_a_brief() {
    let snapshot = dashboard_snapshot();
    let mut dashboard = proxy_operator_dashboard_from_snapshot(
        snapshot,
        ProxyOperatorTraceCatalog::default(),
        ProxyOperatorTimelineCatalog::default(),
    );
    dashboard.brief.routes.clear();
    dashboard.brief.destinations.clear();
    let dossier = proxy_operator_dossier_from_dashboard(&dashboard);
    assert!(dossier.routes[0].brief.is_none());
    assert!(dossier.routes[0].summary.starts_with("1 destination(s), "));
    assert!(dossier.routes[0].next_steps.is_empty());
    assert_eq!(
        dossier.destinations[0].summary,
        "queue_depth=16, send_failures=0, drops=0, linked_routes=1"
    );
}

#[test]
fn inspection_scopes_narrow_catalogs() {
    assert!(matches!(record_scope("proxy-focus", None, None), Ok(RecordScope::All)));
    assert_eq!(
        record_scope("proxy-focus", Some("a"), Some("b")).unwrap_err(),
        "proxy-focus accepts only one of --route-id or --destination-id"
    );
    let dashboard = proxy_operator_dashboard_from_snapshot(
        dashboard_snapshot(),
        ProxyOperatorTraceCatalog::default(),
        ProxyOperatorTimelineCatalog::default(),
    );
    let camera = record_scope("proxy-focus", Some("camera"), None).unwrap();
    let focus = narrow_focus_catalog(dashboard.focus.clone(), &camera).unwrap();
    assert_eq!(focus.routes.len(), 1);
    assert!(focus.destinations.is_empty());
    let renderer = record_scope("proxy-dossier", None, Some("renderer")).unwrap();
    let dossier = narrow_dossier_catalog(proxy_operator_dossier_from_dashboard(&dashboard), &renderer).unwrap();
    assert!(dossier.routes.is_empty());
    assert_eq!(dossier.destinations[0].destination_id, "renderer");
    let missing = record_scope("proxy-timeline", Some("lights"), None).unwrap();
    assert_eq!(
        narrow_timeline_catalog(ProxyOperatorTimelineCatalog::default(), &missing).unwrap_err(),
        "unknown route timeline `lights`"
    );
    let all = narrow_focus_catalog(dashboard.focus.clone(), &RecordScope::All).unwrap();
    assert_eq!(all.routes.len(), 1);
    assert_eq!(all.destinations.len(), 1);

    let lens = narrow_lens_catalog(dashboard.lens.clone(), &camera).unwrap();
    assert_eq!(lens.routes[0].route_id, "camera");
    assert!(lens.destinations.is_empty());
    let brief = narrow_brief_catalog(dashboard.brief.clone(), &renderer).unwrap();
    assert_eq!(brief.destinations[0].destination_id, "renderer");
    assert_eq!(brief.global_next_steps, dashboard.brief.global_next_steps);
    assert_eq!(
        narrow_triage_catalog(ProxyOperatorTriageCatalog::default(), &renderer).unwrap_err(),
        "unknown destination triage `renderer`"
    );
    assert_eq!(
        narrow_casebook_catalog(ProxyOperatorCasebookCatalog::default(), &camera).unwrap_err(),
        "unknown route casebook `camera`"
    );
    assert_eq!(
        narrow_handoff_catalog(ProxyOperatorHandoffCatalog::default(), &camera).unwrap_err(),
        "unknown route handoff `camera`"
    );
    assert!(narrow_handoff_catalog(ProxyOperatorHandoffCatalog::default(), &RecordScope::All).is_ok());
}

#[test]
fn board_scope_keeps_global_and_named_items() {
    let board = ProxyOperatorBoard {
        state: "blocked".to_string(),
        blocked_items: vec![
            board_item("route:camera", ProxyOperatorBoardScope::Route, ProxyOperatorTraceEventLevel::Blocked, Some("camera")),
            board_item("route:lights", ProxyOperatorBoardScope::Route, ProxyOperatorTraceEventLevel::Blocked, Some("lights")),
        ],
        degraded_items: vec![board_item(
            "incident:frozen",
            ProxyOperatorBoardScope::Global,
            ProxyOperatorTraceEventLevel::Degraded,
            None,
        )],
        watch_items: Vec::new(),
    };
    let narrowed = narrow_board(&board, &RecordScope::Route("camera".to_string()));
    assert_eq!(narrowed.state, "blocked");
    assert_eq!(narrowed.blocked_items.len(), 1);
    assert_eq!(narrowed.blocked_items[0].id, "route:camera");
    assert_eq!(narrowed.degraded_items.len(), 1);
    let by_destination = narrow_board(&board, &RecordScope::Destination("renderer".to_string()));
    assert!(by_destination.blocked_items.is_empty());
    assert_eq!(by_destination.degraded_items.len(), 1);
    let all = narrow_board(&board, &RecordScope::All);
    assert_eq!(all.blocked_items.len(), 2);
}
