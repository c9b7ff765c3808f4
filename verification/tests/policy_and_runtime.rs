use rosc_broker::control::{
    dispatch_result, ensure_destination_exists, ensure_replay_targets_exist, ensure_route_exists,
    format_blocked_reasons, format_blockers, is_connection_local_error, launch_profile_mode,
    process_connection_task_result, safety_policy, startup_options, status_result,
    ConnectionErrorKind, ConnectionFailure, ConnectionTaskResult, ControlPlaneError,
    FrozenStartupBehavior, ProxyCommandOptions,
};
use rosc_broker::dashboard::{
    config_event_label, destination_detail_state, merge_route_warnings, route_detail_state,
    timeline_from_history, top_entries_from_iter, traffic_summary_from_runtime,
    ProxyOperatorDestinationDetailState, ProxyOperatorRouteDetailState,
};
use rosc_broker::history::{bounded_recent_config_issues, bounded_recent_entries};
use rosc_broker::launch::{
    apply_launch_profile, CapturePolicy, LaunchConfig, LaunchRoute, ProxyLaunchProfileMode,
    ProxyLaunchProfileStatus, RouteRecoverySettings,
};
use rosc_broker::model::ProxyOperatorTimelineCategory;
use rosc_broker::policy::{
    BreakerStateSnapshot, ProxyOperatorSignalScope, ProxyOperatorState, ProxyRuntimeSafetyPolicy,
};
use rosc_broker::report::{proxy_operator_report, proxy_operator_signals_view, proxy_startup_report_lines};
use rosc_broker::status::{
    ProxyOperatorCounterEntry, RecentConfigEvent, RecentConfigEventKind, RecentOperatorAction,
    UdpProxyDestinationRuntimeStatus, UdpProxyDestinationStatus, UdpProxyRouteAssessment,
    UdpProxyRuntimeStatus, UdpProxyStatusSnapshot, UdpProxySummary,
};
use rosc_broker::views::{
    proxy_operator_attention, proxy_operator_diagnostics, proxy_operator_incidents,
    proxy_operator_incidents_from_histories,
};
use rosc_broker::snapshot::{ProxyOperatorReadiness, ProxyOperatorReadinessLevel};

fn strings(items: &[&str]) -> Vec<String> {
    items.iter().map(|s| s.to_string()).collect()
}

fn counter(id: &str, total: u64) -> ProxyOperatorCounterEntry {
    ProxyOperatorCounterEntry { id: id.to_string(), total }
}

#[test]
fn safe_mode_disables_optional_recovery_and_capture_surfaces() {
    let config = LaunchConfig {
        routes: vec![LaunchRoute {
            id: "camera".to_string(),
            capture: CapturePolicy::AlwaysBounded,
            recovery: RouteRecoverySettings {
                replay_allowed: true,
                rehydrate_on_restart: true,
                rehydrate_on_connect: false,
            },
        }],
    };

    let prepared = apply_launch_profile(&config, ProxyLaunchProfileMode::SafeMode);

    assert_eq!(prepared.status.mode, ProxyLaunchProfileMode::SafeMode);
    assert_eq!(prepared.status.disabled_capture_routes, vec!["camera"]);
    assert_eq!(prepared.status.disabled_replay_routes, vec!["camera"]);
    assert_eq!(prepared.status.disabled_restart_rehydrate_routes, vec!["camera"]);
    assert_eq!(prepared.config.routes[0].capture, CapturePolicy::Off);
    assert!(!prepared.config.routes[0].recovery.replay_allowed);
    assert!(!prepared.config.routes[0].recovery.rehydrate_on_restart);
    assert!(
        prepared.config.routes[0].recovery.rehydrate_on_connect
            == config.routes[0].recovery.rehydrate_on_connect
    );
}

#[test]
fn normal_profile_keeps_routes_and_reports_nothing() {
    let config = LaunchConfig {
        routes: vec![LaunchRoute {
            id: "camera".to_string(),
            capture: CapturePolicy::AlwaysBounded,
            recovery: RouteRecoverySettings {
                replay_allowed: true,
                rehydrate_on_restart: false,
                rehydrate_on_connect: true,
            },
        }],
    };
    let prepared = apply_launch_profile(&config, ProxyLaunchProfileMode::Normal);
    assert_eq!(prepared.status.mode, ProxyLaunchProfileMode::Normal);
    assert!(prepared.status.disabled_capture_routes.is_empty());
    assert_eq!(prepared.config.routes[0].capture, CapturePolicy::AlwaysBounded);
    assert!(prepared.config.routes[0].recovery.replay_allowed);
    let again = apply_launch_profile(
        &apply_launch_profile(&config, ProxyLaunchProfileMode::SafeMode).config,
        ProxyLaunchProfileMode::SafeMode,
    );
    assert!(again.status.disabled_capture_routes.is_empty());
    assert!(again.status.disabled_replay_routes.is_empty());
    assert_eq!(ProxyLaunchProfileMode::SafeMode.as_str(), "safe_mode");
}

#[test]
fn connection_reset_is_treated_as_connection_local_failure() {
    let result = process_connection_task_result(ConnectionTaskResult::Failed(ConnectionFailure {
        kind: ConnectionErrorKind::ConnectionReset,
        message: "connection reset by peer".to_string(),
    }));
    assert!(result.is_ok());
}

#[test]
fn other_connection_failures_are_reported() {
    assert!(is_connection_local_error(ConnectionErrorKind::BrokenPipe));
    assert!(!is_connection_local_error(ConnectionErrorKind::Other));
    match process_connection_task_result(ConnectionTaskResult::JoinFailed("boom".to_string())) {
        Err(f) => {
            assert_eq!(f.kind, ConnectionErrorKind::Other);
            assert_eq!(f.message, "control connection task join failed: boom");
        }
        Ok(()) => panic!("join failure must be reported"),
    }
    assert!(process_connection_task_result(ConnectionTaskResult::Cancelled).is_ok());
    assert!(process_connection_task_result(ConnectionTaskResult::Served).is_ok());
}

fn destination_status(id: &str) -> UdpProxyDestinationStatus {
    UdpProxyDestinationStatus {
        id: id.to_string(),
        bind: "127.0.0.1:0".to_string(),
        target: "127.0.0.1:9001".to_string(),
        route_ids: strings(&["camera"]),
        queue_depth: 64,
        drop_policy: "drop_oldest".to_string(),
        breaker_open_after_consecutive_failures: 3,
        breaker_open_after_consecutive_queue_overflows: 5,
        breaker_cooldown_ms: 1000,
    }
}

fn status_with_runtime() -> UdpProxyStatusSnapshot {
    UdpProxyStatusSnapshot {
        summary: UdpProxySummary { active_routes: 2, warning_count: 1, ..UdpProxySummary::default() },
        launch_profile: ProxyLaunchProfileStatus {
            mode: ProxyLaunchProfileMode::SafeMode,
            disabled_capture_routes: strings(&["camera"]),
            disabled_replay_routes: Vec::new(),
            disabled_restart_rehydrate_routes: Vec::new(),
        },
        route_assessments: vec![
            UdpProxyRouteAssessment {
                route_id: "camera".to_string(),
                active: true,
                direct_udp_fallback_available: true,
                warnings: Vec::new(),
            },
            UdpProxyRouteAssessment {
                route_id: "lights".to_string(),
                active: true,
                direct_udp_fallback_available: true,
                warnings: Vec::new(),
            },
        ],
        routes: Vec::new(),
        fallback_routes: Vec::new(),
        destinations: vec![destination_status("renderer")],
        runtime: Some(UdpProxyRuntimeStatus {
            traffic_frozen: false,
            isolated_route_ids: strings(&["lights"]),
            config_revision: 4,
            config_rejections_total: 0,
            config_blocked_total: 1,
            config_reload_failures_total: 0,
            ingress_packets_total: vec![counter("in_a", 10), counter("in_b", 30)],
            ingress_drops_total: vec![counter("in_a", 0), counter("in_b", 2)],
            route_matches_total: vec![counter("camera", 5)],
            dispatch_failures_total: vec![counter("camera", 3)],
            route_transform_failures_total: Vec::new(),
            destination_drops_total: vec![counter("renderer", 1)],
            destinations: vec![UdpProxyDestinationRuntimeStatus {
                destination_id: "renderer".to_string(),
                queue_depth: 4,
                send_total: 20,
                send_failures_total: 2,
                breaker_state: Some(BreakerStateSnapshot::HalfOpen),
            }],
            recent_operator_actions: vec![RecentOperatorAction {
                action: "isolate_route".to_string(),
                recorded_at_unix_ms: 100,
                details: strings(&["route_id=lights"]),
            }],
            recent_config_events: vec![
                RecentConfigEvent {
                    kind: RecentConfigEventKind::Blocked,
                    recorded_at_unix_ms: 50,
                    revision: Some(3),
                    launch_profile_mode: None,
                    details: Vec::new(),
                },
                RecentConfigEvent {
                    kind: RecentConfigEventKind::Applied,
                    recorded_at_unix_ms: 60,
                    revision: Some(4),
                    launch_profile_mode: Some("safe_mode".to_string()),
                    details: strings(&["ok"]),
                },
            ],
        }),
    }
}

#[test]
fn report_collects_signals_state_and_lines() {
    let status = status_with_runtime();
    let report = proxy_operator_report(
        &status,
        ProxyRuntimeSafetyPolicy { fail_on_warnings: true, require_fallback_ready: false },
        strings(&["w1"]),
        Vec::new(),
    );
    assert_eq!(report.state, ProxyOperatorState::Warning);
    assert_eq!(report.overrides.launch_profile_mode, "safe_mode");
    assert_eq!(report.overrides.isolated_route_ids, strings(&["lights"]));
    assert_eq!(report.route_signals.len(), 2);
    assert_eq!(report.route_signals[0].dispatch_failures_total, 3);
    assert!(!report.route_signals[0].isolated);
    assert!(report.route_signals[1].isolated);
    assert_eq!(report.destination_signals[0].queue_depth, 4);
    assert_eq!(report.destination_signals[0].drops_total, 1);
    assert_eq!(report.runtime_signals.ingresses_with_drops, strings(&["in_b"]));
    assert_eq!(report.runtime_signals.routes_with_dispatch_failures, strings(&["camera"]));
    assert_eq!(report.runtime_signals.destinations_with_half_open_breakers, strings(&["renderer"]));
    assert!(report.runtime_signals.destinations_with_open_breakers.is_empty());
    assert_eq!(
        report.highlights.latest_operator_action.as_ref().map(|a| a.action.as_str()),
        Some("isolate_route")
    );
    assert_eq!(
        report.highlights.latest_config_issue.as_ref().map(|e| e.kind),
        Some(RecentConfigEventKind::Blocked)
    );
    assert_eq!(
        report.report_lines[0],
        "proxy summary: active_routes=2 disabled_routes=0 active_ingresses=0 active_destinations=0 fallback_ready_routes=0 fallback_missing_routes=0 warnings=1"
    );
    assert_eq!(
        report.report_lines[1],
        "proxy launch profile: mode=safe_mode disabled_capture_routes=1 disabled_replay_routes=0 disabled_restart_rehydrate_routes=0"
    );
    assert_eq!(
        report.report_lines[2],
        "proxy runtime: traffic_frozen=false isolated_routes=1 config_revision=4 config_rejections_total=0 config_blocked_total=1 config_reload_failures_total=0"
    );
    assert_eq!(report.report_lines[3], "proxy warning: w1");
    assert_eq!(
        report.report_lines[4],
        "proxy operator state: state=warning warnings=1 blockers=0 latest_operator_action=isolate_route latest_config_issue=blocked"
    );
    assert_eq!(
        report.report_lines[7],
        "proxy safety policy: fail_on_warnings=true require_fallback_ready=false"
    );
    assert_eq!(report.report_lines.len(), 8);
}

#[test]
fn blockers_make_the_report_blocked() {
    let status = status_with_runtime();
    let report = proxy_operator_report(
        &status,
        ProxyRuntimeSafetyPolicy::default(),
        Vec::new(),
        strings(&["no fallback"]),
    );
    assert_eq!(report.state, ProxyOperatorState::Blocked);
    assert_eq!(report.report_lines.last().unwrap(), "proxy blocker: no fallback");
    let lines = proxy_startup_report_lines(&status, &Vec::new());
    assert_eq!(lines.len(), 3);
}

#[test]
fn signals_view_filters_problematic() {
    let status = status_with_runtime();
    let report = proxy_operator_report(&status, ProxyRuntimeSafetyPolicy::default(), Vec::new(), Vec::new());
    let all = proxy_operator_signals_view(&report, ProxyOperatorSignalScope::All);
    assert_eq!(all.route_signals.len(), 2);
    let problematic = proxy_operator_signals_view(&report, ProxyOperatorSignalScope::Problematic);
    let ids: Vec<&str> = problematic.route_signals.iter().map(|s| s.route_id.as_str()).collect();
    assert_eq!(ids, vec!["camera", "lights"]);
    assert_eq!(problematic.destination_signals.len(), 1);
    let attention = proxy_operator_attention(&report);
    assert_eq!(attention.destinations_with_backlog, strings(&["renderer"]));
    assert_eq!(attention.problematic_route_ids, strings(&["camera", "lights"]));
}

#[test]
fn incidents_bound_history_to_the_newest_issues() {
    let status = status_with_runtime();
    let report = proxy_operator_report(&status, ProxyRuntimeSafetyPolicy::default(), Vec::new(), Vec::new());
    let runtime = status.runtime.clone().unwrap();
    let incidents = proxy_operator_incidents_from_histories(
        &report,
        runtime.recent_operator_actions.clone(),
        runtime.recent_config_events.clone(),
        Some(1),
    );
    assert_eq!(incidents.recent_operator_actions.len(), 1);
    assert_eq!(incidents.recent_config_issues.len(), 1);
    assert_eq!(incidents.recent_config_issues[0].kind, RecentConfigEventKind::Blocked);
    assert_eq!(bounded_recent_entries(vec![1, 2, 3, 4], Some(2)), vec![3, 4]);
    assert_eq!(bounded_recent_entries(vec![1, 2], Some(5)), vec![1, 2]);
    assert_eq!(bounded_recent_entries(vec![1, 2], None), vec![1, 2]);
    assert!(bounded_recent_config_issues(runtime.recent_config_events, Some(0)).is_empty());
}

#[test]
fn traffic_summary_totals_and_hotspots() {
    let status = status_with_runtime();
    let runtime = status.runtime.unwrap();
    let summary = traffic_summary_from_runtime(&runtime);
    assert!(summary.has_runtime_status);
    assert_eq!(summary.ingress_packets_total, 40);
    assert_eq!(summary.ingress_drops_total, 2);
    assert_eq!(summary.destination_send_total, 20);
    assert_eq!(summary.destination_queue_depth_total, 4);
    assert_eq!(summary.destinations_with_backlog, 1);
    assert_eq!(summary.destinations_with_half_open_breakers, 1);
    assert_eq!(summary.destinations_with_open_breakers, 0);
    let ids: Vec<&str> = summary.busiest_ingresses.iter().map(|e| e.id.as_str()).collect();
    assert_eq!(ids, vec!["in_b", "in_a"]);
    assert_eq!(summary.noisiest_destinations[0].total, 3);
}

#[test]
fn hotspots_keep_three_largest_by_total_then_id() {
    let ranked = top_entries_from_iter(
        vec![counter("d", 5), counter("a", 0), counter("c", 9), counter("b", 5), counter("e", 1)],
        3,
    );
    let got: Vec<(&str, u64)> = ranked.iter().map(|e| (e.id.as_str(), e.total)).collect();
    assert_eq!(got, vec![("c", 9), ("b", 5), ("d", 5)]);
}

#[test]
fn timeline_is_newest_first_with_config_details() {
    let status = status_with_runtime();
    let runtime = status.runtime.unwrap();
    let timeline = timeline_from_history(&runtime.recent_operator_actions, &runtime.recent_config_events);
    let labels: Vec<&str> = timeline.iter().map(|e| e.label.as_str()).collect();
    assert_eq!(labels, vec!["isolate_route", "config_applied", "config_blocked"]);
    assert_eq!(timeline[0].category, ProxyOperatorTimelineCategory::OperatorAction);
    assert_eq!(timeline[1].details, strings(&["revision=4", "ok", "launch_profile=safe_mode"]));
    assert_eq!(timeline[2].details, strings(&["revision=3"]));
    assert_eq!(config_event_label(RecentConfigEventKind::ReloadFailed), "config_reload_failed");
}

#[test]
fn detail_states_follow_their_priority() {
    assert_eq!(route_detail_state(false, true, false), ProxyOperatorRouteDetailState::Disabled);
    assert_eq!(route_detail_state(true, true, true), ProxyOperatorRouteDetailState::Isolated);
    assert_eq!(route_detail_state(true, false, true), ProxyOperatorRouteDetailState::Healthy);
    assert_eq!(route_detail_state(true, false, false), ProxyOperatorRouteDetailState::Warning);
    assert_eq!(
        destination_detail_state(0, 0, 0, Some(BreakerStateSnapshot::Open)),
        ProxyOperatorDestinationDetailState::Blocked
    );
    assert_eq!(
        destination_detail_state(0, 0, 0, Some(BreakerStateSnapshot::HalfOpen)),
        ProxyOperatorDestinationDetailState::Warning
    );
    assert_eq!(destination_detail_state(0, 0, 0, None), ProxyOperatorDestinationDetailState::Healthy);
    assert_eq!(destination_detail_state(1, 0, 0, None), ProxyOperatorDestinationDetailState::Warning);
}

#[test]
fn route_warnings_are_sorted_and_unique() {
    let assessment = UdpProxyRouteAssessment {
        route_id: "camera".to_string(),
        active: true,
        direct_udp_fallback_available: true,
        warnings: strings(&["zeta", "alpha"]),
    };
    let status = status_with_runtime();
    let report = proxy_operator_report(&status, ProxyRuntimeSafetyPolicy::default(), Vec::new(), Vec::new());
    let mut signal = report.route_signals[0].clone();
    signal.config_warnings = strings(&["alpha"]);
    let warnings = merge_route_warnings(Some(&assessment), Some(&signal));
    assert_eq!(warnings, strings(&["alpha", "dispatch failures observed (3)", "zeta"]));
}

#[test]
fn control_plane_results_and_errors() {
    let status = status_with_runtime();
    let result = dispatch_result(0, status.clone());
    assert!(!result.applied);
    assert_eq!(result.dispatch_count, Some(0));
    let result = dispatch_result(2, status.clone());
    assert!(result.applied);
    let result = status_result(true, status);
    assert!(result.applied);
    assert_eq!(result.dispatch_count, None);
    assert!(ensure_route_exists(true, "camera").is_ok());
    match ensure_route_exists(false, "camera") {
        Err(e) => assert_eq!(e.message(), "unknown route `camera`"),
        Ok(()) => panic!("missing route must be refused"),
    }
    match ensure_destination_exists(false, "renderer") {
        Err(ControlPlaneError::UnknownDestination(id)) => assert_eq!(id, "renderer"),
        _ => panic!("missing destination must be refused"),
    }
    match ensure_replay_targets_exist(false, "camera", false, "sandbox") {
        Err(ControlPlaneError::UnknownRoute(id)) => assert_eq!(id, "camera"),
        _ => panic!("the route is checked first"),
    }
    match ensure_replay_targets_exist(true, "camera", false, "sandbox") {
        Err(e) => assert_eq!(e.message(), "unknown destination `sandbox`"),
        Ok(()) => panic!("missing sandbox must be refused"),
    }
    assert_eq!(ControlPlaneError::ActionFailed("boom".to_string()).message(), "boom");
}

#[test]
fn command_options_map_to_launch_settings() {
    let options = ProxyCommandOptions {
        fail_on_warnings: true,
        require_fallback_ready: false,
        safe_mode: true,
        start_frozen: true,
    };
    assert_eq!(launch_profile_mode(options), ProxyLaunchProfileMode::SafeMode);
    let policy = safety_policy(options);
    assert!(policy.fail_on_warnings);
    assert!(!policy.require_fallback_ready);
    let startup = startup_options(options);
    assert_eq!(startup.frozen_behavior, FrozenStartupBehavior::OperatorRequested);
    assert!(startup.isolated_route_ids.is_empty());
    assert_eq!(
        startup_options(ProxyCommandOptions::default()).frozen_behavior,
        FrozenStartupBehavior::Normal
    );
    assert_eq!(launch_profile_mode(ProxyCommandOptions::default()), ProxyLaunchProfileMode::Normal);
}

#[test]
fn blocked_reasons_are_listed_one_per_line() {
    assert_eq!(format_blocked_reasons("config blocked", &Vec::new()), "config blocked");
    assert_eq!(
        format_blocked_reasons("config blocked", &strings(&["a", "b"])),
        "config blocked:\n- a\n- b"
    );
    assert_eq!(format_blockers(&strings(&["only"])), "- only");
    assert_eq!(format_blockers(&Vec::new()), "");
}

#[test]
fn diagnostics_keep_the_newest_history() {
    let status = status_with_runtime();
    let diagnostics = proxy_operator_diagnostics(
        status.clone(),
        ProxyRuntimeSafetyPolicy::default(),
        Some(1),
        strings(&["w"]),
        Vec::new(),
    );
    assert_eq!(diagnostics.recent_operator_actions.len(), 1);
    assert_eq!(diagnostics.recent_config_events.len(), 1);
    assert_eq!(diagnostics.recent_config_events[0].kind, RecentConfigEventKind::Applied);
    assert_eq!(diagnostics.overview.report.warnings, strings(&["w"]));
    let everything = proxy_operator_diagnostics(status, ProxyRuntimeSafetyPolicy::default(), None, Vec::new(), Vec::new());
    assert_eq!(everything.recent_config_events.len(), 2);

    let report = proxy_operator_report(&status_with_runtime(), ProxyRuntimeSafetyPolicy::default(), Vec::new(), strings(&["b"]));
    let incidents = proxy_operator_incidents(&report, Some(3));
    assert_eq!(incidents.open_blockers, strings(&["b"]));
    assert!(incidents.recent_operator_actions.is_empty());
    assert!(incidents.recent_config_issues.is_empty());
}

#[test]
fn readiness_gate_admits_degraded_only_when_allowed() {
    let ready = ProxyOperatorReadiness { level: ProxyOperatorReadinessLevel::Ready, ready: true, reasons: Vec::new() };
    let degraded = ProxyOperatorReadiness {
        level: ProxyOperatorReadinessLevel::Degraded,
        ready: false,
        reasons: strings(&["route camera is isolated"]),
    };
    let blocked = ProxyOperatorReadiness {
        level: ProxyOperatorReadinessLevel::Blocked,
        ready: false,
        reasons: strings(&["missing fallback"]),
    };
    assert!(ready.is_acceptable(false));
    assert!(ready.is_acceptable(true));
    assert!(!degraded.is_acceptable(false));
    assert!(degraded.is_acceptable(true));
    assert!(!blocked.is_acceptable(true));
}
