use rosc_broker::config_change::{config_applied_event, initial_config_applied_event, ConfigDiff};
use rosc_broker::console::{
    applied_config_line, config_diff_lines, initial_config_line, join_texts, kept_revision_line,
    KeptRevisionNotice,
};
use rosc_broker::control::{
    check_listen_addresses, is_loopback, ControlPlaneError, FrozenStartupBehavior, ListenIp,
    ResolvedListenAddress,
};
use rosc_broker::http::{
    absorb_chunk, is_white_space_char, parse_http_request, request_from_text, HttpRequestError,
    ReadProgress, REQUEST_HEADER_LIMIT,
};
use rosc_broker::lifecycle::{
    config_unchanged, released_route_isolations, reload_gate, reload_startup_options, startup_gate,
    startup_traffic_action, StartupTrafficAction,
};
use rosc_broker::response::{
    action_error, invalid_component_error, invalid_query_error, routing_error,
    unsupported_route_error, HttpStatus,
};
use rosc_broker::routes::{route_request, ComponentLabel, ControlRoute, QueryParameter};

fn strings(items: &[&str]) -> Vec<String> {
    items.iter().map(|s| s.to_string()).collect()
}

#[test]
fn request_head_is_read_until_the_blank_line() {
    let mut buffer = Vec::new();
    assert_eq!(absorb_chunk(&mut buffer, b"GET /status HTTP/1.1\r\nHost: x\r\n"), ReadProgress::NeedMore);
    assert_eq!(absorb_chunk(&mut buffer, b"\r\n"), ReadProgress::HeadersComplete);
    assert_eq!(buffer, b"GET /status HTTP/1.1\r\nHost: x\r\n\r\n".to_vec());
    let request = parse_http_request(&buffer).unwrap();
    assert_eq!(request.method, "GET");
    assert_eq!(request.path, "/status");
}

#[test]
fn empty_chunk_ends_the_head_and_keeps_the_buffer() {
    let mut buffer = b"POST /traffic/freeze".to_vec();
    assert_eq!(absorb_chunk(&mut buffer, b""), ReadProgress::Ended);
    assert_eq!(buffer, b"POST /traffic/freeze".to_vec());
    let request = parse_http_request(&buffer).unwrap();
    assert_eq!(request.method, "POST");
    assert_eq!(request.path, "/traffic/freeze");
}

#[test]
fn oversized_heads_are_refused() {
    let mut buffer = Vec::new();
    let chunk = vec![b'a'; REQUEST_HEADER_LIMIT];
    assert_eq!(absorb_chunk(&mut buffer, &chunk), ReadProgress::NeedMore);
    assert_eq!(absorb_chunk(&mut buffer, b"b"), ReadProgress::TooLarge);
    assert_eq!(HttpRequestError::HeadersTooLarge.message(), "request headers exceed 8192 bytes");
    let mut complete = vec![b'a'; REQUEST_HEADER_LIMIT + 10];
    assert_eq!(absorb_chunk(&mut complete, b"\r\n\r\n"), ReadProgress::HeadersComplete);
}

#[test]
fn request_lines_missing_parts_are_refused() {
    assert!(matches!(parse_http_request(b""), Err(HttpRequestError::MissingRequestLine)));
    assert!(matches!(parse_http_request(b"\r\n"), Err(HttpRequestError::MissingMethod)));
    assert!(matches!(parse_http_request(b"   \r\n"), Err(HttpRequestError::MissingMethod)));
    assert!(matches!(parse_http_request(b"GET\r\n/status"), Err(HttpRequestError::MissingPath)));
    assert_eq!(HttpRequestError::MissingRequestLine.message(), "missing request line");
    assert_eq!(HttpRequestError::MissingMethod.message(), "missing request method");
    assert_eq!(HttpRequestError::MissingPath.message(), "missing request path");
}

#[test]
fn request_line_splits_at_any_white_space() {
    let request = request_from_text("  GET\t/routes/a%20b \u{a0}HTTP/1.1").unwrap();
    assert_eq!(request.method, "GET");
    assert_eq!(request.path, "/routes/a%20b");
    let request = request_from_text("GET\u{3000}/x").unwrap();
    assert_eq!(request.path, "/x");
    assert!(is_white_space_char('\u{85}'));
    assert!(is_white_space_char('\u{2009}'));
    assert!(!is_white_space_char('\u{200b}'));
    assert!(!is_white_space_char('x'));
}

#[test]
fn ill_formed_utf8_reads_as_replacement_characters() {
    let request = parse_http_request(b"GET /a\xffb HTTP/1.1\r\n\r\n").unwrap();
    assert_eq!(request.method, "GET");
    assert_eq!(request.path, "/a\u{fffd}b");
}

#[test]
fn loopback_listeners_only() {
    assert!(is_loopback(ListenIp::V4(127, 0, 0, 1)));
    assert!(is_loopback(ListenIp::V4(127, 8, 9, 10)));
    assert!(!is_loopback(ListenIp::V4(0, 0, 0, 0)));
    assert!(is_loopback(ListenIp::V6(0, 0, 0, 0, 0, 0, 0, 1)));
    assert!(!is_loopback(ListenIp::V6(0, 0, 0, 0, 0, 0xffff, 0x7f00, 1)));

    let ok = vec![ResolvedListenAddress { ip: ListenIp::V4(127, 0, 0, 1), text: "127.0.0.1:0".to_string() }];
    assert!(check_listen_addresses("127.0.0.1:0", &ok).is_ok());

    let any = vec![ResolvedListenAddress { ip: ListenIp::V4(0, 0, 0, 0), text: "0.0.0.0:0".to_string() }];
    let error = check_listen_addresses("0.0.0.0:0", &any).unwrap_err();
    assert!(error.contains("control listener must bind to a loopback address"));
    assert_eq!(error, "control listener must bind to a loopback address, got 0.0.0.0:0");

    let mixed = vec![
        ResolvedListenAddress { ip: ListenIp::V6(0, 0, 0, 0, 0, 0, 0, 1), text: "[::1]:80".to_string() },
        ResolvedListenAddress { ip: ListenIp::V4(10, 0, 0, 1), text: "10.0.0.1:80".to_string() },
    ];
    assert_eq!(
        check_listen_addresses("localhost:80", &mixed).unwrap_err(),
        "control listener must bind to a loopback address, got 10.0.0.1:80"
    );
    assert_eq!(
        check_listen_addresses("nowhere:80", &Vec::new()).unwrap_err(),
        "failed to resolve control listener on nowhere:80: no socket addresses"
    );
}

#[test]
fn reload_carries_overrides_and_reports_released_isolations() {
    let options = reload_startup_options(true, &strings(&["a", "b"]));
    assert_eq!(options.frozen_behavior, FrozenStartupBehavior::Restored);
    assert_eq!(options.isolated_route_ids, strings(&["a", "b"]));
    let options = reload_startup_options(false, &Vec::new());
    assert_eq!(options.frozen_behavior, FrozenStartupBehavior::Normal);
    assert!(options.isolated_route_ids.is_empty());

    assert_eq!(
        released_route_isolations(&strings(&["a", "b", "c"]), &strings(&["b"])),
        strings(&["a", "c"])
    );
    assert!(released_route_isolations(&strings(&["a"]), &strings(&["a", "z"])).is_empty());

    assert_eq!(startup_traffic_action(FrozenStartupBehavior::Normal), StartupTrafficAction::Flow);
    assert_eq!(
        startup_traffic_action(FrozenStartupBehavior::OperatorRequested),
        StartupTrafficAction::Freeze
    );
    assert_eq!(
        startup_traffic_action(FrozenStartupBehavior::Restored),
        StartupTrafficAction::RestoreFreeze
    );
}

#[test]
fn gates_open_without_blockers() {
    assert!(startup_gate(&Vec::new()).is_ok());
    assert!(reload_gate(&Vec::new()).is_ok());
    assert_eq!(
        startup_gate(&strings(&["missing fallback", "warnings present"])).unwrap_err(),
        "udp proxy startup blocked:\n- missing fallback\n- warnings present"
    );
    assert_eq!(reload_gate(&strings(&["x"])).unwrap_err(), "udp proxy reload blocked:\n- x");
}

fn diff() -> ConfigDiff {
    ConfigDiff {
        added_ingresses: strings(&["in_a", "in_b"]),
        removed_ingresses: Vec::new(),
        changed_ingresses: strings(&["in_c"]),
        added_destinations: strings(&["renderer"]),
        removed_destinations: strings(&["old"]),
        changed_destinations: Vec::new(),
        added_routes: strings(&["camera"]),
        removed_routes: Vec::new(),
        changed_routes: strings(&["lights", "fog"]),
    }
}

#[test]
fn configuration_lines_list_ids() {
    assert_eq!(join_texts(&strings(&["a", "b", "c"]), ","), "a,b,c");
    assert_eq!(join_texts(&Vec::new(), ","), "");
    assert_eq!(
        applied_config_line(7, &diff()),
        "applied config revision=7 added_ingresses=in_a,in_b removed_ingresses= changed_ingresses=in_c added_destinations=renderer removed_destinations=old changed_destinations= added_routes=camera removed_routes= changed_routes=lights,fog"
    );
    assert_eq!(
        initial_config_line(1, &diff()),
        "loaded initial config: revision=1 added_ingresses=in_a,in_b added_destinations=renderer added_routes=camera"
    );
    let lines = config_diff_lines(3, &diff());
    assert_eq!(lines.len(), 10);
    assert_eq!(lines[0], "current_revision=3");
    assert_eq!(lines[1], "added_ingresses=in_a,in_b");
    assert_eq!(lines[2], "removed_ingresses=");
    assert_eq!(lines[9], "changed_routes=lights,fog");
}

#[test]
fn kept_revision_lines_name_the_reason() {
    assert_eq!(
        kept_revision_line(&KeptRevisionNotice::ConfigRejected("bad toml".to_string()), Some(4)),
        "rejected config change; keeping revision=4 reason=bad toml"
    );
    assert_eq!(
        kept_revision_line(&KeptRevisionNotice::ConfigBlocked(strings(&["a", "b"])), None),
        "blocked config change; keeping revision=0 reasons=a | b"
    );
    assert_eq!(
        kept_revision_line(&KeptRevisionNotice::ProxyBlocked(strings(&["a"])), Some(2)),
        "blocked proxy reload; keeping revision=2 reasons=a"
    );
    assert_eq!(
        kept_revision_line(&KeptRevisionNotice::ProxyRejected("x".to_string()), Some(2)),
        "rejected proxy reload; keeping revision=2 reason=x"
    );
    assert_eq!(
        kept_revision_line(&KeptRevisionNotice::ProxyReloadFailed("bind".to_string()), Some(9)),
        "failed proxy reload; keeping revision=9 reason=bind"
    );
}

#[test]
fn applied_events_count_the_diff() {
    let event = config_applied_event(5, &diff());
    assert_eq!(event.revision, 5);
    assert_eq!(event.added_ingresses, 2);
    assert_eq!(event.removed_ingresses, 0);
    assert_eq!(event.changed_ingresses, 1);
    assert_eq!(event.removed_destinations, 1);
    assert_eq!(event.changed_routes, 2);
    let initial = initial_config_applied_event(1, 1, 1);
    assert_eq!(initial.revision, 1);
    assert_eq!(initial.added_ingresses, 1);
    assert_eq!(initial.added_destinations, 1);
    assert_eq!(initial.added_routes, 1);
    assert_eq!(initial.removed_routes + initial.changed_routes, 0);
}

#[test]
fn error_replies_carry_status_and_text() {
    let e = invalid_component_error(ComponentLabel::RouteId);
    assert_eq!(e.status, HttpStatus::BadRequest);
    assert_eq!(e.error, "invalid percent-encoding in route id");
    let e = invalid_query_error(QueryParameter::Limit);
    assert_eq!(e.status.status_line(), "400 Bad Request");
    assert_eq!(e.error, "invalid query parameter `limit`");
    let e = unsupported_route_error("/nope");
    assert_eq!(e.status, HttpStatus::NotFound);
    assert_eq!(e.error, "unsupported control route /nope");
    let e = action_error(&ControlPlaneError::UnknownDestination("renderer".to_string()));
    assert_eq!(e.status.status_line(), "404 Not Found");
    assert_eq!(e.error, "unknown destination `renderer`");
    let e = action_error(&ControlPlaneError::ActionFailed("replay failed".to_string()));
    assert_eq!(e.status.status_line(), "422 Unprocessable Entity");
    assert_eq!(e.error, "replay failed");
    assert_eq!(HttpStatus::ServiceUnavailable.status_line(), "503 Service Unavailable");

    let route = route_request("GET", "/definitely/not/here");
    assert!(matches!(route, ControlRoute::Unsupported));
    let reply = routing_error(&route, "/definitely/not/here").unwrap();
    assert_eq!(reply.error, "unsupported control route /definitely/not/here");
    assert!(routing_error(&route_request("GET", "/status"), "/status").is_none());
}

#[test]
fn config_polls_skip_the_applied_text() {
    assert!(config_unchanged(Some("a = 1"), "a = 1"));
    assert!(!config_unchanged(Some("a = 1"), "a = 2"));
    assert!(!config_unchanged(None, ""));
}
