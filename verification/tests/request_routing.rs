use rosc_broker::policy::ProxyOperatorSignalScope;
use rosc_broker::request::{
    allow_degraded, decode_hex_nibble, decode_uri_component, history_limit, parse_usize,
    query_parameter, replay_limit, split_query,
};
use rosc_broker::routes::{
    route_request, ComponentLabel, ControlRoute, DashboardAsset, HistoryView, QueryParameter,
    ScopeTarget, ScopedView,
};

#[test]
fn split_query_separates_path_and_query() {
    assert_eq!(split_query("/status?limit=3"), ("/status", Some("limit=3")));
    assert_eq!(split_query("/status"), ("/status", None));
    assert_eq!(split_query("/a?b?c"), ("/a", Some("b?c")));
}

#[test]
fn query_parameter_returns_first_match() {
    assert_eq!(query_parameter(Some("limit=3&limit=4"), "limit"), Some("3"));
    assert_eq!(query_parameter(Some("scope=all&limit=9"), "limit"), Some("9"));
    assert_eq!(query_parameter(Some("limit"), "limit"), None);
    assert_eq!(query_parameter(None, "limit"), None);
    assert_eq!(query_parameter(Some("limit="), "limit"), Some(""));
}

#[test]
fn parse_usize_follows_from_str() {
    assert_eq!(parse_usize("42"), Some(42));
    assert_eq!(parse_usize("+7"), Some(7));
    assert_eq!(parse_usize("0"), Some(0));
    assert_eq!(parse_usize(""), None);
    assert_eq!(parse_usize("+"), None);
    assert_eq!(parse_usize("-1"), None);
    assert_eq!(parse_usize("1x"), None);
    assert_eq!(parse_usize("99999999999999999999999"), None);
}

#[test]
fn limits_default_and_reject_zero() {
    assert_eq!(replay_limit(None), Ok(100));
    assert_eq!(replay_limit(Some("limit=5")), Ok(5));
    assert_eq!(replay_limit(Some("limit=0")), Err(()));
    assert_eq!(replay_limit(Some("limit=x")), Err(()));
    assert_eq!(history_limit(None), Ok(None));
    assert_eq!(history_limit(Some("limit=12")), Ok(Some(12)));
    assert_eq!(history_limit(Some("limit=0")), Err(()));
}

#[test]
fn allow_degraded_accepts_boolean_spellings() {
    assert_eq!(allow_degraded(None), Ok(false));
    assert_eq!(allow_degraded(Some("allow_degraded=true")), Ok(true));
    assert_eq!(allow_degraded(Some("allow_degraded=1")), Ok(true));
    assert_eq!(allow_degraded(Some("allow_degraded=false")), Ok(false));
    assert_eq!(allow_degraded(Some("allow_degraded=0")), Ok(false));
    assert_eq!(allow_degraded(Some("allow_degraded=yes")), Err(()));
}

#[test]
fn decode_uri_component_decodes_percent_escapes() {
    assert_eq!(decode_uri_component("cam%20era"), Ok("cam era".to_string()));
    assert_eq!(decode_uri_component("plain"), Ok("plain".to_string()));
    assert_eq!(decode_uri_component("%41%62"), Ok("Ab".to_string()));
    assert_eq!(decode_uri_component("%zz"), Err(()));
    assert_eq!(decode_uri_component("%2"), Err(()));
    assert_eq!(decode_uri_component("%ff"), Err(()));
}

#[test]
fn hex_nibbles_cover_both_cases() {
    assert_eq!(decode_hex_nibble(b'0'), Some(0));
    assert_eq!(decode_hex_nibble(b'9'), Some(9));
    assert_eq!(decode_hex_nibble(b'a'), Some(10));
    assert_eq!(decode_hex_nibble(b'F'), Some(15));
    assert_eq!(decode_hex_nibble(b'g'), None);
}

#[test]
fn top_level_get_routes() {
    assert!(matches!(route_request("GET", "/status"), ControlRoute::Status));
    assert!(matches!(route_request("GET", "/report"), ControlRoute::Report));
    assert!(matches!(route_request("GET", "/blockers"), ControlRoute::Blockers));
    assert!(matches!(
        route_request("GET", "/dashboard/"),
        ControlRoute::Asset(DashboardAsset::Page)
    ));
    assert!(matches!(
        route_request("GET", "/dashboard/app.css"),
        ControlRoute::Asset(DashboardAsset::Stylesheet)
    ));
    assert!(matches!(
        route_request("GET", "/readyz?allow_degraded=1"),
        ControlRoute::Readyz { allow_degraded: true }
    ));
    assert!(matches!(
        route_request("GET", "/signals?scope=problematic"),
        ControlRoute::Signals { scope: ProxyOperatorSignalScope::Problematic }
    ));
    assert!(matches!(
        route_request("GET", "/signals"),
        ControlRoute::Signals { scope: ProxyOperatorSignalScope::All }
    ));
    assert!(matches!(
        route_request("GET", "/board?limit=4"),
        ControlRoute::History { view: HistoryView::Board, limit: Some(4) }
    ));
    assert!(matches!(
        route_request("GET", "/history/config-events"),
        ControlRoute::History { view: HistoryView::ConfigEvents, limit: None }
    ));
}

#[test]
fn invalid_queries_name_their_parameter() {
    assert!(matches!(
        route_request("GET", "/signals?scope=some"),
        ControlRoute::InvalidQuery(QueryParameter::Scope)
    ));
    assert!(matches!(
        route_request("GET", "/readyz?allow_degraded=maybe"),
        ControlRoute::InvalidQuery(QueryParameter::AllowDegraded)
    ));
    assert!(matches!(
        route_request("GET", "/snapshot?limit=0"),
        ControlRoute::InvalidQuery(QueryParameter::Limit)
    ));
}

#[test]
fn post_actions_route() {
    assert!(matches!(route_request("POST", "/freeze"), ControlRoute::FreezeTraffic));
    assert!(matches!(route_request("POST", "/thaw"), ControlRoute::ThawTraffic));
    assert!(matches!(
        route_request("POST", "/routes/restore-all"),
        ControlRoute::RestoreAllRoutes
    ));
    match route_request("POST", "/routes/cam%20era/isolate") {
        ControlRoute::IsolateRoute { route_id } => assert_eq!(route_id, "cam era"),
        _ => panic!("expected isolate"),
    }
    match route_request("POST", "/routes/camera/replay/sand%2Dbox?limit=7") {
        ControlRoute::ReplayRoute { route_id, sandbox_destination_id, limit } => {
            assert_eq!(route_id, "camera");
            assert_eq!(sandbox_destination_id, "sand-box");
            assert_eq!(limit, 7);
        }
        _ => panic!("expected replay"),
    }
    match route_request("POST", "/destinations/renderer/rehydrate") {
        ControlRoute::RehydrateDestination { destination_id } => {
            assert_eq!(destination_id, "renderer")
        }
        _ => panic!("expected rehydrate"),
    }
}

#[test]
fn scoped_views_and_component_errors() {
    match route_request("GET", "/routes/camera/casebook?limit=2") {
        ControlRoute::Scoped { target, view, id, limit } => {
            assert_eq!(target, ScopeTarget::Route);
            assert_eq!(view, ScopedView::Casebook);
            assert_eq!(id, "camera");
            assert_eq!(limit, Some(2));
        }
        _ => panic!("expected scoped view"),
    }
    match route_request("GET", "/destinations/renderer/trace") {
        ControlRoute::Scoped { target, view, id, limit } => {
            assert_eq!(target, ScopeTarget::Destination);
            assert_eq!(view, ScopedView::Trace);
            assert_eq!(id, "renderer");
            assert_eq!(limit, None);
        }
        _ => panic!("expected scoped view"),
    }
    assert!(matches!(
        route_request("POST", "/routes/%zz/isolate"),
        ControlRoute::InvalidComponent(ComponentLabel::RouteId)
    ));
    assert!(matches!(
        route_request("POST", "/routes/camera/replay/%zz"),
        ControlRoute::InvalidComponent(ComponentLabel::SandboxDestinationId)
    ));
}

#[test]
fn wrong_methods_and_unknown_paths_are_unsupported() {
    assert!(matches!(route_request("POST", "/status"), ControlRoute::Unsupported));
    assert!(matches!(route_request("GET", "/freeze"), ControlRoute::Unsupported));
    assert!(matches!(route_request("GET", "/routes//isolate"), ControlRoute::Unsupported));
    assert!(matches!(route_request("GET", "/nowhere"), ControlRoute::Unsupported));
    assert!(matches!(route_request("DELETE", "/status"), ControlRoute::Unsupported));
}

#[test]
fn fully_encoded_components_decode_back() {
    assert_eq!(decode_uri_component("%63%61%6D%65%72%61").unwrap(), "camera");
    assert_eq!(decode_uri_component("%E2%82%AC").unwrap(), "\u{20ac}");
    assert!(decode_uri_component("%FF").is_err());
}
