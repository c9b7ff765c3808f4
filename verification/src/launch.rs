//! Launch profiles: the normal profile runs routes as configured; safe mode
//! turns off capture, replay and rehydrate-on-restart on every route and
//! records which routes it changed.
use vstd::prelude::*;

use crate::values::{duplicate_all, push_value, OperatorValue};

verus! {

/// The launch profile a proxy is started under.
#[derive(Clone, Copy, Debug, Default, PartialEq, Eq, Structural)]
pub enum ProxyLaunchProfileMode {
    #[default]
    Normal,
    SafeMode,
}

/// The label of a launch profile.
pub open spec fn mode_label(mode: ProxyLaunchProfileMode) -> Seq<char> {
    match mode {
        ProxyLaunchProfileMode::Normal => "normal"@,
        ProxyLaunchProfileMode::SafeMode => "safe_mode"@,
    }
}

impl ProxyLaunchProfileMode {
    /// The lower-case label of the profile.
    pub fn as_str(self) -> (r: &'static str)
        ensures
            r@ == mode_label(self),
    {
        match self {
            ProxyLaunchProfileMode::Normal => "normal",
            ProxyLaunchProfileMode::SafeMode => "safe_mode",
        }
    }
}

/// The profile in force and the routes it changed.
#[derive(Clone, Debug, Default)]
pub struct ProxyLaunchProfileStatus {
    pub mode: ProxyLaunchProfileMode,
    pub disabled_capture_routes: Vec<String>,
    pub disabled_replay_routes: Vec<String>,
    pub disabled_restart_rehydrate_routes: Vec<String>,
}

/// Whether a route captures traffic.
#[derive(Clone, Copy, Debug, PartialEq, Eq, Structural)]
pub enum CapturePolicy {
    Off,
    AlwaysBounded,
}

/// The recovery settings of a route.
#[derive(Clone, Copy, Debug, PartialEq, Eq, Structural)]
pub struct RouteRecoverySettings {
    pub replay_allowed: bool,
    pub rehydrate_on_restart: bool,
    pub rehydrate_on_connect: bool,
}

/// What a launch profile reads and changes of a route.
#[derive(Clone, Debug)]
pub struct LaunchRoute {
    pub id: String,
    pub capture: CapturePolicy,
    pub recovery: RouteRecoverySettings,
}

/// The contents of a route's launch settings.
pub struct LaunchRouteView {
    pub id: Seq<char>,
    pub capture: CapturePolicy,
    pub recovery: RouteRecoverySettings,
}

impl DeepView for LaunchRoute {
    type V = LaunchRouteView;

    open spec fn deep_view(&self) -> LaunchRouteView {
        LaunchRouteView { id: self.id@, capture: self.capture, recovery: self.recovery }
    }
}

/// The routes a launch profile is applied to.
#[derive(Clone, Debug)]
pub struct LaunchConfig {
    pub routes: Vec<LaunchRoute>,
}

/// A configuration with its launch profile applied, and what changed.
#[derive(Clone, Debug)]
pub struct PreparedLaunchConfig {
    pub config: LaunchConfig,
    pub status: ProxyLaunchProfileStatus,
}

/// A route under safe mode: capture off, no replay, no rehydrate on restart.
pub open spec fn safe_route(r: LaunchRouteView) -> LaunchRouteView {
    LaunchRouteView {
        id: r.id,
        capture: CapturePolicy::Off,
        recovery: RouteRecoverySettings {
            replay_allowed: false,
            rehydrate_on_restart: false,
            rehydrate_on_connect: r.recovery.rehydrate_on_connect,
        },
    }
}

/// Every route under safe mode.
pub open spec fn safe_routes(routes: Seq<LaunchRouteView>) -> Seq<LaunchRouteView> {
    routes.map_values(|x: LaunchRouteView| safe_route(x))
}

/// Ids of the routes whose capture safe mode turns off.
pub open spec fn capture_changed(routes: Seq<LaunchRouteView>) -> Seq<Seq<char>>
    decreases routes.len(),
{
    if routes.len() == 0 {
        Seq::empty()
    } else {
        let prev = capture_changed(routes.drop_last());
        if routes.last().capture != CapturePolicy::Off {
            prev.push(routes.last().id)
        } else {
            prev
        }
    }
}

/// Ids of the routes whose replay safe mode turns off.
pub open spec fn replay_changed(routes: Seq<LaunchRouteView>) -> Seq<Seq<char>>
    decreases routes.len(),
{
    if routes.len() == 0 {
        Seq::empty()
    } else {
        let prev = replay_changed(routes.drop_last());
        if routes.last().recovery.replay_allowed {
            prev.push(routes.last().id)
        } else {
            prev
        }
    }
}

/// Ids of the routes whose rehydrate-on-restart safe mode turns off.
pub open spec fn rehydrate_changed(routes: Seq<LaunchRouteView>) -> Seq<Seq<char>>
    decreases routes.len(),
{
    if routes.len() == 0 {
        Seq::empty()
    } else {
        let prev = rehydrate_changed(routes.drop_last());
        if routes.last().recovery.rehydrate_on_restart {
            prev.push(routes.last().id)
        } else {
            prev
        }
    }
}

/// Applies a launch profile. Under the normal profile the routes are kept as
/// they are and nothing is reported changed; under safe mode every route has
/// capture, replay and rehydrate-on-restart turned off, rehydrate-on-connect
/// kept, and the routes where each was on are listed in route order.
pub fn apply_launch_profile(config: &LaunchConfig, mode: ProxyLaunchProfileMode) -> (r:
    PreparedLaunchConfig)
    ensures
        r.status.mode == mode,
        mode == ProxyLaunchProfileMode::Normal ==> {
            &&& r.config.routes.deep_view() == config.routes.deep_view()
            &&& r.status.disabled_capture_routes@.len() == 0
            &&& r.status.disabled_replay_routes@.len() == 0
            &&& r.status.disabled_restart_rehydrate_routes@.len() == 0
        },
        mode == ProxyLaunchProfileMode::SafeMode ==> {
            &&& r.config.routes.deep_view() == safe_routes(config.routes.deep_view())
            &&& r.status.disabled_capture_routes.deep_view() == capture_changed(
                config.routes.deep_view(),
            )
            &&& r.status.disabled_replay_routes.deep_view() == replay_changed(
                config.routes.deep_view(),
            )
            &&& r.status.disabled_restart_rehydrate_routes.deep_view() == rehydrate_changed(
                config.routes.deep_view(),
            )
        },
{
    let ghost s = config.routes.deep_view();
    let mut routes: Vec<LaunchRoute> = Vec::new();
    let mut capture: Vec<String> = Vec::new();
    let mut replay: Vec<String> = Vec::new();
    let mut rehydrate: Vec<String> = Vec::new();
    let safe = mode == ProxyLaunchProfileMode::SafeMode;
    let mut i: usize = 0;
    assert(capture.deep_view() =~= capture_changed(s.subrange(0, 0)));
    assert(replay.deep_view() =~= replay_changed(s.subrange(0, 0)));
    assert(rehydrate.deep_view() =~= rehydrate_changed(s.subrange(0, 0)));
    while i < config.routes.len()
        invariant
            i <= config.routes@.len(),
            s == config.routes.deep_view(),
            safe == (mode == ProxyLaunchProfileMode::SafeMode),
            safe ==> routes.deep_view() == s.subrange(0, i as int).map_values(
                |x: LaunchRouteView| safe_route(x),
            ),
            !safe ==> routes.deep_view() == s.subrange(0, i as int),
            safe ==> capture.deep_view() == capture_changed(s.subrange(0, i as int)),
            safe ==> replay.deep_view() == replay_changed(s.subrange(0, i as int)),
            safe ==> rehydrate.deep_view() == rehydrate_changed(s.subrange(0, i as int)),
            !safe ==> capture@.len() == 0 && replay@.len() == 0 && rehydrate@.len() == 0,
        decreases config.routes@.len() - i,
    {
        let route = &config.routes[i];
        let ghost prefix = s.subrange(0, i + 1);
        assert(prefix.drop_last() =~= s.subrange(0, i as int));
        assert(prefix.last() == route.deep_view());
        if safe {
            if route.capture != CapturePolicy::Off {
                push_value(&mut capture, route.id.duplicate());
            }
            if route.recovery.replay_allowed {
                push_value(&mut replay, route.id.duplicate());
            }
            if route.recovery.rehydrate_on_restart {
                push_value(&mut rehydrate, route.id.duplicate());
            }
            let changed = LaunchRoute {
                id: route.id.duplicate(),
                capture: CapturePolicy::Off,
                recovery: RouteRecoverySettings {
                    replay_allowed: false,
                    rehydrate_on_restart: false,
                    rehydrate_on_connect: route.recovery.rehydrate_on_connect,
                },
            };
            push_value(&mut routes, changed);
            assert(routes.deep_view() =~= prefix.map_values(|x: LaunchRouteView| safe_route(x)));
        } else {
            let kept = LaunchRoute {
                id: route.id.duplicate(),
                capture: route.capture,
                recovery: route.recovery,
            };
            push_value(&mut routes, kept);
            assert(routes.deep_view() =~= prefix);
        }
        i = i + 1;
    }
    assert(s.subrange(0, i as int) =~= s);
    PreparedLaunchConfig {
        config: LaunchConfig { routes },
        status: ProxyLaunchProfileStatus {
            mode,
            disabled_capture_routes: capture,
            disabled_replay_routes: replay,
            disabled_restart_rehydrate_routes: rehydrate,
        },
    }
}

} // verus!
