//! Decisions of the control plane and the command line: action results and
//! errors, command options turned into launch, safety and startup settings,
//! the text of blocked startups and reloads, and which failed control
//! connections are the peer's business rather than the service's.
use vstd::prelude::*;

use crate::launch::ProxyLaunchProfileMode;
use crate::policy::ProxyRuntimeSafetyPolicy;
use crate::status::UdpProxyStatusSnapshot;
use crate::text::{join2, owned, prefixed};

verus! {

// ---------------------------------------------------------------------------
// Control plane results
// ---------------------------------------------------------------------------

/// The outcome of an operator action: whether it changed anything, how many
/// messages it dispatched when it dispatches, and the status afterwards.
#[derive(Clone, Debug)]
pub struct ControlPlaneActionResult {
    pub applied: bool,
    pub dispatch_count: Option<usize>,
    pub status: UdpProxyStatusSnapshot,
}

/// Why an operator action was refused or failed.
#[derive(Clone, Debug)]
pub enum ControlPlaneError {
    UnknownRoute(String),
    UnknownDestination(String),
    ActionFailed(String),
}

/// The message of a control plane error.
pub open spec fn control_error_message(e: ControlPlaneError) -> Seq<char> {
    match e {
        ControlPlaneError::UnknownRoute(id) => "unknown route `"@ + id@ + "`"@,
        ControlPlaneError::UnknownDestination(id) => "unknown destination `"@ + id@ + "`"@,
        ControlPlaneError::ActionFailed(message) => message@,
    }
}

impl ControlPlaneError {
    /// The message shown for the error.
    pub fn message(&self) -> (r: String)
        ensures
            r@ == control_error_message(*self),
    {
        match self {
            ControlPlaneError::UnknownRoute(id) => crate::text::join3("unknown route `", id.as_str(), "`"),
            ControlPlaneError::UnknownDestination(id) => crate::text::join3(
                "unknown destination `",
                id.as_str(),
                "`",
            ),
            ControlPlaneError::ActionFailed(message) => owned(message.as_str()),
        }
    }
}

/// The result of an action that dispatches nothing.
pub fn status_result(applied: bool, status: UdpProxyStatusSnapshot) -> (r: ControlPlaneActionResult)
    ensures
        r.applied == applied,
        r.dispatch_count is None,
        r.status == status,
{
    ControlPlaneActionResult { applied, dispatch_count: None, status }
}

/// The result of an action that dispatched `dispatch_count` messages: it
/// applied when it dispatched any.
pub fn dispatch_result(dispatch_count: usize, status: UdpProxyStatusSnapshot) -> (r:
    ControlPlaneActionResult)
    ensures
        r.applied == (dispatch_count > 0),
        r.dispatch_count == Some(dispatch_count),
        r.status == status,
{
    ControlPlaneActionResult { applied: dispatch_count > 0, dispatch_count: Some(dispatch_count), status }
}

/// Refuses an action on a route that does not exist.
pub fn ensure_route_exists(exists: bool, route_id: &str) -> (r: Result<(), ControlPlaneError>)
    ensures
        exists <==> r is Ok,
        !exists ==> (r matches Err(ControlPlaneError::UnknownRoute(id)) && id@ == route_id@),
{
    if exists {
        Ok(())
    } else {
        Err(ControlPlaneError::UnknownRoute(owned(route_id)))
    }
}

/// Refuses an action on a destination that does not exist.
pub fn ensure_destination_exists(exists: bool, destination_id: &str) -> (r: Result<(), ControlPlaneError>)
    ensures
        exists <==> r is Ok,
        !exists ==> (r matches Err(ControlPlaneError::UnknownDestination(id)) && id@
            == destination_id@),
{
    if exists {
        Ok(())
    } else {
        Err(ControlPlaneError::UnknownDestination(owned(destination_id)))
    }
}

/// Checks a replay to a sandbox: the route must exist, then the sandbox destination.
pub fn ensure_replay_targets_exist(
    has_route: bool,
    route_id: &str,
    has_destination: bool,
    sandbox_destination_id: &str,
) -> (r: Result<(), ControlPlaneError>)
    ensures
        r is Ok <==> has_route && has_destination,
        !has_route ==> (r matches Err(ControlPlaneError::UnknownRoute(id)) && id@ == route_id@),
        has_route && !has_destination ==> (r matches Err(ControlPlaneError::UnknownDestination(id))
            && id@ == sandbox_destination_id@),
{
    ensure_route_exists(has_route, route_id)?;
    ensure_destination_exists(has_destination, sandbox_destination_id)
}

// ---------------------------------------------------------------------------
// Command options
// ---------------------------------------------------------------------------

/// The proxy options given on the command line.
#[derive(Clone, Copy, Debug, Default)]
pub struct ProxyCommandOptions {
    pub fail_on_warnings: bool,
    pub require_fallback_ready: bool,
    pub safe_mode: bool,
    pub start_frozen: bool,
}

/// Safe mode when asked for, the normal profile otherwise.
pub fn launch_profile_mode(options: ProxyCommandOptions) -> (r: ProxyLaunchProfileMode)
    ensures
        r == (if options.safe_mode {
            ProxyLaunchProfileMode::SafeMode
        } else {
            ProxyLaunchProfileMode::Normal
        }),
{
    if options.safe_mode {
        ProxyLaunchProfileMode::SafeMode
    } else {
        ProxyLaunchProfileMode::Normal
    }
}

/// The safety policy the options ask for.
pub fn safety_policy(options: ProxyCommandOptions) -> (r: ProxyRuntimeSafetyPolicy)
    ensures
        r.fail_on_warnings == options.fail_on_warnings,
        r.require_fallback_ready == options.require_fallback_ready,
{
    ProxyRuntimeSafetyPolicy {
        fail_on_warnings: options.fail_on_warnings,
        require_fallback_ready: options.require_fallback_ready,
    }
}

/// Why a managed proxy starts with traffic frozen, if it does.
#[derive(Clone, Copy, Debug, Default, PartialEq, Eq, Structural)]
pub enum FrozenStartupBehavior {
    #[default]
    Normal,
    OperatorRequested,
    Restored,
}

/// How a managed proxy starts: frozen or not, and the routes isolated from the start.
#[derive(Clone, Debug, Default)]
pub struct ManagedProxyStartupOptions {
    pub frozen_behavior: FrozenStartupBehavior,
    pub isolated_route_ids: Vec<String>,
}

/// Start frozen when the operator asks for it; isolate nothing.
pub fn startup_options(options: ProxyCommandOptions) -> (r: ManagedProxyStartupOptions)
    ensures
        r.frozen_behavior == (if options.start_frozen {
            FrozenStartupBehavior::OperatorRequested
        } else {
            FrozenStartupBehavior::Normal
        }),
        r.isolated_route_ids@.len() == 0,
{
    ManagedProxyStartupOptions {
        frozen_behavior: if options.start_frozen {
            FrozenStartupBehavior::OperatorRequested
        } else {
            FrozenStartupBehavior::Normal
        },
        isolated_route_ids: Vec::new(),
    }
}

// ---------------------------------------------------------------------------
// Blocked startups and reloads
// ---------------------------------------------------------------------------

/// Texts joined with a line break between each two.
pub open spec fn joined_lines(items: Seq<Seq<char>>) -> Seq<char>
    decreases items.len(),
{
    if items.len() == 0 {
        Seq::empty()
    } else if items.len() == 1 {
        items[0]
    } else {
        joined_lines(items.drop_last()) + "\n"@ + items.last()
    }
}

/// One `- reason` line per reason.
pub open spec fn bullet_lines(reasons: Seq<Seq<char>>) -> Seq<char> {
    joined_lines(prefixed("- "@, reasons))
}

/// Lists blockers, one `- blocker` line each.
pub fn format_blockers(blockers: &Vec<String>) -> (r: String)
    ensures
        r@ == bullet_lines(blockers.deep_view()),
{
    let ghost s = prefixed("- "@, blockers.deep_view());
    let mut out = owned("");
    proof {
        reveal_strlit("");
    }
    assert(out@ =~= joined_lines(s.subrange(0, 0)));
    let mut i: usize = 0;
    while i < blockers.len()
        invariant
            i <= blockers@.len(),
            s == prefixed("- "@, blockers.deep_view()),
            out@ == joined_lines(s.subrange(0, i as int)),
        decreases blockers@.len() - i,
    {
        let ghost prefix = s.subrange(0, i + 1);
        assert(prefix.drop_last() =~= s.subrange(0, i as int));
        assert(prefix.last() == "- "@ + blockers@[i as int]@);
        let line = join2("- ", blockers[i].as_str());
        if i > 0 {
            out.append("\n");
        } else {
            assert(out@ =~= Seq::<char>::empty());
        }
        out.append(line.as_str());
        assert(out@ =~= joined_lines(prefix));
        i = i + 1;
    }
    assert(s.subrange(0, i as int) =~= s);
    out
}

/// The message of a blocked configuration: the header alone when there are
/// no reasons, else the header, a colon and one `- reason` line per reason.
pub open spec fn blocked_reasons_text(header: Seq<char>, reasons: Seq<Seq<char>>) -> Seq<char> {
    if reasons.len() == 0 {
        header
    } else {
        header + ":\n"@ + bullet_lines(reasons)
    }
}

/// Writes the message of a blocked configuration.
pub fn format_blocked_reasons(header: &str, reasons: &Vec<String>) -> (r: String)
    ensures
        r@ == blocked_reasons_text(header@, reasons.deep_view()),
{
    if reasons.len() == 0 {
        return owned(header);
    }
    let list = format_blockers(reasons);
    crate::text::join3(header, ":\n", list.as_str())
}

// ---------------------------------------------------------------------------
// Control connections
// ---------------------------------------------------------------------------

/// Kinds of I/O failure a control connection can end with.
#[derive(Clone, Copy, Debug, PartialEq, Eq, Structural)]
pub enum ConnectionErrorKind {
    ConnectionReset,
    ConnectionAborted,
    BrokenPipe,
    UnexpectedEof,
    TimedOut,
    WriteZero,
    Other,
}

/// Failures caused by the peer or the connection itself, not by the service.
pub open spec fn connection_local(kind: ConnectionErrorKind) -> bool {
    kind != ConnectionErrorKind::Other
}

/// Whether a failure is local to the connection.
pub fn is_connection_local_error(kind: ConnectionErrorKind) -> (r: bool)
    ensures
        r == connection_local(kind),
{
    match kind {
        ConnectionErrorKind::ConnectionReset => true,
        ConnectionErrorKind::ConnectionAborted => true,
        ConnectionErrorKind::BrokenPipe => true,
        ConnectionErrorKind::UnexpectedEof => true,
        ConnectionErrorKind::TimedOut => true,
        ConnectionErrorKind::WriteZero => true,
        ConnectionErrorKind::Other => false,
    }
}

/// An I/O failure: its kind and message.
#[derive(Clone, Debug)]
pub struct ConnectionFailure {
    pub kind: ConnectionErrorKind,
    pub message: String,
}

/// How a control connection task ended.
#[derive(Clone, Debug)]
pub enum ConnectionTaskResult {
    /// The connection was served.
    Served,
    /// Serving the connection failed.
    Failed(ConnectionFailure),
    /// The task was cancelled.
    Cancelled,
    /// The task could not be joined, for the given reason.
    JoinFailed(String),
}

/// What the service reports of a finished connection task: nothing for a
/// served connection, a failure local to the connection, or a cancelled
/// task; the failure itself otherwise; a join failure as an `Other` failure
/// with its reason.
pub open spec fn connection_task_outcome(result: ConnectionTaskResult) -> Option<(ConnectionErrorKind, Seq<char>)> {
    match result {
        ConnectionTaskResult::Served => None,
        ConnectionTaskResult::Failed(f) => if connection_local(f.kind) {
            None
        } else {
            Some((f.kind, f.message@))
        },
        ConnectionTaskResult::Cancelled => None,
        ConnectionTaskResult::JoinFailed(reason) => Some(
            (ConnectionErrorKind::Other, "control connection task join failed: "@ + reason@),
        ),
    }
}

/// Decides what a finished connection task means for the service.
pub fn process_connection_task_result(result: ConnectionTaskResult) -> (r: Result<(), ConnectionFailure>)
    ensures
        match connection_task_outcome(result) {
            None => r is Ok,
            Some((kind, message)) => r matches Err(f) && f.kind == kind && f.message@ == message,
        },
{
    match result {
        ConnectionTaskResult::Served => Ok(()),
        ConnectionTaskResult::Failed(f) => {
            if is_connection_local_error(f.kind) {
                Ok(())
            } else {
                Err(f)
            }
        },
        ConnectionTaskResult::Cancelled => Ok(()),
        ConnectionTaskResult::JoinFailed(reason) => Err(
            ConnectionFailure {
                kind: ConnectionErrorKind::Other,
                message: join2("control connection task join failed: ", reason.as_str()),
            },
        ),
    }
}


// ---------------------------------------------------------------------------
// Control listener
// ---------------------------------------------------------------------------

/// An IP address, by its parts.
#[derive(Clone, Copy, Debug, PartialEq, Eq, Structural)]
pub enum ListenIp {
    V4(u8, u8, u8, u8),
    V6(u16, u16, u16, u16, u16, u16, u16, u16),
}

/// The loopback addresses: 127.0.0.0/8, and `::1` alone among IPv6 ones.
pub open spec fn is_loopback_ip(ip: ListenIp) -> bool {
    match ip {
        ListenIp::V4(a, _, _, _) => a == 127,
        ListenIp::V6(a, b, c, d, e, f, g, h) => a == 0 && b == 0 && c == 0 && d == 0 && e == 0
            && f == 0 && g == 0 && h == 1,
    }
}

/// Whether an address is a loopback address.
pub fn is_loopback(ip: ListenIp) -> (r: bool)
    ensures
        r == is_loopback_ip(ip),
{
    match ip {
        ListenIp::V4(a, _, _, _) => a == 127,
        ListenIp::V6(a, b, c, d, e, f, g, h) => a == 0 && b == 0 && c == 0 && d == 0 && e == 0
            && f == 0 && g == 0 && h == 1,
    }
}

/// A socket address the control listener's name resolved to, with its text.
#[derive(Clone, Debug)]
pub struct ResolvedListenAddress {
    pub ip: ListenIp,
    pub text: String,
}

/// Where the control listener may bind: every address its name resolves to
/// must be a loopback one, and it must resolve to at least one. The first
/// address that is not names the refusal.
pub open spec fn listen_check_view(listen: Seq<char>, ips: Seq<ListenIp>, texts: Seq<Seq<char>>) -> Result<
    (),
    Seq<char>,
>
    decreases ips.len(),
{
    if ips.len() == 0 {
        Err("failed to resolve control listener on "@ + listen + ": no socket addresses"@)
    } else if !is_loopback_ip(ips[0]) {
        Err("control listener must bind to a loopback address, got "@ + texts[0])
    } else if ips.len() == 1 {
        Ok(())
    } else {
        listen_check_view(listen, ips.drop_first(), texts.drop_first())
    }
}

/// Checks the addresses the control listener's name resolved to.
pub fn check_listen_addresses(listen: &str, addresses: &Vec<ResolvedListenAddress>) -> (r: Result<
    (),
    String,
>)
    ensures
        match r {
            Ok(()) => listen_check_view(
                listen@,
                addresses@.map_values(|a: ResolvedListenAddress| a.ip),
                addresses@.map_values(|a: ResolvedListenAddress| a.text@),
            ) == Ok::<(), Seq<char>>(()),
            Err(m) => listen_check_view(
                listen@,
                addresses@.map_values(|a: ResolvedListenAddress| a.ip),
                addresses@.map_values(|a: ResolvedListenAddress| a.text@),
            ) == Err::<(), Seq<char>>(m@),
        },
{
    let ghost ips = addresses@.map_values(|a: ResolvedListenAddress| a.ip);
    let ghost texts = addresses@.map_values(|a: ResolvedListenAddress| a.text@);
    if addresses.len() == 0 {
        return Err(crate::text::join3(
            "failed to resolve control listener on ",
            listen,
            ": no socket addresses",
        ));
    }
    let mut i: usize = 0;
    assert(ips.skip(0) =~= ips);
    assert(texts.skip(0) =~= texts);
    while i < addresses.len()
        invariant
            0 < addresses@.len(),
            i <= addresses@.len(),
            ips == addresses@.map_values(|a: ResolvedListenAddress| a.ip),
            texts == addresses@.map_values(|a: ResolvedListenAddress| a.text@),
            i < addresses@.len() ==> listen_check_view(listen@, ips, texts) == listen_check_view(
                listen@,
                ips.skip(i as int),
                texts.skip(i as int),
            ),
            i == addresses@.len() ==> listen_check_view(listen@, ips, texts) == Ok::<(), Seq<char>>(()),
        decreases addresses@.len() - i,
    {
        let ghost rest_ips = ips.skip(i as int);
        let ghost rest_texts = texts.skip(i as int);
        assert(rest_ips[0] == addresses@[i as int].ip);
        assert(rest_texts[0] == addresses@[i as int].text@);
        if !is_loopback(addresses[i].ip) {
            return Err(join2(
                "control listener must bind to a loopback address, got ",
                addresses[i].text.as_str(),
            ));
        }
        assert(rest_ips.drop_first() =~= ips.skip(i + 1));
        assert(rest_texts.drop_first() =~= texts.skip(i + 1));
        i = i + 1;
    }
    Ok(())
}

} // verus!
