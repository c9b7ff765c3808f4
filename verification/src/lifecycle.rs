//! The decisions a managed proxy takes as it starts and reloads: the gates
//! that blockers close, how a restart carries the operator's overrides over,
//! and which route isolations a reload released.
use vstd::prelude::*;

use crate::control::{bullet_lines, format_blockers, FrozenStartupBehavior, ManagedProxyStartupOptions};
use crate::text::{contains_string, join2};
use crate::values::{duplicate_all, OperatorValue};

verus! {

/// What starting the ingress tasks first does to traffic.
#[derive(Clone, Copy, Debug, PartialEq, Eq, Structural)]
pub enum StartupTrafficAction {
    /// Leave traffic flowing.
    Flow,
    /// Freeze traffic, as the operator asked.
    Freeze,
    /// Bring back the freeze the proxy had before it restarted.
    RestoreFreeze,
}

/// The traffic action for a startup behaviour.
pub fn startup_traffic_action(behavior: FrozenStartupBehavior) -> (r: StartupTrafficAction)
    ensures
        r == match behavior {
            FrozenStartupBehavior::Normal => StartupTrafficAction::Flow,
            FrozenStartupBehavior::OperatorRequested => StartupTrafficAction::Freeze,
            FrozenStartupBehavior::Restored => StartupTrafficAction::RestoreFreeze,
        },
{
    match behavior {
        FrozenStartupBehavior::Normal => StartupTrafficAction::Flow,
        FrozenStartupBehavior::OperatorRequested => StartupTrafficAction::Freeze,
        FrozenStartupBehavior::Restored => StartupTrafficAction::RestoreFreeze,
    }
}

/// How the proxy restarts on a reload: frozen again if its traffic was
/// frozen, with the routes that were isolated isolated again.
pub fn reload_startup_options(traffic_frozen: bool, isolated_route_ids: &Vec<String>) -> (r:
    ManagedProxyStartupOptions)
    ensures
        r.frozen_behavior == (if traffic_frozen {
            FrozenStartupBehavior::Restored
        } else {
            FrozenStartupBehavior::Normal
        }),
        r.isolated_route_ids.deep_view() == isolated_route_ids.deep_view(),
{
    ManagedProxyStartupOptions {
        frozen_behavior: if traffic_frozen {
            FrozenStartupBehavior::Restored
        } else {
            FrozenStartupBehavior::Normal
        },
        isolated_route_ids: duplicate_all(isolated_route_ids),
    }
}

/// The routes isolated before a reload that are not isolated after it, in
/// their order before.
pub open spec fn released_isolations(previous: Seq<Seq<char>>, next: Seq<Seq<char>>) -> Seq<
    Seq<char>,
>
    decreases previous.len(),
{
    if previous.len() == 0 {
        Seq::empty()
    } else {
        let rest = released_isolations(previous.drop_last(), next);
        if next.contains(previous.last()) {
            rest
        } else {
            rest.push(previous.last())
        }
    }
}

/// Lists the routes whose isolation a reload released.
pub fn released_route_isolations(previous: &Vec<String>, next: &Vec<String>) -> (r: Vec<String>)
    ensures
        r.deep_view() == released_isolations(previous.deep_view(), next.deep_view()),
{
    let ghost p = previous.deep_view();
    let mut out: Vec<String> = Vec::new();
    let mut i: usize = 0;
    assert(out.deep_view() =~= released_isolations(p.subrange(0, 0), next.deep_view()));
    while i < previous.len()
        invariant
            i <= previous@.len(),
            p == previous.deep_view(),
            out.deep_view() == released_isolations(p.subrange(0, i as int), next.deep_view()),
        decreases previous@.len() - i,
    {
        let ghost prefix = p.subrange(0, i + 1);
        assert(prefix.drop_last() =~= p.subrange(0, i as int));
        assert(prefix.last() == previous@[i as int]@);
        if !contains_string(next, &previous[i]) {
            out.push(previous[i].duplicate());
            assert(out.deep_view() =~= released_isolations(prefix, next.deep_view()));
        }
        i = i + 1;
    }
    assert(p.subrange(0, i as int) =~= p);
    out
}

/// A gate that blockers close: open when there are none, else closed with
/// the header, a line break and one `- blocker` line each.
pub open spec fn gate_view(header: Seq<char>, blockers: Seq<Seq<char>>) -> Result<(), Seq<char>> {
    if blockers.len() == 0 {
        Ok(())
    } else {
        Err(header + "\n"@ + bullet_lines(blockers))
    }
}

fn gate(header: &str, blockers: &Vec<String>) -> (r: Result<(), String>)
    ensures
        match r {
            Ok(()) => gate_view(header@, blockers.deep_view()) == Ok::<(), Seq<char>>(()),
            Err(m) => gate_view(header@, blockers.deep_view()) == Err::<(), Seq<char>>(m@),
        },
{
    if blockers.len() == 0 {
        return Ok(());
    }
    let list = format_blockers(blockers);
    let head = join2(header, "\n");
    Err(join2(head.as_str(), list.as_str()))
}

/// Whether blockers keep the proxy from starting, and the message if they do.
pub fn startup_gate(blockers: &Vec<String>) -> (r: Result<(), String>)
    ensures
        match r {
            Ok(()) => gate_view("udp proxy startup blocked:"@, blockers.deep_view()) == Ok::<
                (),
                Seq<char>,
            >(()),
            Err(m) => gate_view("udp proxy startup blocked:"@, blockers.deep_view()) == Err::<
                (),
                Seq<char>,
            >(m@),
        },
{
    gate("udp proxy startup blocked:", blockers)
}

/// Whether blockers keep the proxy from reloading, and the message if they do.
pub fn reload_gate(blockers: &Vec<String>) -> (r: Result<(), String>)
    ensures
        match r {
            Ok(()) => gate_view("udp proxy reload blocked:"@, blockers.deep_view()) == Ok::<
                (),
                Seq<char>,
            >(()),
            Err(m) => gate_view("udp proxy reload blocked:"@, blockers.deep_view()) == Err::<
                (),
                Seq<char>,
            >(m@),
        },
{
    gate("udp proxy reload blocked:", blockers)
}


/// Whether a configuration file still holds the text last applied, so that a
/// poll has nothing to do; before any text was applied it never does.
pub fn config_unchanged(applied: Option<&str>, content: &str) -> (r: bool)
    ensures
        r == (applied matches Some(a) && a@ == content@),
{
    match applied {
        Some(a) => crate::text::str_equal(a, content),
        None => false,
    }
}

} // verus!
