//! What applying a configuration changed, and the event the broker records
//! for it.
use vstd::prelude::*;

verus! {

/// What a configuration changes against the one before it: the ingresses,
/// destinations and routes added, removed and changed, by id.
#[derive(Clone, Debug, Default)]
pub struct ConfigDiff {
    pub added_ingresses: Vec<String>,
    pub removed_ingresses: Vec<String>,
    pub changed_ingresses: Vec<String>,
    pub added_destinations: Vec<String>,
    pub removed_destinations: Vec<String>,
    pub changed_destinations: Vec<String>,
    pub added_routes: Vec<String>,
    pub removed_routes: Vec<String>,
    pub changed_routes: Vec<String>,
}

/// The counts the broker records when a configuration is applied.
#[derive(Clone, Copy, Debug, PartialEq, Eq, Structural)]
pub struct ConfigAppliedEvent {
    pub revision: u64,
    pub added_ingresses: usize,
    pub removed_ingresses: usize,
    pub changed_ingresses: usize,
    pub added_destinations: usize,
    pub removed_destinations: usize,
    pub changed_destinations: usize,
    pub added_routes: usize,
    pub removed_routes: usize,
    pub changed_routes: usize,
}

/// The event of an applied configuration: its revision and how many
/// ingresses, destinations and routes its diff adds, removes and changes.
pub fn config_applied_event(revision: u64, diff: &ConfigDiff) -> (r: ConfigAppliedEvent)
    ensures
        r.revision == revision,
        r.added_ingresses == diff.added_ingresses@.len(),
        r.removed_ingresses == diff.removed_ingresses@.len(),
        r.changed_ingresses == diff.changed_ingresses@.len(),
        r.added_destinations == diff.added_destinations@.len(),
        r.removed_destinations == diff.removed_destinations@.len(),
        r.changed_destinations == diff.changed_destinations@.len(),
        r.added_routes == diff.added_routes@.len(),
        r.removed_routes == diff.removed_routes@.len(),
        r.changed_routes == diff.changed_routes@.len(),
{
    ConfigAppliedEvent {
        revision,
        added_ingresses: diff.added_ingresses.len(),
        removed_ingresses: diff.removed_ingresses.len(),
        changed_ingresses: diff.changed_ingresses.len(),
        added_destinations: diff.added_destinations.len(),
        removed_destinations: diff.removed_destinations.len(),
        changed_destinations: diff.changed_destinations.len(),
        added_routes: diff.added_routes.len(),
        removed_routes: diff.removed_routes.len(),
        changed_routes: diff.changed_routes.len(),
    }
}

/// The event of the first configuration: revision one, everything in it
/// added, nothing removed or changed.
pub fn initial_config_applied_event(ingresses: usize, destinations: usize, routes: usize) -> (r:
    ConfigAppliedEvent)
    ensures
        r == (ConfigAppliedEvent {
            revision: 1,
            added_ingresses: ingresses,
            removed_ingresses: 0,
            changed_ingresses: 0,
            added_destinations: destinations,
            removed_destinations: 0,
            changed_destinations: 0,
            added_routes: routes,
            removed_routes: 0,
            changed_routes: 0,
        }),
{
    ConfigAppliedEvent {
        revision: 1,
        added_ingresses: ingresses,
        removed_ingresses: 0,
        changed_ingresses: 0,
        added_destinations: destinations,
        removed_destinations: 0,
        changed_destinations: 0,
        added_routes: routes,
        removed_routes: 0,
        changed_routes: 0,
    }
}

} // verus!
