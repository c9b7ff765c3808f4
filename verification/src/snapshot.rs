//! The operator snapshot: the report, overview and the derived operator views
//! that the board, casebook, handoff and scoped views are computed from.
use vstd::prelude::*;

use crate::board::ProxyOperatorBoard;
use crate::casebook::ProxyOperatorCasebookCatalog;
use crate::handoff::ProxyOperatorHandoffCatalog;
use crate::incident_digest::ProxyOperatorIncidentDigest;
use crate::model::{ProxyOperatorSuggestedAction, SuggestedActionView};
use crate::report::{ProxyOperatorHighlights, ProxyOperatorSignalsView};
use crate::status::{RecentConfigEvent, RecentOperatorAction, UdpProxyStatusSnapshot};
use crate::values::OperatorValue;
use crate::views::ProxyOperatorDiagnostics;
use crate::trace::{ProxyOperatorRecovery, ProxyOperatorTriageCatalog};
use crate::policy::{
    ProxyOperatorDestinationSignal, ProxyOperatorOverrides, ProxyOperatorRouteSignal,
    ProxyOperatorRuntimeSignals, ProxyOperatorState, ProxyRuntimeSafetyPolicy,
};

verus! {

/// The operator report of a status snapshot.
#[derive(Clone, Debug)]
pub struct ProxyOperatorReport {
    pub state: ProxyOperatorState,
    pub policy: ProxyRuntimeSafetyPolicy,
    pub warnings: Vec<String>,
    pub blockers: Vec<String>,
    pub overrides: ProxyOperatorOverrides,
    pub runtime_signals: ProxyOperatorRuntimeSignals,
    pub route_signals: Vec<ProxyOperatorRouteSignal>,
    pub destination_signals: Vec<ProxyOperatorDestinationSignal>,
    pub highlights: ProxyOperatorHighlights,
    pub report_lines: Vec<String>,
}

/// The operator overview: the status snapshot, its report and the
/// problematic signals of the report.
#[derive(Clone, Debug)]
pub struct ProxyOperatorOverview {
    pub status: UdpProxyStatusSnapshot,
    pub report: ProxyOperatorReport,
    pub problematic_signals: ProxyOperatorSignalsView,
}

/// What needs the operator's attention right now.
#[derive(Clone, Debug)]
pub struct ProxyOperatorAttention {
    pub state: ProxyOperatorState,
    pub blockers: Vec<String>,
    pub warnings: Vec<String>,
    pub traffic_frozen: bool,
    pub isolated_route_ids: Vec<String>,
    pub latest_operator_action: Option<RecentOperatorAction>,
    pub latest_config_issue: Option<RecentConfigEvent>,
    pub problematic_route_ids: Vec<String>,
    pub problematic_destination_ids: Vec<String>,
    pub destinations_with_backlog: Vec<String>,
    pub destinations_with_open_breakers: Vec<String>,
    pub destinations_with_half_open_breakers: Vec<String>,
}

/// How ready the broker is to serve.
#[derive(Clone, Copy, Debug, PartialEq, Eq, Structural)]
pub enum ProxyOperatorReadinessLevel {
    Ready,
    Degraded,
    Blocked,
}

/// Readiness with the reasons that hold it back.
#[derive(Clone, Debug)]
pub struct ProxyOperatorReadiness {
    pub level: ProxyOperatorReadinessLevel,
    pub ready: bool,
    pub reasons: Vec<String>,
}

impl ProxyOperatorReadiness {
    /// Whether a readiness gate lets the broker through: when it is ready, or,
    /// when degraded service is allowed, when it is degraded.
    pub fn is_acceptable(&self, allow_degraded: bool) -> (r: bool)
        ensures
            r == (self.ready || (allow_degraded && self.level == ProxyOperatorReadinessLevel::Degraded)),
    {
        self.ready || (allow_degraded && self.level == ProxyOperatorReadinessLevel::Degraded)
    }
}

/// Open incidents: blockers, warnings, recent history and the problematic
/// routes and destinations.
#[derive(Clone, Debug)]
pub struct ProxyOperatorIncidents {
    pub state: ProxyOperatorState,
    pub open_blockers: Vec<String>,
    pub open_warnings: Vec<String>,
    pub latest_operator_action: Option<RecentOperatorAction>,
    pub latest_config_issue: Option<RecentConfigEvent>,
    pub recent_operator_actions: Vec<RecentOperatorAction>,
    pub recent_config_issues: Vec<RecentConfigEvent>,
    pub problematic_routes: Vec<ProxyOperatorRouteSignal>,
    pub problematic_destinations: Vec<ProxyOperatorDestinationSignal>,
}

/// One item of the operator worklist; an item without an action, or whose
/// action names no route or destination, concerns the whole broker.
#[derive(Clone, Debug)]
pub struct ProxyOperatorWorkItem {
    pub id: String,
    pub title: String,
    pub action: Option<ProxyOperatorSuggestedAction>,
}

/// The contents of a work item.
pub struct WorkItemView {
    pub id: Seq<char>,
    pub title: Seq<char>,
    pub action: Option<SuggestedActionView>,
}

impl DeepView for ProxyOperatorWorkItem {
    type V = WorkItemView;

    open spec fn deep_view(&self) -> WorkItemView {
        WorkItemView { id: self.id@, title: self.title@, action: self.action.deep_view() }
    }
}

impl OperatorValue for ProxyOperatorWorkItem {
    fn duplicate(&self) -> (r: Self) {
        ProxyOperatorWorkItem {
            id: self.id.duplicate(),
            title: self.title.duplicate(),
            action: self.action.duplicate(),
        }
    }

    fn same_value(&self, other: &Self) -> (r: bool) {
        self.id.same_value(&other.id) && self.title.same_value(&other.title)
            && self.action.same_value(&other.action)
    }
}

/// The operator worklist.
#[derive(Clone, Debug)]
pub struct ProxyOperatorWorklist {
    pub items: Vec<ProxyOperatorWorkItem>,
}

/// Everything the operator views are derived from.
#[derive(Clone, Debug)]
pub struct ProxyOperatorSnapshot {
    pub overview: ProxyOperatorOverview,
    pub diagnostics: ProxyOperatorDiagnostics,
    pub attention: ProxyOperatorAttention,
    pub readiness: ProxyOperatorReadiness,
    pub incidents: ProxyOperatorIncidents,
    pub worklist: ProxyOperatorWorklist,
    pub incident_digest: ProxyOperatorIncidentDigest,
    pub recovery: ProxyOperatorRecovery,
    pub triage: ProxyOperatorTriageCatalog,
    pub handoff: ProxyOperatorHandoffCatalog,
    pub casebook: ProxyOperatorCasebookCatalog,
    pub board: ProxyOperatorBoard,
}

} // verus!
