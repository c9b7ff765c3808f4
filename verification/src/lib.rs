//! Operator-facing decision logic of the ROSC broker: control request
//! parsing and routing, runtime policy signals, incident digests, boards,
//! casebooks, handoffs and the scoped views built on them.
use vstd::prelude::*;

pub mod focus;
pub mod history;
pub mod http;
pub mod incident_digest;
pub mod launch;
pub mod lens;
pub mod lifecycle;
pub mod laws;
pub mod mission;
pub mod model;
pub mod policy;
pub mod records;
pub mod report;
pub mod request;
pub mod response;
pub mod routes;
pub mod snapshot;
pub mod sorting;
pub mod status;
pub mod text;
pub mod trace;
pub mod handoff;
pub mod casebook;
pub mod board;
pub mod brief;
pub mod context;
pub mod config_change;
pub mod console;
pub mod control;
pub mod dashboard;
pub mod details;
pub mod dossier;
pub mod values;
pub mod views;

verus! {
} // verus!
