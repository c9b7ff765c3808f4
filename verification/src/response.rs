//! How the control service answers what it cannot serve: the status line and
//! error text for malformed components and queries, unsupported routes and
//! refused or failed actions.
use vstd::prelude::*;

use crate::control::{control_error_message, ControlPlaneError};
use crate::routes::{ComponentLabel, ControlRoute, QueryParameter};
use crate::text::{join2, join3, owned};

verus! {

/// The HTTP statuses the control service answers with.
#[derive(Clone, Copy, Debug, PartialEq, Eq, Structural)]
pub enum HttpStatus {
    Success,
    BadRequest,
    NotFound,
    UnprocessableEntity,
    ServiceUnavailable,
}

/// The status line of an HTTP status.
pub open spec fn status_line_of(status: HttpStatus) -> Seq<char> {
    match status {
        HttpStatus::Success => "200 OK"@,
        HttpStatus::BadRequest => "400 Bad Request"@,
        HttpStatus::NotFound => "404 Not Found"@,
        HttpStatus::UnprocessableEntity => "422 Unprocessable Entity"@,
        HttpStatus::ServiceUnavailable => "503 Service Unavailable"@,
    }
}

impl HttpStatus {
    /// The status line written in the response head.
    pub fn status_line(self) -> (r: &'static str)
        ensures
            r@ == status_line_of(self),
    {
        match self {
            HttpStatus::Success => "200 OK",
            HttpStatus::BadRequest => "400 Bad Request",
            HttpStatus::NotFound => "404 Not Found",
            HttpStatus::UnprocessableEntity => "422 Unprocessable Entity",
            HttpStatus::ServiceUnavailable => "503 Service Unavailable",
        }
    }
}

/// An error answer: its status and the error text of its body.
#[derive(Clone, Debug)]
pub struct ErrorReply {
    pub status: HttpStatus,
    pub error: String,
}

/// How a path component is named in error texts.
pub open spec fn component_label_text(label: ComponentLabel) -> Seq<char> {
    match label {
        ComponentLabel::RouteId => "route id"@,
        ComponentLabel::DestinationId => "destination id"@,
        ComponentLabel::SandboxDestinationId => "sandbox destination id"@,
    }
}

/// How a query parameter is named in error texts.
pub open spec fn query_parameter_text(parameter: QueryParameter) -> Seq<char> {
    match parameter {
        QueryParameter::Limit => "limit"@,
        QueryParameter::AllowDegraded => "allow_degraded"@,
        QueryParameter::Scope => "scope"@,
    }
}

fn component_label_str(label: ComponentLabel) -> (r: &'static str)
    ensures
        r@ == component_label_text(label),
{
    match label {
        ComponentLabel::RouteId => "route id",
        ComponentLabel::DestinationId => "destination id",
        ComponentLabel::SandboxDestinationId => "sandbox destination id",
    }
}

fn query_parameter_str(parameter: QueryParameter) -> (r: &'static str)
    ensures
        r@ == query_parameter_text(parameter),
{
    match parameter {
        QueryParameter::Limit => "limit",
        QueryParameter::AllowDegraded => "allow_degraded",
        QueryParameter::Scope => "scope",
    }
}

/// A path component that is not valid percent-encoding: `400`.
pub fn invalid_component_error(label: ComponentLabel) -> (r: ErrorReply)
    ensures
        r.status == HttpStatus::BadRequest,
        r.error@ == "invalid percent-encoding in "@ + component_label_text(label),
{
    ErrorReply {
        status: HttpStatus::BadRequest,
        error: join2("invalid percent-encoding in ", component_label_str(label)),
    }
}

/// A query parameter with a value the route does not accept: `400`.
pub fn invalid_query_error(parameter: QueryParameter) -> (r: ErrorReply)
    ensures
        r.status == HttpStatus::BadRequest,
        r.error@ == "invalid query parameter `"@ + query_parameter_text(parameter) + "`"@,
{
    ErrorReply {
        status: HttpStatus::BadRequest,
        error: join3("invalid query parameter `", query_parameter_str(parameter), "`"),
    }
}

/// A method and path the control service does not serve: `404`.
pub fn unsupported_route_error(path: &str) -> (r: ErrorReply)
    ensures
        r.status == HttpStatus::NotFound,
        r.error@ == "unsupported control route "@ + path@,
{
    ErrorReply { status: HttpStatus::NotFound, error: join2("unsupported control route ", path) }
}

/// The status an action error is answered with: an unknown route or
/// destination is not found, a failed action is unprocessable.
pub open spec fn action_error_status(e: ControlPlaneError) -> HttpStatus {
    match e {
        ControlPlaneError::ActionFailed(_) => HttpStatus::UnprocessableEntity,
        _ => HttpStatus::NotFound,
    }
}

/// Answers a refused or failed action.
pub fn action_error(e: &ControlPlaneError) -> (r: ErrorReply)
    ensures
        r.status == action_error_status(*e),
        r.error@ == control_error_message(*e),
{
    let status = match e {
        ControlPlaneError::ActionFailed(_) => HttpStatus::UnprocessableEntity,
        _ => HttpStatus::NotFound,
    };
    ErrorReply { status, error: e.message() }
}

/// The error a routed request is answered with without asking the control
/// plane, if any: its malformed query or component, or that it is unsupported.
pub fn routing_error(route: &ControlRoute, path: &str) -> (r: Option<ErrorReply>)
    ensures
        match *route {
            ControlRoute::InvalidQuery(p) => r matches Some(e) && e.status == HttpStatus::BadRequest
                && e.error@ == "invalid query parameter `"@ + query_parameter_text(p) + "`"@,
            ControlRoute::InvalidComponent(l) => r matches Some(e) && e.status
                == HttpStatus::BadRequest && e.error@ == "invalid percent-encoding in "@
                + component_label_text(l),
            ControlRoute::Unsupported => r matches Some(e) && e.status == HttpStatus::NotFound
                && e.error@ == "unsupported control route "@ + path@,
            _ => r is None,
        },
{
    match route {
        ControlRoute::InvalidQuery(p) => Some(invalid_query_error(*p)),
        ControlRoute::InvalidComponent(l) => Some(invalid_component_error(*l)),
        ControlRoute::Unsupported => Some(unsupported_route_error(path)),
        _ => None,
    }
}

} // verus!
