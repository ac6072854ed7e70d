//! Health and request accounting.
use vstd::prelude::*;

verus! {

/// How a remote call ended, for accounting.
#[derive(Debug, PartialEq, Eq, Clone, Copy, Structural)]
pub enum RpcOutcome {
    Success,
    /// A structured error of the remote node, with its numeric code.
    RpcError(i64),
    /// Any other failure.
    Failure,
}

/// The label under which a remote call is counted: its response code.
#[derive(Debug, PartialEq, Eq, Clone, Copy, Structural)]
pub struct ResponseLabel {
    pub code: i64,
}

/// The response code that an outcome is counted under.
pub open spec fn response_code(o: RpcOutcome) -> i64 {
    match o {
        RpcOutcome::Success => 200,
        RpcOutcome::RpcError(c) => c,
        RpcOutcome::Failure => 500,
    }
}

impl ResponseLabel {
    /// `200` on success, the node's code on a structured error, `500` otherwise.
    pub fn from_outcome(o: RpcOutcome) -> (r: ResponseLabel)
        ensures
            r.code == response_code(o),
    {
        let code = match o {
            RpcOutcome::Success => 200,
            RpcOutcome::RpcError(c) => c,
            RpcOutcome::Failure => 500,
        };
        ResponseLabel { code }
    }
}

/// The indexer's liveness.
#[derive(Debug, PartialEq, Eq, Clone, Copy, Structural)]
pub enum Availability {
    Available,
    Unavailable,
}

impl Availability {
    /// The liveness after a remote call: available on success, unavailable on
    /// any failure.
    pub fn after(o: RpcOutcome) -> (r: Availability)
        ensures
            r == availability_after(o),
    {
        match o {
            RpcOutcome::Success => Availability::Available,
            _ => Availability::Unavailable,
        }
    }

    /// The HTTP status code that a health probe reports.
    pub fn status_code(&self) -> (r: u16)
        ensures
            r == if *self == Availability::Available {
                200u16
            } else {
                503u16
            },
    {
        match self {
            Availability::Available => 200,
            Availability::Unavailable => 503,
        }
    }
}

/// The liveness after a remote call with outcome `o`.
pub open spec fn availability_after(o: RpcOutcome) -> Availability {
    if o == RpcOutcome::Success {
        Availability::Available
    } else {
        Availability::Unavailable
    }
}

/// What to apply to the report after a remote call: the counter to increment
/// and the liveness to set.
#[derive(Debug, PartialEq, Eq, Clone, Copy, Structural)]
pub struct ReportUpdate {
    pub label: ResponseLabel,
    pub availability: Availability,
}

/// The update that a remote call with outcome `o` implies.
pub open spec fn report_for(o: RpcOutcome) -> ReportUpdate {
    ReportUpdate { label: ResponseLabel { code: response_code(o) }, availability: availability_after(o) }
}

impl ReportUpdate {
    pub fn for_outcome(o: RpcOutcome) -> (r: ReportUpdate)
        ensures
            r == report_for(o),
    {
        ReportUpdate { label: ResponseLabel::from_outcome(o), availability: Availability::after(o) }
    }
}

} // verus!
