//! What the status endpoint answers.

use vstd::prelude::*;
use crate::state::{LeadershipState, Status};

verus! {

/// HTTP 200: this instance is the leader.
pub const HTTP_OK: u16 = 200;

/// HTTP 404: this instance is a follower, so it is not the active one.
pub const HTTP_NOT_FOUND: u16 = 404;

/// HTTP 503: this instance is shutting down.
pub const HTTP_SERVICE_UNAVAILABLE: u16 = 503;

/// The answer to a status request: the HTTP status code and the two fields
/// of the JSON body.
#[derive(Debug)]
pub struct StatusResponse {
    /// The HTTP status code.
    pub code: u16,
    /// The body's `status` field.
    pub status: String,
    /// The body's `state` field.
    pub state: String,
}

/// The HTTP status code for `status`.
pub open spec fn response_code(status: Status) -> u16 {
    if status.shutting_down {
        HTTP_SERVICE_UNAVAILABLE
    } else if status.leadership is Leader {
        HTTP_OK
    } else {
        HTTP_NOT_FOUND
    }
}

/// The leadership that is reported for `status`. An instance that is
/// shutting down is never reported as leader.
pub open spec fn reported_leadership(status: Status) -> LeadershipState {
    if status.shutting_down {
        LeadershipState::Follower
    } else {
        status.leadership
    }
}

/// The body's `status` field for `status`.
pub open spec fn response_status(status: Status) -> Seq<char> {
    if status.shutting_down {
        "error"@
    } else {
        "ok"@
    }
}

/// Answers a status request. A leader gets 200 and a follower 404, both with
/// status `ok`; an instance that is shutting down gets 503 with status
/// `error`. The state field holds `leader` or `follower`.
pub fn status_response(status: Status) -> (r: StatusResponse)
    ensures
        r.code == response_code(status),
        r.status@ == response_status(status),
        r.state@ == reported_leadership(status).label(),
{
    if status.shutting_down {
        StatusResponse {
            code: HTTP_SERVICE_UNAVAILABLE,
            status: "error".to_owned(),
            state: LeadershipState::Follower.to_string(),
        }
    } else {
        let code = match status.leadership {
            LeadershipState::Leader => HTTP_OK,
            LeadershipState::Follower => HTTP_NOT_FOUND,
        };
        StatusResponse { code, status: "ok".to_owned(), state: status.leadership.to_string() }
    }
}

} // verus!
