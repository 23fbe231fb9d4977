use just_one_init::state::{JustOneInitState, LeadershipState, Status};
use just_one_init::status_server::{
    status_response, HTTP_NOT_FOUND, HTTP_OK, HTTP_SERVICE_UNAVAILABLE,
};

#[test]
fn leader_answers_ok() {
    let response = status_response(Status {
        leadership: LeadershipState::Leader,
        shutting_down: false,
    });
    assert_eq!(response.code, 200);
    assert_eq!(response.code, HTTP_OK);
    assert_eq!(response.status, "ok");
    assert_eq!(response.state, "leader");
}

#[test]
fn follower_answers_not_found() {
    let response = status_response(Status {
        leadership: LeadershipState::Follower,
        shutting_down: false,
    });
    assert_eq!(response.code, 404);
    assert_eq!(response.code, HTTP_NOT_FOUND);
    assert_eq!(response.status, "ok");
    assert_eq!(response.state, "follower");
}

#[test]
fn shutdown_answers_unavailable_and_never_leader() {
    for leadership in [LeadershipState::Leader, LeadershipState::Follower] {
        let response = status_response(Status {
            leadership,
            shutting_down: true,
        });
        assert_eq!(response.code, 503);
        assert_eq!(response.code, HTTP_SERVICE_UNAVAILABLE);
        assert_eq!(response.status, "error");
        assert_eq!(response.state, "follower");
    }
}

#[test]
fn events_are_displayed_by_name() {
    assert_eq!(JustOneInitState::BecameLeader.to_string(), "BecameLeader");
    assert_eq!(JustOneInitState::BeganShutdown.to_string(), "BeganShutdown");
    assert_eq!(
        JustOneInitState::BecameFollower.to_string(),
        "BecameFollower"
    );
}

#[test]
fn leadership_is_labelled_in_lower_case() {
    assert_eq!(LeadershipState::Leader.to_string(), "leader");
    assert_eq!(LeadershipState::Follower.to_string(), "follower");
}
