//! Failures, their messages, and the one shape they take at the boundary.

use topic_service::error::ServiceError;
use topic_service::guard::ownership_guard;
use topic_service::response::Response;
use topic_service::topic::Topic;
use uuid::Uuid;

fn topic(id: u128, owner: u128) -> Topic {
    Topic {
        id: Uuid::from_u128(id),
        owner_id: Uuid::from_u128(owner),
        resolution: String::from("RESOLVED"),
        normal_chat: None,
        side: true,
    }
}

#[test]
fn each_failure_has_its_message() {
    assert_eq!(ServiceError::ValidationError.message(), "Resolution must not be empty");
    assert_eq!(
        ServiceError::UpstreamError(String::from("model offline")).message(),
        "Error getting topic string: model offline"
    );
    assert_eq!(ServiceError::UpstreamError(String::new()).message(), "Error getting topic string: ");
    assert_eq!(
        ServiceError::NotFoundOrDenied.message(),
        "This topic does not exist for the authenticated user"
    );
    assert_eq!(ServiceError::StoreError(String::from("disk full")).message(), "disk full");
    assert_eq!(ServiceError::StoreError(String::new()).message(), "");
}

#[test]
fn every_failure_becomes_a_bad_request() {
    let failures = vec![
        ServiceError::ValidationError,
        ServiceError::UpstreamError(String::from("a")),
        ServiceError::NotFoundOrDenied,
        ServiceError::StoreError(String::from("b")),
    ];
    for failure in failures {
        let response = Response::refusal(&failure);
        assert_eq!(response, Response::BadRequest(failure.message()));
        assert_eq!(response.status(), 400);
    }
    assert_eq!(
        Response::created(Err(ServiceError::ValidationError)),
        Response::BadRequest(String::from("Resolution must not be empty"))
    );
    assert_eq!(
        Response::written(Err(ServiceError::StoreError(String::from("disk full")))),
        Response::BadRequest(String::from("disk full"))
    );
    assert_eq!(
        Response::listed(Err(ServiceError::StoreError(String::from("timeout")))),
        Response::BadRequest(String::from("timeout"))
    );
}

#[test]
fn successes_keep_their_payload() {
    let created = Response::created(Ok(topic(1, 2)));
    assert_eq!(created, Response::Created(topic(1, 2)));
    assert_eq!(created.status(), 200);
    let listed = Response::listed(Ok(vec![topic(1, 2), topic(3, 2)]));
    assert_eq!(listed, Response::Topics(vec![topic(1, 2), topic(3, 2)]));
    assert_eq!(listed.status(), 200);
    assert_eq!(Response::listed(Ok(Vec::new())), Response::Topics(Vec::new()));
    let written = Response::written(Ok(()));
    assert_eq!(written, Response::NoContent);
    assert_eq!(written.status(), 204);
}

#[test]
fn the_guard_lets_only_the_owners_own_topic_through() {
    let caller = Uuid::from_u128(2);
    let wanted = Uuid::from_u128(1);
    assert_eq!(ownership_guard(caller, wanted, Some(topic(1, 2))), Ok(topic(1, 2)));
    assert_eq!(
        ownership_guard(caller, wanted, Some(topic(1, 3))),
        Err(ServiceError::NotFoundOrDenied)
    );
    assert_eq!(
        ownership_guard(caller, wanted, Some(topic(4, 2))),
        Err(ServiceError::NotFoundOrDenied)
    );
    assert_eq!(
        ownership_guard(caller, wanted, Some(topic(2, 1))),
        Err(ServiceError::NotFoundOrDenied)
    );
    assert_eq!(ownership_guard(caller, wanted, None), Err(ServiceError::NotFoundOrDenied));
}
