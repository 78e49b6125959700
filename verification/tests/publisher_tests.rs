use silent_sparrow::publisher::{Delivery, HttpsPublisher, PublishRequest, PUBLISH_TIMEOUT_SECS};

fn answered(status: u16, status_text: &str, body: &str) -> Delivery {
    Delivery::Answered {
        status,
        status_text: status_text.to_string(),
        body: body.to_string(),
    }
}

#[test]
fn request_posts_the_statement_with_a_bearer_token() {
    let publisher =
        HttpsPublisher::new("https://example.org/hook".to_string(), Some("s3cret".to_string()));
    assert_eq!(
        publisher.request("{\"a\": 1}"),
        PublishRequest {
            url: "https://example.org/hook".to_string(),
            body: "{\"a\": 1}".to_string(),
            authorization: Some("Bearer s3cret".to_string()),
            timeout_secs: 30,
        }
    );
    assert_eq!(PUBLISH_TIMEOUT_SECS, 30);
}

#[test]
fn request_without_a_token_has_no_authorization() {
    let publisher = HttpsPublisher::new("https://example.org/hook".to_string(), None);
    assert_eq!(publisher.request("x").authorization, None);
}

#[test]
fn ok_created_and_no_content_are_success() {
    let publisher = HttpsPublisher::new("u".to_string(), None);
    assert_eq!(publisher.publish(&answered(200, "200 OK", "")), Ok(()));
    assert_eq!(publisher.publish(&answered(201, "201 Created", "made")), Ok(()));
    assert_eq!(publisher.publish(&answered(204, "204 No Content", "")), Ok(()));
    assert!(HttpsPublisher::accepted(200));
    assert!(HttpsPublisher::accepted(201));
    assert!(HttpsPublisher::accepted(204));
}

#[test]
fn other_statuses_are_failures_with_status_and_body() {
    let publisher = HttpsPublisher::new("u".to_string(), None);
    assert_eq!(
        publisher.publish(&answered(500, "500 Internal Server Error", "boom")),
        Err("Server returned 500 Internal Server Error: boom".to_string())
    );
    assert_eq!(
        publisher.publish(&answered(202, "202 Accepted", "")),
        Err("Server returned 202 Accepted: ".to_string())
    );
    assert!(!HttpsPublisher::accepted(202));
    assert!(!HttpsPublisher::accepted(203));
    assert!(!HttpsPublisher::accepted(199));
    assert!(!HttpsPublisher::accepted(404));
    assert!(!HttpsPublisher::accepted(0));
}

#[test]
fn request_without_response_is_a_failure() {
    let publisher = HttpsPublisher::new("u".to_string(), None);
    assert_eq!(
        publisher.publish(&Delivery::Failed { reason: "timed out".to_string() }),
        Err("Request failed: timed out".to_string())
    );
}
