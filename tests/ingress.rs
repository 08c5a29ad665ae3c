use docker_manager::ingress::{ingress_status, EnqueueOutcome, STATUS_OK, STATUS_RETRY};

#[test]
fn queued_message_is_acknowledged() {
    assert_eq!(ingress_status(EnqueueOutcome::Enqueued), 200);
    assert_eq!(STATUS_OK, 200);
}

#[test]
fn full_or_closed_queue_asks_for_retry() {
    assert_eq!(ingress_status(EnqueueOutcome::Full), 503);
    assert_eq!(ingress_status(EnqueueOutcome::Closed), STATUS_RETRY);
}
