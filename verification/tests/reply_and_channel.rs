use org_pipeline::channel::{StagedChannel, TrySend};
use org_pipeline::error::{Error, ErrorKind};
use org_pipeline::reply::ReplyHandle;

#[test]
fn reply_resolves_at_most_once() {
    let mut reply: ReplyHandle<String> = ReplyHandle::create();
    assert!(reply.is_pending());
    assert!(reply.resolve(Ok("first".to_string())));
    // The second attempt reports failure and must not panic.
    assert!(!reply.resolve(Ok("second".to_string())));
    let got = reply.await_result(false);
    assert_eq!(got.unwrap().as_str(), "first");
}

#[test]
fn reply_reports_vanished_sender() {
    let mut reply: ReplyHandle<String> = ReplyHandle::create();
    reply.drop_sender();
    let got = reply.await_result(false);
    let err = got.unwrap_err();
    assert_eq!(err.kind(), ErrorKind::ReceiveFailure);
    assert_eq!(err.message().as_str(), "reply sender vanished without answering");
}

#[test]
fn reply_await_honors_deadline_and_discards_late_result() {
    let mut reply: ReplyHandle<String> = ReplyHandle::create();
    let got = reply.await_result(true);
    let err = got.unwrap_err();
    assert_eq!(err.kind(), ErrorKind::ReceiveTimeout);
    assert_eq!(err.message().as_str(), "timed out awaiting reply");
    // A result arriving after the caller gave up is discarded, not a panic.
    assert!(!reply.resolve(Ok("late".to_string())));
}

#[test]
fn channel_is_fifo() {
    let mut channel: StagedChannel<i32> = StagedChannel::bounded(4);
    assert!(matches!(channel.try_send(1), TrySend::Accepted));
    assert!(matches!(channel.try_send(2), TrySend::Accepted));
    assert!(matches!(channel.try_send(3), TrySend::Accepted));
    assert_eq!(channel.recv(), Some(1));
    assert_eq!(channel.recv(), Some(2));
    assert_eq!(channel.recv(), Some(3));
    assert_eq!(channel.recv(), None);
}

#[test]
fn channel_refuses_past_capacity() {
    let mut channel: StagedChannel<i32> = StagedChannel::bounded(2);
    assert!(matches!(channel.try_send(1), TrySend::Accepted));
    assert!(matches!(channel.try_send(2), TrySend::Accepted));
    // At capacity the request comes back to the producer.
    match channel.try_send(3) {
        TrySend::Congested(r) => assert_eq!(r, 3),
        _ => panic!("expected congestion at capacity"),
    }
    assert_eq!(channel.len(), 2);
    assert_eq!(channel.recv(), Some(1));
    assert!(matches!(channel.try_send(3), TrySend::Accepted));
}

#[test]
fn channel_refuses_after_close_but_drains() {
    let mut channel: StagedChannel<i32> = StagedChannel::bounded(2);
    assert!(matches!(channel.try_send(7), TrySend::Accepted));
    channel.close();
    match channel.try_send(8) {
        TrySend::Closed(r) => assert_eq!(r, 8),
        _ => panic!("expected closed channel to refuse"),
    }
    assert_eq!(channel.recv(), Some(7));
    assert_eq!(channel.recv(), None);
}

#[test]
fn error_carries_kind_and_message() {
    let e = Error::new(ErrorKind::StorageFailure, "it broke".to_string());
    assert_eq!(e.kind(), ErrorKind::StorageFailure);
    assert_eq!(e.message().as_str(), "it broke");
    let c = e.clone();
    assert_eq!(c.kind(), ErrorKind::StorageFailure);
    assert_eq!(c.message().as_str(), "it broke");
}
