use socket_gateway::message::SocketResponse;
use socket_gateway::socket::frame::{CloseFrame, Frame, CLOSE_NORMAL};
use socket_gateway::socket::session::{
    delivery_result, idle_verdict, is_expired_at, response_frame, Enqueue, SendError, Session,
    EXPIRY_MILLIS,
};
use socket_gateway::utils::time_util::current_timestamp;

#[test]
fn expiry_is_false_one_millisecond_before_the_limit() {
    assert!(!is_expired_at(0, 119999));
    assert!(!is_expired_at(5000, 5000 + 119999));
}

#[test]
fn expiry_is_true_at_exactly_the_limit() {
    assert_eq!(EXPIRY_MILLIS, 120000);
    assert!(is_expired_at(0, 120000));
    assert!(is_expired_at(5000, 125000));
    assert!(is_expired_at(5000, 999999));
}

#[test]
fn expiry_is_false_when_now_is_before_the_last_activity() {
    assert!(!is_expired_at(200000, 1000));
    assert!(!is_expired_at(u128::MAX, 0));
}

#[test]
fn expiry_handles_the_largest_timestamps() {
    assert!(is_expired_at(0, u128::MAX));
    assert!(!is_expired_at(u128::MAX, u128::MAX));
    assert!(is_expired_at(u128::MAX - 120000, u128::MAX));
    assert!(!is_expired_at(u128::MAX - 119999, u128::MAX));
}

#[test]
fn session_expiry_goes_by_the_recorded_activity() {
    let (tx, _rx) = flume::bounded::<Frame>(4);
    let session = Session::new(tx);
    session.record_activity(1000);
    assert_eq!(session.last_active_at(), 1000);
    assert!(!session.is_expired(1000));
    assert!(!session.is_expired(120999));
    assert!(session.is_expired(121000));
    session.record_activity(121000);
    assert!(!session.is_expired(121000));
    assert!(!session.is_expired(240999));
    assert!(session.is_expired(241000));
}

#[test]
fn freshly_active_session_is_not_expired() {
    let (tx, _rx) = flume::bounded::<Frame>(4);
    let session = Session::new(tx);
    session.record_activity(0);
    session.update_active_time();
    assert!(!session.is_expired(current_timestamp()));
}

#[test]
fn new_session_starts_active_now() {
    let before = current_timestamp();
    let (tx, _rx) = flume::bounded::<Frame>(4);
    let session = Session::new(tx);
    let after = current_timestamp();
    assert!(before > 0);
    assert!(session.last_active_at() >= before);
    assert!(session.last_active_at() <= after);
    assert!(!session.is_expired(after));
}

#[test]
fn new_session_has_a_hyphenated_random_identifier() {
    let (tx, _rx) = flume::bounded::<Frame>(4);
    let first = Session::new(tx.clone());
    let second = Session::new(tx);
    assert_eq!(first.id.len(), 36);
    assert_eq!(first.id(), first.id.as_str());
    let bytes = first.id.as_bytes();
    for (i, b) in bytes.iter().enumerate() {
        if i == 8 || i == 13 || i == 18 || i == 23 {
            assert_eq!(*b, b'-');
        } else {
            assert!(b.is_ascii_digit() || (b'a'..=b'f').contains(b));
        }
    }
    assert_eq!(bytes[14], b'4');
    assert!(matches!(bytes[19], b'8' | b'9' | b'a' | b'b'));
    assert_ne!(first.id, second.id);
}

#[test]
fn send_on_a_full_queue_drops_the_frame_without_error() {
    let (tx, rx) = flume::bounded::<Frame>(1);
    let session = Session::new(tx);
    assert_eq!(session.send_message(Frame::text("first")), Ok(()));
    assert_eq!(session.send_message(Frame::text("second")), Ok(()));
    assert_eq!(rx.len(), 1);
    assert_eq!(rx.try_recv().ok(), Some(Frame::Text("first".to_string())));
    assert!(rx.try_recv().is_err());
    assert_eq!(session.send_message(Frame::text("third")), Ok(()));
    assert_eq!(rx.try_recv().ok(), Some(Frame::Text("third".to_string())));
}

#[test]
fn send_after_the_receiver_is_gone_reports_session_closed() {
    let (tx, rx) = flume::bounded::<Frame>(4);
    let session = Session::new(tx);
    drop(rx);
    assert_eq!(session.send_message(Frame::text("late")), Err(SendError::SessionClosed));
    assert_eq!(
        session.send_response(SocketResponse::default()),
        Err(SendError::SessionClosed)
    );
}

#[test]
fn frames_leave_the_queue_in_the_order_they_were_sent() {
    let (tx, rx) = flume::bounded::<Frame>(8);
    let session = Session::new(tx);
    assert_eq!(session.send_message(Frame::text("a")), Ok(()));
    assert_eq!(session.send_message(Frame::Ping(vec![1, 2])), Ok(()));
    assert_eq!(session.send_message(Frame::Close(None)), Ok(()));
    assert_eq!(rx.try_recv().ok(), Some(Frame::Text("a".to_string())));
    assert_eq!(rx.try_recv().ok(), Some(Frame::Ping(vec![1, 2])));
    assert_eq!(rx.try_recv().ok(), Some(Frame::Close(None)));
}

#[test]
fn send_response_puts_the_wire_text_on_the_queue() {
    let (tx, rx) = flume::bounded::<Frame>(4);
    let session = Session::new(tx);
    assert_eq!(session.send_response(SocketResponse::default().with_invalid_params()), Ok(()));
    assert_eq!(
        rx.try_recv().ok(),
        Some(Frame::Text("{\"code\":\"4006\",\"message\":\"invalid params\"}".to_string()))
    );
}

#[test]
fn delivery_result_separates_full_from_disconnected() {
    assert_eq!(delivery_result(Enqueue::Queued), Ok(()));
    assert_eq!(delivery_result(Enqueue::Full), Ok(()));
    assert_eq!(delivery_result(Enqueue::Disconnected), Err(SendError::SessionClosed));
}

#[test]
fn idle_verdict_is_the_expiry_notice_from_the_limit_on() {
    assert_eq!(idle_verdict(1000, 120999), None);
    assert_eq!(
        idle_verdict(1000, 121000),
        Some(Frame::Close(Some(CloseFrame { code: 1000, reason: "expired".to_string() })))
    );
    assert_eq!(idle_verdict(1000, 121000), Some(Frame::expiry_notice()));
    assert_eq!(CLOSE_NORMAL, 1000);
}

#[test]
fn close_if_expired_sends_the_notice_only_to_an_expired_session() {
    let (tx, rx) = flume::bounded::<Frame>(4);
    let session = Session::new(tx);
    session.record_activity(10);
    assert!(!session.close_if_expired(120009));
    assert!(rx.try_recv().is_err());
    assert!(session.close_if_expired(120010));
    assert_eq!(rx.try_recv().ok(), Some(Frame::expiry_notice()));
}

#[test]
fn response_frame_is_a_text_frame_with_the_wire_text() {
    assert_eq!(
        response_frame(&SocketResponse::default().with_server_error()),
        Ok(Frame::Text("{\"code\":\"500\",\"message\":\"server error\"}".to_string()))
    );
}

#[test]
fn sessions_compare_by_identifier() {
    let (tx, _rx) = flume::bounded::<Frame>(4);
    let first = Session::new(tx.clone());
    let second = Session::new(tx);
    assert!(first == first);
    assert!(first != second);
    let mut seen = std::collections::HashSet::new();
    seen.insert(&first);
    assert!(seen.contains(&first));
    assert!(!seen.contains(&second));
}
