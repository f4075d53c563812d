use mqtt_session::config::{Qos, TransportConfig, REQUEST_CAPACITY};
use mqtt_session::config::ClientSession;
use mqtt_session::queue::{Enqueue, Request, RequestQueue};

fn publish_request(n: u64) -> Request {
    Request::Publish {
        topic: "hello/world".to_string(),
        qos: Qos::AtMostOnce,
        retain: false,
        payload: format!("payload {}", n),
    }
}

#[test]
fn eleventh_request_must_wait_and_nothing_is_dropped() {
    let mut q = RequestQueue::new(REQUEST_CAPACITY);
    for n in 0..10u64 {
        assert_eq!(q.try_enqueue(publish_request(n)), Enqueue::Accepted);
    }
    assert_eq!(q.len(), 10);
    // the eleventh request: the caller must wait; the queue is unchanged
    assert_eq!(q.try_enqueue(publish_request(10)), Enqueue::MustWait);
    assert_eq!(q.len(), 10);
    // everything accepted is still there, in the order it was accepted
    for n in 0..10u64 {
        assert_eq!(q.dequeue(), Some(publish_request(n)));
    }
    assert_eq!(q.dequeue(), None);
}

#[test]
fn drained_space_admits_the_waiting_request() {
    let mut q = RequestQueue::new(2);
    assert_eq!(q.try_enqueue(publish_request(1)), Enqueue::Accepted);
    assert_eq!(q.try_enqueue(publish_request(2)), Enqueue::Accepted);
    assert_eq!(q.try_enqueue(publish_request(3)), Enqueue::MustWait);
    assert_eq!(q.dequeue(), Some(publish_request(1)));
    assert_eq!(q.try_enqueue(publish_request(3)), Enqueue::Accepted);
    assert_eq!(q.dequeue(), Some(publish_request(2)));
    assert_eq!(q.dequeue(), Some(publish_request(3)));
}

#[test]
fn zero_capacity_queue_admits_nothing() {
    let mut q = RequestQueue::new(0);
    assert_eq!(q.try_enqueue(Request::Disconnect), Enqueue::MustWait);
    assert_eq!(q.len(), 0);
    assert_eq!(q.dequeue(), None);
}

#[test]
fn requests_leave_in_issue_order() {
    let mut q = RequestQueue::new(REQUEST_CAPACITY);
    let sub = Request::Subscribe { topic: "hello/world".to_string(), qos: Qos::AtMostOnce };
    q.try_enqueue(sub.clone());
    q.try_enqueue(publish_request(1));
    q.try_enqueue(Request::Disconnect);
    assert_eq!(q.dequeue(), Some(sub));
    assert_eq!(q.dequeue(), Some(publish_request(1)));
    assert_eq!(q.dequeue(), Some(Request::Disconnect));
}

#[test]
fn session_queue_is_empty_with_the_session_capacity() {
    let transport = TransportConfig::new(vec![1], vec![2], vec![3]);
    let session = ClientSession::open_default(transport);
    let mut q = session.open_queue();
    assert_eq!(q.capacity(), REQUEST_CAPACITY);
    assert_eq!(q.len(), 0);
    assert_eq!(q.dequeue(), None);
}
