use rtdealer::broker::{Broker, ALLOWED_DURATION_NANOS, WORKER_POOL_SIZE};
use rtdealer::protocol::{hi_boss, Payload, ProtocolError};

fn request(identity: &[u8]) -> Vec<Vec<u8>> {
    vec![identity.to_vec(), Vec::new(), hi_boss()]
}

#[test]
fn reply_before_deadline_is_work_harder() {
    let mut b = Broker::new(1_000, 4);
    let r = b.on_request(request(b"abc"), 999).unwrap();
    assert_eq!(r.payload, Payload::WorkHarder);
    assert_eq!(r.frames, vec![b"abc".to_vec(), Vec::new(), b"Work harder".to_vec()]);
    assert!(!r.stop);
    assert_eq!(b.workers_fired, 0);
}

#[test]
fn reply_at_deadline_is_fired() {
    let mut b = Broker::new(1_000, 4);
    let r = b.on_request(request(b"abc"), 1_000).unwrap();
    assert_eq!(r.payload, Payload::Fired);
    assert_eq!(r.frames, vec![b"abc".to_vec(), Vec::new(), b"Fired!".to_vec()]);
    assert!(!r.stop);
    assert_eq!(b.workers_fired, 1);
}

#[test]
fn quota_reached_by_one_worker_asking_repeatedly() {
    let mut b = Broker::new(0, 3);
    for i in 0..3u64 {
        let r = b.on_request(request(b"same"), 10 + i).unwrap();
        assert_eq!(r.payload, Payload::Fired);
        assert_eq!(r.stop, i == 2);
    }
    assert_eq!(b.workers_fired, 3);
}

#[test]
fn quota_counts_only_retirement_replies() {
    let mut b = Broker::new(100, 2);
    let times = [10u64, 50, 99, 100, 150];
    let mut stops = Vec::new();
    for t in times {
        stops.push(b.on_request(request(b"w"), t).unwrap().stop);
    }
    assert_eq!(stops, vec![false, false, false, false, true]);
    assert_eq!(b.workers_fired, 2);
}

#[test]
fn decision_never_moves_back_to_continue() {
    let b = Broker::new(200, 1);
    let mut seen_fired = false;
    for t in 0..400u64 {
        let p = b.decide(t);
        if seen_fired {
            assert_eq!(p, Payload::Fired);
        }
        seen_fired = seen_fired || p == Payload::Fired;
    }
    assert!(seen_fired);
    assert_eq!(b.decide(199), Payload::WorkHarder);
    assert_eq!(b.decide(200), Payload::Fired);
}

#[test]
fn request_with_two_frames_is_refused() {
    let mut b = Broker::new(0, 1);
    let r = b.on_request(vec![Vec::new(), hi_boss()], 5);
    assert!(matches!(r, Err(ProtocolError::FrameCount { expected: 3, found: 2 })));
    assert_eq!(b.workers_fired, 0);
}

#[test]
fn request_with_four_frames_is_refused() {
    let mut b = Broker::new(0, 1);
    let mut frames = request(b"id");
    frames.push(Vec::new());
    let r = b.on_request(frames, 5);
    assert!(matches!(r, Err(ProtocolError::FrameCount { expected: 3, found: 4 })));
    assert_eq!(b.workers_fired, 0);
}

#[test]
fn payload_bytes_are_the_literal_strings() {
    assert_eq!(Payload::WorkHarder.to_bytes(), b"Work harder".to_vec());
    assert_eq!(Payload::Fired.to_bytes(), b"Fired!".to_vec());
    assert_eq!(hi_boss(), b"Hi boss!".to_vec());
}

#[test]
fn reference_settings() {
    let mut b = Broker::new(ALLOWED_DURATION_NANOS, WORKER_POOL_SIZE);
    assert_eq!(b.decide(29_999_999_999), Payload::WorkHarder);
    assert_eq!(b.decide(30_000_000_000), Payload::Fired);
    for i in 0..4u64 {
        let r = b.on_request(request(b"w"), 30_000_000_000 + i).unwrap();
        assert_eq!(r.stop, i == 3);
    }
}
