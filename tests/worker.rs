use rtdealer::protocol::{is_fired, Payload, ProtocolError};
use rtdealer::worker::{draw_work_millis, Worker, WorkerAction, IDENTITY_LEN};

fn reply(payload: Payload) -> Vec<Vec<u8>> {
    vec![Vec::new(), payload.to_bytes()]
}

#[test]
fn request_has_delimiter_then_greeting() {
    assert_eq!(Worker::request_frames(), vec![Vec::new(), b"Hi boss!".to_vec()]);
}

#[test]
fn counts_continue_signals_before_retirement() {
    let mut w = Worker::with_identity(vec![7u8; 10]);
    for _ in 0..5 {
        assert_eq!(w.on_reply(reply(Payload::WorkHarder)).unwrap(), WorkerAction::Continue);
    }
    assert_eq!(w.total_completed, 5);
    assert_eq!(
        w.on_reply(reply(Payload::Fired)).unwrap(),
        WorkerAction::Retire { total_completed: 5 }
    );
    assert_eq!(w.total_completed, 5);
    assert_eq!(w.identity, vec![7u8; 10]);
}

#[test]
fn any_other_text_counts_as_work() {
    let mut w = Worker::with_identity(vec![1u8]);
    let r = w.on_reply(vec![Vec::new(), b"Fired".to_vec()]).unwrap();
    assert_eq!(r, WorkerAction::Continue);
    assert_eq!(w.total_completed, 1);
}

#[test]
fn reply_with_wrong_frame_count_is_refused() {
    let mut w = Worker::with_identity(vec![1u8]);
    let r = w.on_reply(vec![b"Fired!".to_vec()]);
    assert!(matches!(r, Err(ProtocolError::FrameCount { expected: 2, found: 1 })));
    let r = w.on_reply(vec![Vec::new(), Vec::new(), b"Fired!".to_vec()]);
    assert!(matches!(r, Err(ProtocolError::FrameCount { expected: 2, found: 3 })));
    assert_eq!(w.total_completed, 0);
}

#[test]
fn non_text_payload_is_refused_with_its_hex() {
    let mut w = Worker::with_identity(vec![1u8]);
    match w.on_reply(vec![Vec::new(), vec![0xffu8, 0x00, 0xab]]) {
        Err(ProtocolError::InvalidText { hex }) => assert_eq!(hex, "ff00ab"),
        other => panic!("unexpected {:?}", other),
    }
    assert_eq!(w.total_completed, 0);
}

#[test]
fn apply_reply_follows_the_given_text_flag() {
    let mut w = Worker::with_identity(vec![1u8]);
    match w.apply_reply(reply(Payload::WorkHarder), false) {
        Err(ProtocolError::InvalidText { hex }) => assert_eq!(hex, "576f726b20686172646572"),
        other => panic!("unexpected {:?}", other),
    }
    assert_eq!(w.apply_reply(reply(Payload::WorkHarder), true).unwrap(), WorkerAction::Continue);
    assert_eq!(w.total_completed, 1);
}

#[test]
fn new_worker_draws_an_identity_of_ten_bytes() {
    let w = Worker::new();
    assert_eq!(w.identity.len(), IDENTITY_LEN);
    assert_eq!(w.total_completed, 0);
}

#[test]
fn work_millis_lie_in_range() {
    for _ in 0..1000 {
        let m = draw_work_millis();
        assert!((1..50).contains(&m));
    }
}

#[test]
fn fired_detection() {
    assert!(is_fired(&b"Fired!".to_vec()));
    assert!(!is_fired(&b"Fired?".to_vec()));
    assert!(!is_fired(&b"Fired!!".to_vec()));
    assert!(!is_fired(&Vec::new()));
}
