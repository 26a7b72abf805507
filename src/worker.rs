use vstd::prelude::*;
use rand::Rng;
use crate::hex::{hex, hex_of};
use crate::protocol::{
    fired_bytes, hi_boss, hi_boss_bytes, is_fired, ProtocolError, WORKER_REPLY_FRAMES,
};

verus! {

/// Length in bytes of the identity a worker draws for itself.
pub const IDENTITY_LEN: usize = 10;

/// Shortest simulated unit of work, in milliseconds.
pub const WORK_MILLIS_MIN: u64 = 1;

/// Bound, exclusive, on the length of a simulated unit of work, in milliseconds.
pub const WORK_MILLIS_MAX: u64 = 50;

/// Whether the bytes are well-formed UTF-8 text.
pub uninterp spec fn utf8_text(bytes: Seq<u8>) -> bool;

/// Relies on std::str::from_utf8: it succeeds exactly on well-formed UTF-8,
/// which depends on the bytes alone.
#[verifier::external_body]
fn is_utf8(bytes: &[u8]) -> (r: bool)
    ensures
        r == utf8_text(bytes@),
{
    std::str::from_utf8(bytes).is_ok()
}

/// Relies on rand::random (rand 0.7), drawn from the thread-local generator;
/// nothing is promised of the value.
pub assume_specification<T>[ rand::random::<T> ]() -> (r: T)
    where
        rand::distributions::Standard: rand::distributions::Distribution<T>,
;

/// Relies on rand::Rng::gen_range (rand 0.7) on the thread-local generator:
/// a value in `[low, high)`; it panics when `low >= high`.
#[verifier::external_body]
fn random_in_range(low: u64, high: u64) -> (r: u64)
    requires
        low < high,
    ensures
        low <= r < high,
{
    rand::thread_rng().gen_range(low, high)
}

/// Draws the length of one simulated unit of work, in milliseconds.
pub fn draw_work_millis() -> (r: u64)
    ensures
        WORK_MILLIS_MIN <= r < WORK_MILLIS_MAX,
{
    random_in_range(WORK_MILLIS_MIN, WORK_MILLIS_MAX)
}

/// What a worker does after a reply from the broker.
#[derive(Clone, Copy, Debug, PartialEq, Eq, Structural)]
pub enum WorkerAction {
    /// Do one unit of work, then ask again.
    Continue,
    /// Stop, reporting the units of work completed.
    Retire { total_completed: u64 },
}

/// State of one worker for one run of its loop.
#[derive(Debug)]
pub struct Worker {
    /// Identity the transport attaches to every request; fixed for the run.
    pub identity: Vec<u8>,
    /// Units of work finished so far.
    pub total_completed: u64,
}

/// The outcome of handling a reply made of `frames`, whose payload is text
/// or not as `text` says, taking `old` to `new` and returning `r`.
pub open spec fn reply_handled(
    old: Worker,
    new: Worker,
    frames: Seq<Vec<u8>>,
    text: bool,
    r: Result<WorkerAction, ProtocolError>,
) -> bool {
    if frames.len() != WORKER_REPLY_FRAMES {
        new == old && r == Err::<WorkerAction, ProtocolError>(
            ProtocolError::FrameCount { expected: WORKER_REPLY_FRAMES, found: frames.len() as usize },
        )
    } else if frames[1]@ == fired_bytes() {
        new == old && r == Ok::<WorkerAction, ProtocolError>(
            WorkerAction::Retire { total_completed: old.total_completed },
        )
    } else if !text {
        new == old && (r matches Err(ProtocolError::InvalidText { hex }) && hex@ == hex_of(
            frames[1]@,
        ))
    } else {
        new == old.after_reply(frames[1]@) && r == Ok::<WorkerAction, ProtocolError>(
            WorkerAction::Continue,
        )
    }
}

impl Worker {
    /// The worker after a reply carrying `payload`: anything but the
    /// retirement signal means one more unit of work.
    pub open spec fn after_reply(self, payload: Seq<u8>) -> Worker {
        if payload == fired_bytes() {
            self
        } else {
            Worker { total_completed: (self.total_completed + 1) as u64, ..self }
        }
    }

    /// The worker after replies carrying the given payloads, in order.
    pub open spec fn after_replies(self, payloads: Seq<Seq<u8>>) -> Worker
        decreases payloads.len(),
    {
        if payloads.len() == 0 {
            self
        } else {
            self.after_replies(payloads.drop_last()).after_reply(payloads.last())
        }
    }

    /// A worker with a freshly drawn random identity and no work done.
    pub fn new() -> (r: Worker)
        ensures
            r.identity@.len() == IDENTITY_LEN,
            r.total_completed == 0,
    {
        let mut identity: Vec<u8> = Vec::new();
        while identity.len() < IDENTITY_LEN
            invariant
                identity@.len() <= IDENTITY_LEN,
            decreases IDENTITY_LEN - identity@.len(),
        {
            identity.push(rand::random::<u8>());
        }
        Worker { identity, total_completed: 0 }
    }

    /// A worker with the given identity and no work done.
    pub fn with_identity(identity: Vec<u8>) -> (r: Worker)
        ensures
            r.identity@ == identity@,
            r.total_completed == 0,
    {
        Worker { identity, total_completed: 0 }
    }

    /// The frames of a request for work: the empty delimiter and "Hi boss!".
    /// The transport adds the worker's identity in front.
    pub fn request_frames() -> (r: Vec<Vec<u8>>)
        ensures
            r@.len() == 2,
            r@[0]@.len() == 0,
            r@[1]@ == hi_boss_bytes(),
    {
        let mut r: Vec<Vec<u8>> = Vec::new();
        r.push(Vec::new());
        r.push(hi_boss());
        r
    }

    /// Handles a reply from the broker, given whether its payload frame is
    /// UTF-8 text. The retirement signal ends the run with the count of work
    /// done; any other text payload counts one more unit of work. A reply
    /// with another number of frames, or a payload that is not text, is
    /// refused and changes nothing.
    pub fn apply_reply(&mut self, frames: Vec<Vec<u8>>, payload_is_text: bool) -> (r: Result<
        WorkerAction,
        ProtocolError,
    >)
        requires
            old(self).total_completed < u64::MAX,
        ensures
            reply_handled(*old(self), *final(self), frames@, payload_is_text, r),
    {
        if frames.len() != WORKER_REPLY_FRAMES {
            return Err(ProtocolError::FrameCount { expected: WORKER_REPLY_FRAMES, found: frames.len() });
        }
        if is_fired(&frames[1]) {
            return Ok(WorkerAction::Retire { total_completed: self.total_completed });
        }
        if !payload_is_text {
            return Err(ProtocolError::InvalidText { hex: hex(frames[1].as_slice()) });
        }
        self.total_completed = self.total_completed + 1;
        Ok(WorkerAction::Continue)
    }

    /// Handles a reply from the broker as `apply_reply` does, deciding
    /// whether the payload is UTF-8 text.
    pub fn on_reply(&mut self, frames: Vec<Vec<u8>>) -> (r: Result<WorkerAction, ProtocolError>)
        requires
            old(self).total_completed < u64::MAX,
        ensures
            reply_handled(
                *old(self),
                *final(self),
                frames@,
                frames@.len() == WORKER_REPLY_FRAMES && utf8_text(frames@[1]@),
                r,
            ),
    {
        let text = frames.len() == WORKER_REPLY_FRAMES && is_utf8(frames[1].as_slice());
        self.apply_reply(frames, text)
    }
}

/// A worker that has received `k` continue-signals, and no retirement
/// signal, since it started with no work done has completed exactly `k`
/// units of work; its identity is unchanged.
pub proof fn lemma_worker_counting(w: Worker, replies: Seq<Seq<u8>>)
    requires
        w.total_completed == 0,
        replies.len() < u64::MAX,
        forall|i: int| 0 <= i < replies.len() ==> #[trigger] replies[i] != fired_bytes(),
    ensures
        w.after_replies(replies).total_completed == replies.len(),
        w.after_replies(replies).identity == w.identity,
    decreases replies.len(),
{
    if replies.len() > 0 {
        let prefix = replies.drop_last();
        assert forall|i: int| 0 <= i < prefix.len() implies #[trigger] prefix[i] != fired_bytes() by {
            assert(prefix[i] == replies[i]);
        }
        lemma_worker_counting(w, prefix);
        assert(replies.last() == replies[replies.len() - 1]);
    }
}

} // verus!
