use vstd::prelude::*;
use crate::protocol::{Payload, ProtocolError, BROKER_REQUEST_FRAMES};

verus! {

/// The reference budget during which workers are told to keep working:
/// thirty seconds, in nanoseconds.
pub const ALLOWED_DURATION_NANOS: u64 = 30_000_000_000;

/// The reference number of retirement replies after which the broker stops.
pub const WORKER_POOL_SIZE: u64 = 4;

/// The answer the broker owes a request that arrives `elapsed` nanoseconds
/// after it started, under a budget of `allowed` nanoseconds.
pub open spec fn reply_for(allowed: u64, elapsed: u64) -> Payload {
    if elapsed < allowed {
        Payload::WorkHarder
    } else {
        Payload::Fired
    }
}

/// How many of the given request times fall at or after the deadline.
pub open spec fn fired_in(allowed: u64, times: Seq<u64>) -> nat
    decreases times.len(),
{
    if times.len() == 0 {
        0
    } else {
        fired_in(allowed, times.drop_last()) + if times.last() >= allowed {
            1nat
        } else {
            0nat
        }
    }
}

/// State of the load-balancing broker for one run of its loop. The clock is
/// kept by the caller, which hands in the time elapsed since the broker
/// started with every request.
#[derive(Clone, Copy, Debug)]
pub struct Broker {
    /// Budget, in nanoseconds, during which workers are told to keep working.
    pub allowed_duration_nanos: u64,
    /// Number of retirement replies after which the broker stops.
    pub worker_pool_size: u64,
    /// Retirement replies sent so far.
    pub workers_fired: u64,
}

/// What the broker sends back for one request, and whether its loop ends.
#[derive(Debug)]
pub struct BrokerReply {
    /// Identity, empty delimiter, payload.
    pub frames: Vec<Vec<u8>>,
    /// The answer carried in the payload frame.
    pub payload: Payload,
    /// True once the quota of retirement replies is reached.
    pub stop: bool,
}

impl Broker {
    /// The broker after answering a request at `elapsed`.
    pub open spec fn after_request(self, elapsed: u64) -> Broker {
        Broker {
            workers_fired: if elapsed >= self.allowed_duration_nanos {
                (self.workers_fired + 1) as u64
            } else {
                self.workers_fired
            },
            ..self
        }
    }

    /// Whether answering a request at `elapsed` ends the broker's loop.
    pub open spec fn stops_on(self, elapsed: u64) -> bool {
        elapsed >= self.allowed_duration_nanos && self.workers_fired + 1 >= self.worker_pool_size
    }

    /// The broker after answering requests at the given times, in order.
    pub open spec fn after_requests(self, times: Seq<u64>) -> Broker
        decreases times.len(),
    {
        if times.len() == 0 {
            self
        } else {
            self.after_requests(times.drop_last()).after_request(times.last())
        }
    }

    /// A broker that has fired nobody yet.
    pub fn new(allowed_duration_nanos: u64, worker_pool_size: u64) -> (r: Broker)
        ensures
            r.allowed_duration_nanos == allowed_duration_nanos,
            r.worker_pool_size == worker_pool_size,
            r.workers_fired == 0,
    {
        Broker { allowed_duration_nanos, worker_pool_size, workers_fired: 0 }
    }

    /// The answer to a request that arrives `elapsed_nanos` after the start.
    pub fn decide(&self, elapsed_nanos: u64) -> (r: Payload)
        ensures
            r == reply_for(self.allowed_duration_nanos, elapsed_nanos),
    {
        if elapsed_nanos < self.allowed_duration_nanos {
            Payload::WorkHarder
        } else {
            Payload::Fired
        }
    }

    /// Answers one request, given as the frames the transport delivered
    /// (identity, delimiter, payload) and the time elapsed since the start.
    /// The reply goes back to the sender's identity; a retirement reply is
    /// counted, and the loop ends once the count reaches the pool size.
    /// A request with another number of frames is refused and changes nothing.
    pub fn on_request(&mut self, frames: Vec<Vec<u8>>, elapsed_nanos: u64) -> (r: Result<
        BrokerReply,
        ProtocolError,
    >)
        requires
            old(self).workers_fired < u64::MAX,
        ensures
            frames@.len() != BROKER_REQUEST_FRAMES ==> *final(self) == *old(self) && r == Err::<
                BrokerReply,
                ProtocolError,
            >(ProtocolError::FrameCount { expected: BROKER_REQUEST_FRAMES, found: frames@.len() as usize }),
            frames@.len() == BROKER_REQUEST_FRAMES ==> {
                &&& r is Ok
                &&& *final(self) == old(self).after_request(elapsed_nanos)
                &&& r->Ok_0.payload == reply_for(old(self).allowed_duration_nanos, elapsed_nanos)
                &&& r->Ok_0.stop == old(self).stops_on(elapsed_nanos)
                &&& r->Ok_0.frames@.len() == 3
                &&& r->Ok_0.frames@[0]@ == frames@[0]@
                &&& r->Ok_0.frames@[1]@.len() == 0
                &&& r->Ok_0.frames@[2]@ == r->Ok_0.payload.bytes()
            },
    {
        if frames.len() != BROKER_REQUEST_FRAMES {
            return Err(ProtocolError::FrameCount { expected: BROKER_REQUEST_FRAMES, found: frames.len() });
        }
        let ghost sent = frames@;
        let mut frames = frames;
        let identity = frames.swap_remove(0);
        assert(identity@ == sent[0]@);
        let payload = self.decide(elapsed_nanos);
        let mut stop = false;
        if let Payload::Fired = payload {
            self.workers_fired = self.workers_fired + 1;
            stop = self.workers_fired >= self.worker_pool_size;
        }
        let mut out: Vec<Vec<u8>> = Vec::new();
        out.push(identity);
        out.push(Vec::new());
        out.push(payload.to_bytes());
        Ok(BrokerReply { frames: out, payload, stop })
    }
}

/// Starting from a broker that has fired nobody, the request at position `i`
/// ends the loop exactly when it is answered with the retirement payload and
/// the retirement replies sent so far, this one included, reach the pool
/// size; whoever sent them. With a pool of at least one, the first request
/// that ends the loop is the one that brings the count to exactly the pool
/// size.
pub proof fn lemma_quota_termination(b: Broker, times: Seq<u64>, i: int)
    requires
        b.workers_fired == 0,
        0 <= i < times.len(),
        times.len() < u64::MAX,
    ensures
        b.after_requests(times.take(i)).stops_on(times[i]) <==> (times[i]
            >= b.allowed_duration_nanos && fired_in(b.allowed_duration_nanos, times.take(i + 1))
            >= b.worker_pool_size),
        b.worker_pool_size >= 1 && b.after_requests(times.take(i)).stops_on(times[i]) && (forall|
            j: int,
        | 0 <= j < i ==> !#[trigger] b.after_requests(times.take(j)).stops_on(times[j]))
            ==> fired_in(b.allowed_duration_nanos, times.take(i + 1)) == b.worker_pool_size,
{
    lemma_fired_count(b, times, i);
    assert(times.take(i + 1).drop_last() =~= times.take(i));
    if b.worker_pool_size >= 1 && b.after_requests(times.take(i)).stops_on(times[i]) && (forall|
        j: int,
    | 0 <= j < i ==> !#[trigger] b.after_requests(times.take(j)).stops_on(times[j])) {
        if fired_in(b.allowed_duration_nanos, times.take(i)) >= b.worker_pool_size {
            let j = first_reaching(b, times, i);
            lemma_fired_count(b, times, j);
            assert(times.take(j + 1).drop_last() =~= times.take(j));
            assert(b.after_requests(times.take(j)).stops_on(times[j]));
        }
    }
}

/// The broker's count after a prefix of the requests is the number of them
/// that came at or after the deadline.
proof fn lemma_fired_count(b: Broker, times: Seq<u64>, i: int)
    requires
        0 <= i <= times.len(),
        b.workers_fired + times.len() < u64::MAX,
    ensures
        b.after_requests(times.take(i)).workers_fired == b.workers_fired + fired_in(
            b.allowed_duration_nanos,
            times.take(i),
        ),
        b.after_requests(times.take(i)).allowed_duration_nanos == b.allowed_duration_nanos,
        b.after_requests(times.take(i)).worker_pool_size == b.worker_pool_size,
        fired_in(b.allowed_duration_nanos, times.take(i)) <= i,
    decreases i,
{
    if i > 0 {
        lemma_fired_count(b, times, i - 1);
        assert(times.take(i).drop_last() =~= times.take(i - 1));
    }
}

/// Where the count of retirement replies is at least `n >= 1` after the
/// first `i` requests, some earlier request `j < i` was a retirement reply
/// that brought the count to exactly `n`.
proof fn first_reaching(b: Broker, times: Seq<u64>, i: int) -> (j: int)
    requires
        0 <= i <= times.len(),
        b.worker_pool_size >= 1,
        fired_in(b.allowed_duration_nanos, times.take(i)) >= b.worker_pool_size,
    ensures
        0 <= j < i,
        times[j] >= b.allowed_duration_nanos,
        fired_in(b.allowed_duration_nanos, times.take(j + 1)) == b.worker_pool_size,
    decreases i,
{
    assert(times.take(i).drop_last() =~= times.take(i - 1));
    if fired_in(b.allowed_duration_nanos, times.take(i - 1)) >= b.worker_pool_size {
        first_reaching(b, times, i - 1)
    } else {
        i - 1
    }
}

/// Once a request has come at or after the deadline, every later request is
/// answered with the retirement payload: the answer only ever moves from
/// continue to retire.
pub proof fn lemma_deadline_monotonic(allowed: u64, t1: u64, t2: u64)
    requires
        t1 < t2,
        t1 >= allowed,
    ensures
        reply_for(allowed, t2) == Payload::Fired,
{
}

} // verus!
