use vstd::prelude::*;

verus! {

/// Frames of a worker request as the broker receives it: the identity the
/// transport prefixes, the empty delimiter, and the payload.
pub const BROKER_REQUEST_FRAMES: usize = 3;

/// Frames of a broker reply as the worker receives it: the empty delimiter
/// and the payload (the transport strips the identity).
pub const WORKER_REPLY_FRAMES: usize = 2;

/// The bytes of "Work harder", the continue-signal.
pub open spec fn work_harder_bytes() -> Seq<u8> {
    seq![87u8, 111u8, 114u8, 107u8, 32u8, 104u8, 97u8, 114u8, 100u8, 101u8, 114u8]
}

/// The bytes of "Fired!", the retirement signal.
pub open spec fn fired_bytes() -> Seq<u8> {
    seq![70u8, 105u8, 114u8, 101u8, 100u8, 33u8]
}

/// The bytes of "Hi boss!", the payload of every worker request.
pub open spec fn hi_boss_bytes() -> Seq<u8> {
    seq![72u8, 105u8, 32u8, 98u8, 111u8, 115u8, 115u8, 33u8]
}

/// The two answers a broker gives to a request.
#[derive(Clone, Copy, Debug, PartialEq, Eq, Structural)]
pub enum Payload {
    /// Keep working: "Work harder".
    WorkHarder,
    /// Retire: "Fired!".
    Fired,
}

impl Payload {
    pub open spec fn bytes(self) -> Seq<u8> {
        match self {
            Payload::WorkHarder => work_harder_bytes(),
            Payload::Fired => fired_bytes(),
        }
    }

    /// The payload frame that carries this answer.
    pub fn to_bytes(&self) -> (r: Vec<u8>)
        ensures
            r@ == self.bytes(),
    {
        let r = match self {
            Payload::WorkHarder => vec![87u8, 111u8, 114u8, 107u8, 32u8, 104u8, 97u8, 114u8, 100u8, 101u8, 114u8],
            Payload::Fired => vec![70u8, 105u8, 114u8, 101u8, 100u8, 33u8],
        };
        proof {
            assert(r@ =~= self.bytes());
        }
        r
    }
}

/// The payload frame of a worker request, "Hi boss!".
pub fn hi_boss() -> (r: Vec<u8>)
    ensures
        r@ == hi_boss_bytes(),
{
    let r = vec![72u8, 105u8, 32u8, 98u8, 111u8, 115u8, 115u8, 33u8];
    proof {
        assert(r@ =~= hi_boss_bytes());
    }
    r
}

/// Whether a payload frame is the retirement signal.
pub fn is_fired(payload: &Vec<u8>) -> (r: bool)
    ensures
        r == (payload@ == fired_bytes()),
{
    let f = Payload::Fired.to_bytes();
    if payload.len() != f.len() {
        proof {
            assert(payload@.len() != fired_bytes().len());
        }
        return false;
    }
    let mut i: usize = 0;
    while i < f.len()
        invariant
            f@ == fired_bytes(),
            payload@.len() == f@.len(),
            i <= f@.len(),
            forall|j: int| 0 <= j < i ==> payload@[j] == f@[j],
        decreases f@.len() - i,
    {
        if payload[i] != f[i] {
            return false;
        }
        i += 1;
    }
    proof {
        assert(payload@ =~= fired_bytes());
    }
    true
}

/// Why a message could not take part in the exchange.
#[derive(Debug)]
pub enum ProtocolError {
    /// A message did not have the number of frames the exchange prescribes.
    FrameCount { expected: usize, found: usize },
    /// A reply payload was not UTF-8 text; the bytes are given in hexadecimal.
    InvalidText { hex: String },
}

} // verus!
