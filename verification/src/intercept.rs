//! The interception boundary: ordered, optional hook points that may rewrite
//! the observed local address, remote address, raw datagram bytes or
//! decrypted payload bytes before the engine sees them.
//!
//! Hooks are modelled as a composable chain of pure rewrites over a fixed
//! set of named extension points; pass-through is the identity. The engine
//! treats the chain's output as ground truth and assumes no relationship
//! between it and the original observation.

use vstd::prelude::*;
use crate::addr::SocketAddr;

verus! {

/// What the engine observes for one inbound datagram.
pub struct Observed {
    pub local: SocketAddr,
    pub remote: SocketAddr,
    /// The raw datagram bytes.
    pub datagram: Vec<u8>,
    /// The decrypted packet payload bytes.
    pub payload: Vec<u8>,
}

/// The mathematical value of an observation.
pub ghost struct ObservedModel {
    pub local: SocketAddr,
    pub remote: SocketAddr,
    pub datagram: Seq<u8>,
    pub payload: Seq<u8>,
}

impl Observed {
    pub open spec fn spec_model(self) -> ObservedModel {
        ObservedModel {
            local: self.local,
            remote: self.remote,
            datagram: self.datagram@,
            payload: self.payload@,
        }
    }
}

/// One hook at a named extension point.
pub enum Interceptor {
    /// The identity rewrite: observe without changing anything.
    PassThrough,
    /// Rewrite the observed local address before normalization.
    RewriteLocalAddress { addr: SocketAddr },
    /// Rewrite the observed remote address before normalization.
    RewriteRemoteAddress { addr: SocketAddr },
    /// Replace the raw datagram bytes (an empty replacement simulates a drop).
    RewriteDatagram { bytes: Vec<u8> },
    /// Replace the decrypted payload bytes.
    RewritePayload { bytes: Vec<u8> },
}

impl Interceptor {
    /// The rewrite this hook performs.
    pub open spec fn spec_apply(self, obs: ObservedModel) -> ObservedModel {
        match self {
            Interceptor::PassThrough => obs,
            Interceptor::RewriteLocalAddress { addr } => ObservedModel { local: addr, ..obs },
            Interceptor::RewriteRemoteAddress { addr } => ObservedModel { remote: addr, ..obs },
            Interceptor::RewriteDatagram { bytes } => ObservedModel { datagram: bytes@, ..obs },
            Interceptor::RewritePayload { bytes } => ObservedModel { payload: bytes@, ..obs },
        }
    }
}

/// The composition of a chain of hooks, applied in registration order.
pub open spec fn spec_apply_chain(chain: Seq<Interceptor>, obs: ObservedModel) -> ObservedModel
    decreases chain.len(),
{
    if chain.len() == 0 {
        obs
    } else {
        chain.last().spec_apply(spec_apply_chain(chain.drop_last(), obs))
    }
}

/// An exact copy of a byte buffer.
fn copy_bytes(src: &Vec<u8>) -> (r: Vec<u8>)
    ensures
        r@ =~= src@,
{
    let mut out: Vec<u8> = Vec::new();
    let mut i: usize = 0;
    while i < src.len()
        invariant
            i <= src@.len(),
            out@ =~= src@.take(i as int),
        decreases src@.len() - i,
    {
        out.push(src[i]);
        proof {
            assert(out@ =~= src@.take(i + 1));
        }
        i += 1;
    }
    out
}

/// Apply one hook to an observation.
fn apply_one(hook: &Interceptor, obs: Observed) -> (r: Observed)
    ensures
        r.spec_model() == hook.spec_apply(obs.spec_model()),
{
    match hook {
        Interceptor::PassThrough => obs,
        Interceptor::RewriteLocalAddress { addr } => Observed { local: *addr, ..obs },
        Interceptor::RewriteRemoteAddress { addr } => Observed { remote: *addr, ..obs },
        Interceptor::RewriteDatagram { bytes } => Observed { datagram: copy_bytes(bytes), ..obs },
        Interceptor::RewritePayload { bytes } => Observed { payload: copy_bytes(bytes), ..obs },
    }
}

/// Run the whole chain over an observation, in registration order. The result
/// is what the rest of the pipeline treats as ground truth.
pub fn apply_chain(chain: &Vec<Interceptor>, obs: Observed) -> (r: Observed)
    ensures
        r.spec_model() == spec_apply_chain(chain@, obs.spec_model()),
{
    let mut cur = obs;
    let ghost orig = cur.spec_model();
    let mut i: usize = 0;
    while i < chain.len()
        invariant
            i <= chain@.len(),
            cur.spec_model() == spec_apply_chain(chain@.take(i as int), orig),
        decreases chain@.len() - i,
    {
        proof {
            assert(chain@.take(i + 1).drop_last() =~= chain@.take(i as int));
            assert(chain@.take(i + 1).last() == chain@[i as int]);
        }
        cur = apply_one(&chain[i], cur);
        i += 1;
    }
    proof {
        assert(chain@.take(chain@.len() as int) =~= chain@);
    }
    cur
}

} // verus!
