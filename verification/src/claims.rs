//! Device claims: which stream holds which endpoint.
//!
//! A device carries one live stream per direction. Before the caller builds
//! a stream it claims the endpoint here and gets the handle that the stream
//! will go by; when it has stopped and dropped a stream it releases the
//! handle. A claim on an endpoint that is still held is refused, so a second
//! stream is never built while the first one lives.

use vstd::prelude::*;
use crate::device::Direction;
use crate::stream::StreamId;

verus! {

/// One direction of one device.
#[derive(Clone, Copy, Debug, PartialEq, Eq, Structural)]
pub struct Endpoint {
    pub device: u32,
    pub direction: Direction,
}

/// A live stream and the endpoint that it holds.
#[derive(Clone, Copy, Debug, PartialEq, Eq, Structural)]
pub struct Claim {
    pub stream: StreamId,
    pub endpoint: Endpoint,
}

/// Why an endpoint could not be claimed.
#[derive(Clone, Copy, Debug, PartialEq, Eq, Structural)]
pub enum ClaimError {
    /// A live stream holds the endpoint.
    Busy { holder: StreamId },
    /// No handle is left to give out.
    Exhausted,
}

/// Whether no two claims share a stream or an endpoint.
pub open spec fn exclusive(claims: Seq<Claim>) -> bool {
    forall|i: int, j: int|
        0 <= i < j < claims.len() ==> (#[trigger] claims[i]).stream != (#[trigger] claims[j]).stream
            && claims[i].endpoint != claims[j].endpoint
}

/// Whether `stream` is live: it holds an endpoint.
pub open spec fn is_live(claims: Seq<Claim>, stream: StreamId) -> bool {
    exists|i: int| 0 <= i < claims.len() && (#[trigger] claims[i]).stream == stream
}

/// Whether `stream` holds `endpoint`.
pub open spec fn holds(claims: Seq<Claim>, stream: StreamId, endpoint: Endpoint) -> bool {
    claims.contains(Claim { stream, endpoint })
}

/// Whether some stream holds `endpoint`.
pub open spec fn is_held(claims: Seq<Claim>, endpoint: Endpoint) -> bool {
    exists|i: int| 0 <= i < claims.len() && (#[trigger] claims[i]).endpoint == endpoint
}

/// The record of the live streams and the endpoints they hold.
#[derive(Debug)]
pub struct DeviceClaims {
    claims: Vec<Claim>,
    issued: u64,
}

impl View for DeviceClaims {
    type V = Seq<Claim>;

    /// The claims of the live streams, oldest first.
    closed spec fn view(&self) -> Seq<Claim> {
        self.claims@
    }
}

impl DeviceClaims {
    #[verifier::type_invariant]
    spec fn sound(self) -> bool {
        &&& exclusive(self.claims@)
        &&& forall|i: int|
            0 <= i < self.claims@.len() ==> (#[trigger] self.claims@[i]).stream.raw < self.issued
    }

    /// The number of handles given out so far; the next one carries it.
    pub closed spec fn issued(&self) -> u64 {
        self.issued
    }

    /// A record without claims, whose first handle is zero.
    pub fn new() -> (made: DeviceClaims)
        ensures
            made@ == Seq::<Claim>::empty(),
            made.issued() == 0,
    {
        DeviceClaims { claims: Vec::new(), issued: 0 }
    }

    /// A record without claims that counts `issued` handles as given out
    /// already, so that its first handle carries that number.
    pub fn starting_at(issued: u64) -> (made: DeviceClaims)
        ensures
            made@ == Seq::<Claim>::empty(),
            made.issued() == issued,
    {
        DeviceClaims { claims: Vec::new(), issued }
    }

    /// The number of live streams.
    pub fn live(&self) -> (n: usize)
        ensures
            n == self@.len(),
            exclusive(self@),
    {
        proof {
            use_type_invariant(self);
        }
        self.claims.len()
    }

    /// The stream that holds `endpoint`, if one does.
    pub fn holder(&self, endpoint: Endpoint) -> (holder: Option<StreamId>)
        ensures
            match holder {
                Some(stream) => holds(self@, stream, endpoint),
                None => !is_held(self@, endpoint),
            },
            exclusive(self@),
    {
        proof {
            use_type_invariant(self);
        }
        let mut i: usize = 0;
        while i < self.claims.len()
            invariant
                i <= self.claims@.len(),
                exclusive(self.claims@),
                forall|j: int| 0 <= j < i ==> (#[trigger] self.claims@[j]).endpoint != endpoint,
            decreases self.claims@.len() - i,
        {
            let claim = self.claims[i];
            if claim.endpoint.device == endpoint.device && claim.endpoint.direction
                == endpoint.direction {
                assert(self.claims@[i as int] == (Claim { stream: claim.stream, endpoint }));
                return Some(claim.stream);
            }
            i += 1;
        }
        None
    }

    /// Claims `endpoint` for a stream about to be built and gives out the
    /// handle of that stream, one that was never given out before. The claim
    /// is refused, and nothing changes, while a live stream holds the
    /// endpoint, or when all handles have been given out.
    pub fn claim(&mut self, endpoint: Endpoint) -> (outcome: Result<StreamId, ClaimError>)
        ensures
            exclusive(final(self)@),
            match outcome {
                Ok(stream) => {
                    &&& !is_held(old(self)@, endpoint)
                    &&& stream.raw == old(self).issued()
                    &&& !is_live(old(self)@, stream)
                    &&& final(self)@ == old(self)@.push(Claim { stream, endpoint })
                    &&& final(self).issued() == old(self).issued() + 1
                },
                Err(ClaimError::Busy { holder }) => {
                    &&& holds(old(self)@, holder, endpoint)
                    &&& final(self)@ == old(self)@
                    &&& final(self).issued() == old(self).issued()
                },
                Err(ClaimError::Exhausted) => {
                    &&& !is_held(old(self)@, endpoint)
                    &&& old(self).issued() == u64::MAX
                    &&& final(self)@ == old(self)@
                    &&& final(self).issued() == old(self).issued()
                },
            },
    {
        proof {
            use_type_invariant(&*self);
        }
        match self.holder(endpoint) {
            Some(holder) => {
                return Err(ClaimError::Busy { holder });
            },
            None => {},
        }
        if self.issued == u64::MAX {
            return Err(ClaimError::Exhausted);
        }
        let stream = StreamId { raw: self.issued };
        let ghost before = self.claims@;
        let mut claims: Vec<Claim> = Vec::new();
        core::mem::swap(&mut self.claims, &mut claims);
        claims.push(Claim { stream, endpoint });
        proof {
            let after = claims@;
            assert forall|i: int, j: int| 0 <= i < j < after.len() implies (#[trigger] after[i]).stream
                != (#[trigger] after[j]).stream && after[i].endpoint != after[j].endpoint by {
                assert(after[i] == before[i]);
                if j < before.len() {
                    assert(after[j] == before[j]);
                }
            }
        }
        *self = DeviceClaims { claims, issued: self.issued + 1 };
        Ok(stream)
    }

    /// Releases the endpoint that `stream` holds, after the stream has been
    /// stopped and dropped. Returns whether the stream was live; a stream
    /// that was not leaves the record as it is.
    pub fn release(&mut self, stream: StreamId) -> (released: bool)
        ensures
            exclusive(final(self)@),
            final(self).issued() == old(self).issued(),
            released == is_live(old(self)@, stream),
            !is_live(final(self)@, stream),
            released ==> exists|i: int|
                0 <= i < old(self)@.len() && (#[trigger] old(self)@[i]).stream == stream
                    && final(self)@ == old(self)@.remove(i),
            !released ==> final(self)@ == old(self)@,
    {
        proof {
            use_type_invariant(&*self);
        }
        let ghost before = self.claims@;
        let mut i: usize = 0;
        while i < self.claims.len() && self.claims[i].stream.raw != stream.raw
            invariant
                i <= self.claims@.len(),
                self.claims@ == before,
                forall|j: int| 0 <= j < i ==> (#[trigger] before[j]).stream != stream,
            decreases self.claims@.len() - i,
        {
            i += 1;
        }
        if i == self.claims.len() {
            return false;
        }
        assert(before[i as int].stream == stream);
        let issued = self.issued;
        let mut claims: Vec<Claim> = Vec::new();
        core::mem::swap(&mut self.claims, &mut claims);
        claims.remove(i);
        proof {
            let after = claims@;
            assert(after == before.remove(i as int));
            assert forall|a: int| 0 <= a < after.len() implies (#[trigger] after[a]) == before[if a
                < i {
                a
            } else {
                a + 1
            }] by {}
            assert forall|a: int, b: int| 0 <= a < b < after.len() implies (#[trigger] after[a]).stream
                != (#[trigger] after[b]).stream && after[a].endpoint != after[b].endpoint by {
                let a0 = if a < i {
                    a
                } else {
                    a + 1
                };
                let b0 = if b < i {
                    b
                } else {
                    b + 1
                };
                assert(after[a] == before[a0] && after[b] == before[b0]);
            }
            assert forall|a: int| 0 <= a < after.len() implies (#[trigger] after[a]).stream
                != stream && after[a].stream.raw < issued by {
                let a0 = if a < i {
                    a
                } else {
                    a + 1
                };
                assert(after[a] == before[a0]);
                assert(before[a0].stream != before[i as int].stream);
            }
        }
        *self = DeviceClaims { claims, issued };
        true
    }
}

/// Replacing a stream leaves its endpoint with exactly one holder: once the
/// old stream is released and a fresh handle has claimed the endpoint, the
/// record is as long as before, no two claims share an endpoint, the fresh
/// stream holds the endpoint and the old one is gone.
pub proof fn law_replacing_a_stream_keeps_one_holder(claims: Seq<Claim>, i: int, fresh: StreamId)
    requires
        exclusive(claims),
        0 <= i < claims.len(),
        !is_live(claims, fresh),
    ensures
        ({
            let gone = claims[i].stream;
            let endpoint = claims[i].endpoint;
            let released = claims.remove(i);
            let replaced = released.push(Claim { stream: fresh, endpoint });
            &&& !is_held(released, endpoint)
            &&& exclusive(replaced)
            &&& replaced.len() == claims.len()
            &&& holds(replaced, fresh, endpoint)
            &&& !is_live(replaced, gone)
            &&& forall|stream: StreamId|
                holds(replaced, stream, endpoint) ==> stream == fresh
        }),
{
    let gone = claims[i].stream;
    let endpoint = claims[i].endpoint;
    let released = claims.remove(i);
    let replaced = released.push(Claim { stream: fresh, endpoint });
    assert forall|a: int| 0 <= a < released.len() implies (#[trigger] released[a]) == claims[if a
        < i {
        a
    } else {
        a + 1
    }] by {}
    assert forall|a: int| 0 <= a < released.len() implies (#[trigger] released[a]).endpoint
        != endpoint && released[a].stream != gone && released[a].stream != fresh by {
        let a0 = if a < i {
            a
        } else {
            a + 1
        };
        assert(released[a] == claims[a0]);
        assert(claims[a0].stream != fresh);
    }
    assert forall|a: int, b: int| 0 <= a < b < replaced.len() implies (#[trigger] replaced[a]).stream
        != (#[trigger] replaced[b]).stream && replaced[a].endpoint != replaced[b].endpoint by {
        assert(replaced[a] == released[a]);
        if b < released.len() {
            assert(replaced[b] == released[b]);
            let a0 = if a < i {
                a
            } else {
                a + 1
            };
            let b0 = if b < i {
                b
            } else {
                b + 1
            };
            assert(released[a] == claims[a0] && released[b] == claims[b0]);
        }
    }
    assert(replaced[replaced.len() - 1] == (Claim { stream: fresh, endpoint }));
    assert forall|a: int| 0 <= a < replaced.len() implies (#[trigger] replaced[a]).stream
        != gone by {
        if a < released.len() {
            assert(replaced[a] == released[a]);
        } else {
            assert(claims[i].stream != fresh);
        }
    }
    assert forall|stream: StreamId| holds(replaced, stream, endpoint) implies stream == fresh by {
        let c = Claim { stream, endpoint };
        let k = choose|k: int| 0 <= k < replaced.len() && replaced[k] == c;
        if k < released.len() {
            assert(replaced[k] == released[k]);
        }
    }
}

} // verus!
