//! Incremental collection of a request body under the fixed 128 MiB
//! ceiling. The HTTP layer feeds chunks in arrival order; the collector
//! accumulates them and fails fast as soon as the declared or observed
//! size would exceed the ceiling, so an oversized request is rejected
//! before the routing script ever sees it.
use vstd::prelude::*;

use crate::MAX_BODY_SIZE;

verus! {

/// A per-request failure of the admission path before any routing
/// decision: the body is over the ceiling, or the content type does not
/// parse.
#[derive(Debug, Clone, PartialEq)]
pub enum AdmissionError {
    BodyTooLarge,
    MimeParse(String),
}

/// Accumulates the chunks of one request body, in order, never holding
/// more than `MAX_BODY_SIZE` bytes.
pub struct BodyCollector {
    collected: Vec<u8>,
}

impl BodyCollector {
    /// The bytes collected so far.
    pub closed spec fn bytes(self) -> Seq<u8> {
        self.collected@
    }

    /// The collector never holds more than the ceiling.
    pub closed spec fn wf(self) -> bool {
        self.collected@.len() <= MAX_BODY_SIZE
    }

    /// Starts collecting a body whose transport declares at least
    /// `size_hint` bytes; a declared size already over the ceiling is
    /// rejected before any byte is read.
    pub fn start(size_hint: usize) -> (r: Result<BodyCollector, AdmissionError>)
        ensures
            size_hint <= MAX_BODY_SIZE <==> r is Ok,
            size_hint > MAX_BODY_SIZE <==> (r matches Err(e) && e == AdmissionError::BodyTooLarge),
            r matches Ok(c) ==> c.wf() && c.bytes() == Seq::<u8>::empty(),
    {
        if size_hint > MAX_BODY_SIZE {
            Err(AdmissionError::BodyTooLarge)
        } else {
            Ok(BodyCollector { collected: Vec::new() })
        }
    }

    /// Appends one chunk. The chunk is taken whole when it still fits
    /// under the ceiling; otherwise nothing is taken and the body is
    /// rejected as too large.
    pub fn push_chunk(&mut self, chunk: &[u8]) -> (r: Result<(), AdmissionError>)
        requires
            old(self).wf(),
        ensures
            final(self).wf(),
            old(self).bytes().len() + chunk@.len() <= MAX_BODY_SIZE <==> r is Ok,
            r is Ok ==> final(self).bytes() == old(self).bytes() + chunk@,
            r matches Err(e) ==> e == AdmissionError::BodyTooLarge && final(self).bytes() == old(
                self,
            ).bytes(),
    {
        if chunk.len() > MAX_BODY_SIZE - self.collected.len() {
            Err(AdmissionError::BodyTooLarge)
        } else {
            let mut i: usize = 0;
            let ghost start = self.collected@;
            while i < chunk.len()
                invariant
                    i <= chunk@.len(),
                    start.len() + chunk@.len() <= MAX_BODY_SIZE,
                    self.collected@ == start + chunk@.subrange(0, i as int),
                decreases chunk@.len() - i,
            {
                self.collected.push(chunk[i]);
                i = i + 1;
                proof {
                    assert(self.collected@ =~= start + chunk@.subrange(0, i as int));
                }
            }
            proof {
                assert(self.collected@ =~= start + chunk@);
            }
            Ok(())
        }
    }

    /// Hands the collected body over, once the transport has no more
    /// chunks.
    pub fn finish(self) -> (r: Vec<u8>)
        requires
            self.wf(),
        ensures
            r@ == self.bytes(),
            r@.len() <= MAX_BODY_SIZE,
    {
        self.collected
    }
}

} // verus!
