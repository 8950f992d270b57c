use vstd::prelude::*;

use crate::error::BatchError;
use crate::plan::PartDescriptor;

verus! {

/// What the fetch of one part does after a read.
#[derive(Debug)]
pub enum ReadStatus {
    /// Read again into the unfilled rest of the destination.
    Pending,
    /// The destination holds all expected bytes.
    Complete,
    /// The part failed; the batch fails with this error.
    Failed(BatchError),
}

/// Progress of the streamed read of one part into its destination slice.
pub struct PartFetch {
    part: PartDescriptor,
    received: usize,
}

/// The error for a stream of `part` that ended after `received` bytes.
pub open spec fn short_read_of(part: PartDescriptor, received: nat) -> BatchError {
    BatchError::ShortRead {
        key: part.key,
        range_start: part.range_start,
        range_end: part.range_end,
        received: received as usize,
        expected: part.expected_length,
    }
}

impl PartFetch {
    pub closed spec fn spec_part(&self) -> PartDescriptor {
        self.part
    }

    pub closed spec fn spec_received(&self) -> nat {
        self.received as nat
    }

    /// Never more bytes received than expected.
    pub open spec fn wf(&self) -> bool {
        self.spec_received() <= self.spec_part().expected_length
    }

    /// Starts the fetch of `part` with nothing received.
    pub fn new(part: PartDescriptor) -> (r: PartFetch)
        ensures
            r.wf(),
            r.spec_part() == part,
            r.spec_received() == 0,
    {
        PartFetch { part, received: 0 }
    }

    /// The part being fetched.
    pub fn part(&self) -> (r: &PartDescriptor)
        ensures
            *r == self.spec_part(),
    {
        &self.part
    }

    /// Bytes received so far: the offset in the destination of the next read.
    pub fn received(&self) -> (r: usize)
        ensures
            r == self.spec_received(),
    {
        self.received
    }

    /// Bytes still owed by the stream.
    pub fn remaining(&self) -> (r: usize)
        requires
            self.wf(),
        ensures
            r == self.spec_part().expected_length - self.spec_received(),
    {
        self.part.expected_length - self.received
    }

    /// Takes the count of one read into the unfilled rest of the destination.
    /// A read of zero bytes ends the stream: the part is complete if every
    /// expected byte came, and fails with a short read otherwise.
    pub fn on_read(&mut self, n: usize) -> (r: ReadStatus)
        requires
            old(self).wf(),
            n <= old(self).spec_part().expected_length - old(self).spec_received(),
        ensures
            final(self).wf(),
            final(self).spec_part() == old(self).spec_part(),
            final(self).spec_received() == old(self).spec_received() + n,
            n > 0 && final(self).spec_received() < final(self).spec_part().expected_length
                ==> r is Pending,
            final(self).spec_received() == final(self).spec_part().expected_length ==> r is Complete,
            n == 0 && old(self).spec_received() < old(self).spec_part().expected_length ==> r
                == ReadStatus::Failed(short_read_of(old(self).spec_part(), old(self).spec_received())),
    {
        self.received = self.received + n;
        if self.received == self.part.expected_length {
            ReadStatus::Complete
        } else if n > 0 {
            ReadStatus::Pending
        } else {
            ReadStatus::Failed(BatchError::ShortRead {
                key: self.part.key.clone(),
                range_start: self.part.range_start,
                range_end: self.part.range_end,
                received: self.received,
                expected: self.part.expected_length,
            })
        }
    }

    /// The error for a ranged read of this part that the store failed.
    pub fn transport_error(&self, message: String) -> (r: BatchError)
        ensures
            r == (BatchError::Transport {
                key: self.spec_part().key,
                range_start: self.spec_part().range_start,
                range_end: self.spec_part().range_end,
                message,
            }),
    {
        BatchError::Transport {
            key: self.part.key.clone(),
            range_start: self.part.range_start,
            range_end: self.part.range_end,
            message,
        }
    }
}

} // verus!
