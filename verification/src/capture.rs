//! The buffer that the output of a child process is captured in.
//!
//! A buffer takes in no more than its cap. What arrives beyond the cap is
//! dropped, and the buffer says that it was.

use vstd::prelude::*;

verus! {

/// The cap of a buffer unless another one is asked for: 16 MiB.
pub const DEFAULT_CAPTURE_CAP: usize = 16777216;

/// What has been captured of one stream of a child process.
#[derive(Debug)]
pub struct CaptureBuffer {
    data: Vec<u8>,
    cap: usize,
    truncated: bool,
}

/// The mathematical content of a [`CaptureBuffer`].
pub struct CaptureBufferView {
    /// What was captured, in the order of arrival.
    pub data: Seq<u8>,
    /// The greatest number of bytes that the buffer takes in.
    pub cap: nat,
    /// True if bytes were dropped.
    pub truncated: bool,
}

impl CaptureBufferView {
    /// How many of `count` bytes that arrive the buffer takes in.
    pub open spec fn room_for(self, count: nat) -> nat {
        if self.data.len() + count <= self.cap {
            count
        } else {
            (self.cap - self.data.len()) as nat
        }
    }

    /// The buffer after `chunk` arrived: it takes in as much of the chunk as
    /// is within the cap, and drops the rest.
    pub open spec fn appended(self, chunk: Seq<u8>) -> CaptureBufferView {
        CaptureBufferView {
            data: self.data + chunk.take(self.room_for(chunk.len()) as int),
            cap: self.cap,
            truncated: self.truncated || self.room_for(chunk.len()) < chunk.len(),
        }
    }
}

impl View for CaptureBuffer {
    type V = CaptureBufferView;

    closed spec fn view(&self) -> CaptureBufferView {
        CaptureBufferView { data: self.data@, cap: self.cap as nat, truncated: self.truncated }
    }
}

impl CaptureBuffer {
    #[verifier::type_invariant]
    spec fn within_cap(&self) -> bool {
        self.data@.len() <= self.cap
    }

    /// An empty buffer that takes in up to `cap` bytes.
    pub fn new(cap: usize) -> (buffer: Self)
        ensures
            buffer@ == (CaptureBufferView {
                data: Seq::empty(),
                cap: cap as nat,
                truncated: false,
            }),
    {
        CaptureBuffer { data: Vec::new(), cap, truncated: false }
    }

    /// The number of bytes captured, which is no more than the cap.
    pub fn len(&self) -> (count: usize)
        ensures
            count == self@.data.len(),
            count <= self@.cap,
    {
        proof {
            use_type_invariant(self);
        }
        self.data.len()
    }

    /// The greatest number of bytes that the buffer takes in.
    pub fn cap(&self) -> (cap: usize)
        ensures
            cap == self@.cap,
    {
        self.cap
    }

    /// Returns true if bytes were dropped because the cap was reached.
    pub fn is_truncated(&self) -> (truncated: bool)
        ensures
            truncated == self@.truncated,
    {
        self.truncated
    }

    /// Takes in `chunk`, as far as the cap allows, and returns the number of
    /// bytes taken in.
    pub fn append(&mut self, chunk: &[u8]) -> (taken: usize)
        ensures
            final(self)@ == old(self)@.appended(chunk@),
            taken == old(self)@.room_for(chunk@.len()),
            final(self)@.data.len() <= final(self)@.cap,
    {
        proof {
            use_type_invariant(&*self);
        }
        let ghost before = self.data@;
        let room = self.cap - self.data.len();
        let taken = if chunk.len() <= room {
            chunk.len()
        } else {
            room
        };
        let mut data: Vec<u8> = Vec::new();
        std::mem::swap(&mut self.data, &mut data);
        let mut at: usize = 0;
        while at < taken
            invariant
                at <= taken <= chunk@.len(),
                data@ =~= before + chunk@.take(at as int),
            decreases taken - at,
        {
            data.push(chunk[at]);
            at = at + 1;
        }
        let truncated = self.truncated || taken < chunk.len();
        *self = CaptureBuffer { data, cap: self.cap, truncated };
        taken
    }

    /// Hands over what was captured.
    pub fn into_bytes(self) -> (data: Vec<u8>)
        ensures
            data@ == self@.data,
    {
        self.data
    }
}

} // verus!
