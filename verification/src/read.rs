//! The poll-style read capability: the shape of single-step resumption that
//! an erased handle must expose to whatever driver resumes it. A call either
//! reports that nothing is ready yet, or finishes with a count of bytes
//! delivered, or with the reader's error.

use vstd::prelude::*;
use crate::progress::Progress;

verus! {

/// Why a reader refused to deliver bytes.
#[derive(Clone, Copy, PartialEq, Eq, Structural, Debug)]
pub enum ReadError {
    /// The reader was closed before the call.
    Closed,
}

/// A source of bytes polled one step at a time: each call appends whatever
/// is ready to `buf` and reports how many bytes it delivered, or that the
/// caller should poll again.
pub trait Read {
    /// One resumption step of the read.
    fn poll_read(&mut self, buf: &mut Vec<u8>) -> Progress<Result<usize, ReadError>>;
}

/// A reader over bytes already in memory: delivers everything it still
/// holds in one step, and fails once closed.
pub struct MemReader {
    data: Vec<u8>,
    pos: usize,
    closed: bool,
}

impl MemReader {
    /// The bytes the reader serves.
    pub closed spec fn spec_data(self) -> Seq<u8> {
        self.data@
    }

    /// How many of them have been delivered already.
    pub closed spec fn spec_pos(self) -> nat {
        self.pos as nat
    }

    /// Whether the reader has been closed.
    pub closed spec fn spec_closed(self) -> bool {
        self.closed
    }

    /// The reader's invariant: it has not delivered past its data.
    pub open spec fn wf(self) -> bool {
        self.spec_pos() <= self.spec_data().len()
    }

    /// A fresh, open reader over `data`, nothing delivered yet.
    pub fn new(data: Vec<u8>) -> (r: MemReader)
        ensures
            r.wf(),
            r.spec_data() == data@,
            r.spec_pos() == 0,
            !r.spec_closed(),
    {
        MemReader { data, pos: 0, closed: false }
    }

    /// Closes the reader: every later step fails.
    pub fn close(&mut self)
        ensures
            final(self).spec_data() == old(self).spec_data(),
            final(self).spec_pos() == old(self).spec_pos(),
            final(self).spec_closed(),
            old(self).wf() ==> final(self).wf(),
    {
        self.closed = true;
    }

    /// One read step: a closed reader fails and changes nothing; an open
    /// one appends every byte it still holds to `buf` and finishes with the
    /// count delivered.
    pub fn read_step(&mut self, buf: &mut Vec<u8>) -> (r: Progress<Result<usize, ReadError>>)
        requires
            old(self).wf(),
            old(buf)@.len() + old(self).spec_data().len() <= usize::MAX,
        ensures
            final(self).wf(),
            final(self).spec_data() == old(self).spec_data(),
            final(self).spec_closed() == old(self).spec_closed(),
            old(self).spec_closed() ==> {
                &&& r == Progress::Ready(Result::<usize, ReadError>::Err(ReadError::Closed))
                &&& final(self).spec_pos() == old(self).spec_pos()
                &&& final(buf)@ == old(buf)@
            },
            !old(self).spec_closed() ==> {
                &&& final(self).spec_pos() == old(self).spec_data().len()
                &&& final(buf)@ == old(buf)@ + old(self).spec_data().subrange(
                    old(self).spec_pos() as int,
                    old(self).spec_data().len() as int,
                )
                &&& r == Progress::Ready(Result::<usize, ReadError>::Ok(
                    (old(self).spec_data().len() - old(self).spec_pos()) as usize,
                ))
            },
    {
        if self.closed {
            return Progress::Ready(Err(ReadError::Closed));
        }
        let n = self.data.len() - self.pos;
        let ghost start = self.pos as nat;
        while self.pos < self.data.len()
            invariant
                start <= self.pos as nat <= self.data@.len(),
                self.data@ == old(self).spec_data(),
                self.closed == old(self).spec_closed(),
                buf@ == old(buf)@ + self.data@.subrange(start as int, self.pos as int),
                buf@.len() <= usize::MAX,
                old(buf)@.len() + self.data@.len() <= usize::MAX,
            decreases self.data@.len() - self.pos as nat,
        {
            let b = self.data[self.pos];
            buf.push(b);
            self.pos = self.pos + 1;
            proof {
                assert(self.data@.subrange(start as int, self.pos as int) == self.data@.subrange(
                    start as int,
                    self.pos as int - 1,
                ).push(b));
            }
        }
        Progress::Ready(Ok(n))
    }
}

impl Read for MemReader {
    fn poll_read(&mut self, buf: &mut Vec<u8>) -> Progress<Result<usize, ReadError>> {
        if self.pos > self.data.len() {
            // An ill-formed reader delivers nothing rather than read past
            // its data.
            return Progress::Ready(Err(ReadError::Closed));
        }
        if buf.len() > usize::MAX - self.data.len() {
            return Progress::Ready(Err(ReadError::Closed));
        }
        self.read_step(buf)
    }
}

} // verus!
