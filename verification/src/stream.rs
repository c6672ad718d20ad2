//! The exposed device's byte-stream semantics: writes are consumed in the
//! order issued, and a read of `n` bytes yields the next `n` previously
//! written bytes, or fails if fewer are available. This is the generic
//! readable/writable stream contract the device handle obeys; no message
//! framing exists beyond "read back the same bytes in order".

use vstd::prelude::*;

verus! {

/// A device handle with byte-stream semantics: the bytes written so far and
/// how many of them have already been read back.
pub struct DeviceStream {
    written: Vec<u8>,
    read_pos: usize,
}

impl DeviceStream {
    /// Every byte written to the stream so far, in the order issued.
    pub closed spec fn written_bytes(self) -> Seq<u8> {
        self.written@
    }

    /// How many written bytes have already been read back.
    pub closed spec fn read_count(self) -> int {
        self.read_pos as int
    }

    /// The stream never reads past what was written.
    pub open spec fn wf(self) -> bool {
        0 <= self.read_count() <= self.written_bytes().len()
    }

    /// The bytes written but not yet read back, in order.
    pub open spec fn pending(self) -> Seq<u8> {
        self.written_bytes().skip(self.read_count())
    }

    /// Whether every written byte has been read back.
    pub open spec fn drained(self) -> bool {
        self.pending().len() == 0
    }

    /// Opens a fresh handle: nothing written, nothing pending.
    pub fn open() -> (s: DeviceStream)
        ensures
            s.wf(),
            s.written_bytes() == Seq::<u8>::empty(),
            s.read_count() == 0,
            s.drained(),
    {
        let s = DeviceStream { written: Vec::new(), read_pos: 0 };
        proof {
            assert(s.pending() =~= Seq::<u8>::empty());
        }
        s
    }

    /// Writes the full buffer: the bytes join the stream after everything
    /// written before, and nothing already read back changes.
    pub fn write_all(&mut self, data: &Vec<u8>)
        requires
            old(self).wf(),
        ensures
            final(self).wf(),
            final(self).written_bytes() == old(self).written_bytes() + data@,
            final(self).read_count() == old(self).read_count(),
            final(self).pending() == old(self).pending() + data@,
    {
        let mut i: usize = 0;
        let n: usize = data.len();
        while i < n
            invariant
                i <= n,
                n == data@.len(),
                self.read_pos == old(self).read_pos,
                self.written@ == old(self).written@ + data@.take(i as int),
            decreases n - i,
        {
            self.written.push(data[i]);
            proof {
                assert(self.written@ =~= old(self).written@ + data@.take(i + 1));
            }
            i = i + 1;
        }
        proof {
            assert(self.written@ =~= old(self).written@ + data@);
            assert(self.pending() =~= old(self).pending() + data@);
        }
    }

    /// Reads back exactly the next `n` bytes. If fewer than `n` bytes are
    /// pending the read fails and the stream is left unchanged, never
    /// silently truncated.
    pub fn read_exact(&mut self, n: usize) -> (r: Option<Vec<u8>>)
        requires
            old(self).wf(),
        ensures
            final(self).wf(),
            final(self).written_bytes() == old(self).written_bytes(),
            old(self).pending().len() >= n ==> (r matches Some(v)
                && v@ == old(self).pending().take(n as int)
                && final(self).read_count() == old(self).read_count() + n
                && final(self).pending() == old(self).pending().skip(n as int)),
            old(self).pending().len() < n ==> r is None && *final(self) == *old(self),
    {
        let available: usize = self.written.len() - self.read_pos;
        if available < n {
            return None;
        }
        let mut v: Vec<u8> = Vec::new();
        let mut i: usize = 0;
        while i < n
            invariant
                i <= n,
                old(self).wf(),
                n <= old(self).pending().len(),
                *self == *old(self),
                self.read_pos + n <= self.written@.len(),
                self.written@.len() <= usize::MAX,
                v@ == old(self).pending().take(i as int),
            decreases n - i,
        {
            v.push(self.written[self.read_pos + i]);
            proof {
                assert(v@ =~= old(self).pending().take(i + 1));
            }
            i = i + 1;
        }
        self.read_pos = self.read_pos + n;
        proof {
            assert(self.pending() =~= old(self).pending().skip(n as int));
        }
        Some(v)
    }

    /// Reads the stream to completion: yields every pending byte in order
    /// and leaves the stream drained.
    pub fn read_to_end(&mut self) -> (r: Vec<u8>)
        requires
            old(self).wf(),
        ensures
            final(self).wf(),
            final(self).written_bytes() == old(self).written_bytes(),
            r@ == old(self).pending(),
            final(self).drained(),
    {
        let n: usize = self.written.len() - self.read_pos;
        let mut v: Vec<u8> = Vec::new();
        let mut i: usize = 0;
        while i < n
            invariant
                i <= n,
                old(self).wf(),
                n == old(self).pending().len(),
                *self == *old(self),
                self.read_pos + n <= self.written@.len(),
                self.written@.len() <= usize::MAX,
                v@ == old(self).pending().take(i as int),
            decreases n - i,
        {
            v.push(self.written[self.read_pos + i]);
            proof {
                assert(v@ =~= old(self).pending().take(i + 1));
            }
            i = i + 1;
        }
        self.read_pos = self.read_pos + n;
        proof {
            assert(v@ =~= old(self).pending());
            assert(self.pending() =~= Seq::<u8>::empty());
        }
        v
    }
}

} // verus!
