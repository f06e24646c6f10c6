//! Buffering of serial packets, so that reads need not line up with packet boundaries.
use vstd::prelude::*;

verus! {

/// The bytes of one received packet that have not been read yet.
pub struct SerialBuffer {
    buffer: Vec<u8>,
    skip: usize,
    length: usize,
}

impl SerialBuffer {
    pub closed spec fn wf(&self) -> bool {
        self.skip + self.length <= self.buffer@.len()
    }

    /// The bytes not read yet.
    pub closed spec fn pending(&self) -> Seq<u8> {
        self.buffer@.subrange(self.skip as int, self.skip + self.length)
    }

    /// The size of a packet.
    pub closed spec fn capacity(&self) -> nat {
        self.buffer@.len()
    }

    /// An empty buffer for packets of `size` bytes.
    pub fn new(size: usize) -> (r: SerialBuffer)
        ensures
            r.wf(),
            r.pending().len() == 0,
            r.capacity() == size,
    {
        let mut buffer: Vec<u8> = Vec::new();
        let mut i: usize = 0;
        while i < size
            invariant
                i <= size,
                buffer@.len() == i,
            decreases size - i,
        {
            buffer.push(0);
            i = i + 1;
        }
        let r = SerialBuffer { buffer, skip: 0, length: 0 };
        proof {
            assert(r.pending() =~= Seq::<u8>::empty());
        }
        r
    }

    /// Replaces the content with the packet `packet`.
    pub fn load(&mut self, packet: &[u8])
        requires
            old(self).wf(),
            packet@.len() <= old(self).capacity(),
        ensures
            final(self).wf(),
            final(self).capacity() == old(self).capacity(),
            final(self).pending() == packet@,
    {
        let mut i: usize = 0;
        while i < packet.len()
            invariant
                i <= packet@.len(),
                packet@.len() <= self.buffer@.len(),
                self.buffer@.len() == old(self).buffer@.len(),
                forall|j: int| 0 <= j < i ==> self.buffer@[j] == packet@[j],
            decreases packet.len() - i,
        {
            self.buffer.set(i, packet[i]);
            i = i + 1;
        }
        self.skip = 0;
        self.length = packet.len();
        proof {
            assert(self.pending() =~= packet@);
        }
    }

    /// Moves as many pending bytes as fit to the front of `to_fill`; returns how many.
    pub fn read_up_to(&mut self, to_fill: &mut Vec<u8>) -> (r: usize)
        requires
            old(self).wf(),
        ensures
            final(self).wf(),
            final(self).capacity() == old(self).capacity(),
            r == if old(self).pending().len() < old(to_fill)@.len() {
                old(self).pending().len()
            } else {
                old(to_fill)@.len()
            },
            final(to_fill)@ == old(self).pending().take(r as int) + old(to_fill)@.skip(r as int),
            final(self).pending() == old(self).pending().skip(r as int),
    {
        let bytes_to_copy = if self.length < to_fill.len() {
            self.length
        } else {
            to_fill.len()
        };
        let ghost p = self.pending();
        let blen = self.buffer.len();
        let mut i: usize = 0;
        while i < bytes_to_copy
            invariant
                blen == self.buffer@.len(),
                i <= bytes_to_copy,
                bytes_to_copy <= self.length,
                bytes_to_copy <= to_fill@.len(),
                to_fill@.len() == old(to_fill)@.len(),
                *self == *old(self),
                self.wf(),
                p == self.pending(),
                forall|j: int| 0 <= j < i ==> to_fill@[j] == p[j],
                forall|j: int| i <= j < to_fill@.len() ==> to_fill@[j] == old(to_fill)@[j],
            decreases bytes_to_copy - i,
        {
            let b = self.buffer[self.skip + i];
            to_fill.set(i, b);
            i = i + 1;
        }
        proof {
            assert(self.skip + bytes_to_copy <= blen);
        }
        self.skip = self.skip + bytes_to_copy;
        self.length = self.length - bytes_to_copy;
        proof {
            assert(to_fill@ =~= p.take(bytes_to_copy as int) + old(to_fill)@.skip(
                bytes_to_copy as int,
            ));
            assert(self.pending() =~= p.skip(bytes_to_copy as int));
        }
        bytes_to_copy
    }

    /// Forgets the pending bytes.
    pub fn drop(&mut self)
        requires
            old(self).wf(),
        ensures
            final(self).wf(),
            final(self).capacity() == old(self).capacity(),
            final(self).pending().len() == 0,
    {
        self.skip = 0;
        self.length = 0;
        proof {
            assert(self.pending() =~= Seq::<u8>::empty());
        }
    }

    /// The number of pending bytes.
    pub fn len(&self) -> (r: usize)
        requires
            self.wf(),
        ensures
            r == self.pending().len(),
    {
        self.length
    }
}

/// A reader over packets of a fixed size: reads take from the current packet first.
pub struct BufferedReader {
    pub buffer: SerialBuffer,
}

impl BufferedReader {
    /// A reader for packets of `packet_size` bytes, with nothing buffered.
    pub fn new(packet_size: usize) -> (r: BufferedReader)
        ensures
            r.buffer.wf(),
            r.buffer.pending().len() == 0,
            r.buffer.capacity() == packet_size,
    {
        BufferedReader { buffer: SerialBuffer::new(packet_size) }
    }
}

} // verus!
