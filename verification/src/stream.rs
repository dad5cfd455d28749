//! The bounded producer/consumer byte buffer behind the streaming archive:
//! the producer's writes are throttled to the free space, the consumer
//! drains in order, and no byte is lost or reordered in between. The buffer
//! never holds more than its fixed capacity, whatever the two sides do.
use vstd::prelude::*;

verus! {

/// A fixed-capacity FIFO byte buffer with one writing side and one reading
/// side.
pub struct BoundedBuffer {
    data: Vec<u8>,
    capacity: usize,
}

impl BoundedBuffer {
    /// The bytes currently buffered, oldest first.
    pub closed spec fn contents(&self) -> Seq<u8> {
        self.data@
    }

    /// The fixed capacity the buffer was created with.
    pub closed spec fn cap(&self) -> int {
        self.capacity as int
    }

    /// The buffer never holds more than its capacity.
    pub open spec fn wf(&self) -> bool {
        self.contents().len() <= self.cap()
    }

    /// An empty buffer of the given capacity.
    pub fn with_capacity(capacity: usize) -> (r: BoundedBuffer)
        ensures
            r.wf(),
            r.cap() == capacity,
            r.contents().len() == 0,
    {
        BoundedBuffer { data: Vec::new(), capacity }
    }

    /// How many bytes are currently buffered.
    pub fn len(&self) -> (r: usize)
        ensures
            r == self.contents().len(),
    {
        self.data.len()
    }

    /// The capacity the buffer was created with.
    pub fn capacity(&self) -> (r: usize)
        ensures
            r == self.cap(),
    {
        self.capacity
    }

    /// Write as much of `input` as fits: exactly the free space bounds what
    /// is accepted, and what is accepted is appended in order. The return
    /// value is how many bytes were taken; a full buffer takes none, which
    /// is the producer's signal to wait for the consumer.
    #[verifier::loop_isolation(false)]
    pub fn write(&mut self, input: &Vec<u8>) -> (n: usize)
        requires
            old(self).wf(),
        ensures
            final(self).wf(),
            final(self).cap() == old(self).cap(),
            n == if input@.len() <= old(self).cap() - old(self).contents().len() {
                input@.len() as int
            } else {
                old(self).cap() - old(self).contents().len()
            },
            final(self).contents() == old(self).contents() + input@.take(n as int),
    {
        let free = self.capacity - self.data.len();
        let k = if input.len() <= free {
            input.len()
        } else {
            free
        };
        let mut i: usize = 0;
        while i < k
            invariant
                i <= k,
                k <= input@.len(),
                self.data@.len() == old(self).contents().len() + i,
                self.capacity == old(self).capacity,
                self.data@ == old(self).contents() + input@.take(i as int),
            decreases k - i,
        {
            self.data.push(input[i]);
            proof {
                assert(self.data@ =~= old(self).contents() + input@.take(i + 1));
            }
            i = i + 1;
        }
        proof {
            assert(self.contents() =~= old(self).contents() + input@.take(k as int));
        }
        k
    }

    /// Read up to `max` bytes: the oldest bytes leave first, exactly in the
    /// order they were written, and the rest stay behind.
    #[verifier::loop_isolation(false)]
    pub fn read_up_to(&mut self, max: usize) -> (out: Vec<u8>)
        requires
            old(self).wf(),
        ensures
            final(self).wf(),
            final(self).cap() == old(self).cap(),
            out@ == old(self).contents().take(
                if max <= old(self).contents().len() {
                    max as int
                } else {
                    old(self).contents().len() as int
                },
            ),
            final(self).contents() == old(self).contents().skip(out@.len() as int),
    {
        let avail = self.data.len();
        let k = if max <= avail {
            max
        } else {
            avail
        };
        let mut out: Vec<u8> = Vec::new();
        let mut i: usize = 0;
        while i < k
            invariant
                i <= k,
                k <= old(self).contents().len(),
                self.data@ == old(self).contents().skip(i as int),
                self.capacity == old(self).capacity,
                out@ == old(self).contents().take(i as int),
            decreases k - i,
        {
            let b = self.data.remove(0);
            out.push(b);
            proof {
                assert(self.data@ =~= old(self).contents().skip(i + 1));
                assert(out@ =~= old(self).contents().take(i + 1));
            }
            i = i + 1;
        }
        out
    }
}

} // verus!
