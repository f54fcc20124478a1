use vstd::prelude::*;

use crate::stream::Channel;

verus! {

/// An in-memory channel that hands its readers, in order, the bytes its
/// writers gave it: one end of a connection talking to itself.
pub struct Loopback {
    data: Vec<u8>,
    pos: usize,
}

impl Loopback {
    /// How many of the bytes written have been read back.
    pub closed spec fn consumed(&self) -> int {
        if self.pos <= self.data@.len() { self.pos as int } else { self.data@.len() as int }
    }

    /// Every byte written so far, in order.
    pub closed spec fn written(&self) -> Seq<u8> {
        self.data@
    }

    /// The bytes read back so far, in order.
    pub closed spec fn read_back(&self) -> Seq<u8> {
        self.data@.subrange(0, self.consumed())
    }

    pub fn new() -> (r: Self)
        ensures
            r.written() == Seq::<u8>::empty(),
            r.read_back() == Seq::<u8>::empty(),
    {
        Loopback { data: Vec::new(), pos: 0 }
    }

    /// The number of bytes written and not yet read.
    pub fn pending(&self) -> (r: usize)
        ensures
            r == self.written().len() - self.read_back().len(),
    {
        if self.pos <= self.data.len() { self.data.len() - self.pos } else { 0 }
    }
}

impl<X> Channel<X> for Loopback {
    open spec fn sent(&self) -> Seq<u8> {
        self.written()
    }

    open spec fn received(&self) -> Seq<u8> {
        self.read_back()
    }

    fn read(&mut self, buf: &mut [u8]) -> (r: Result<usize, X>) {
        let len = self.data.len();
        let start = if self.pos <= len { self.pos } else { len };
        let avail = len - start;
        let n: usize = if buf.len() < avail { buf.len() } else { avail };
        let ghost old_buf = buf@;
        let mut i: usize = 0;
        while i < n
            invariant
                i <= n,
                n <= buf@.len(),
                start + n <= self.data@.len(),
                self.data@.len() == len,
                buf@.len() == old_buf.len(),
                forall|j: int| 0 <= j < i ==> buf@[j] == self.data@[start + j],
            decreases n - i,
        {
            buf[i] = self.data[start + i];
            i = i + 1;
        }
        self.pos = start + n;
        assert(buf@.subrange(0, n as int) =~= self.data@.subrange(start as int, (start + n) as int));
        assert(self.data@.subrange(0, (start + n) as int)
            =~= self.data@.subrange(0, start as int) + self.data@.subrange(start as int, (start + n) as int));
        Ok(n)
    }

    fn write(&mut self, buf: &[u8]) -> (r: Result<usize, X>) {
        if self.pos > self.data.len() {
            self.pos = self.data.len();
        }
        let ghost old_data = self.data@;
        let ghost pos = self.pos;
        assert(self.data@.subrange(0, self.consumed()) == old(self).data@.subrange(0, old(self).consumed()));
        let mut i: usize = 0;
        while i < buf.len()
            invariant
                i <= buf@.len(),
                self.data@ == old_data + buf@.subrange(0, i as int),
                self.pos == pos,
                pos <= old_data.len(),
            decreases buf@.len() - i,
        {
            self.data.push(buf[i]);
            i = i + 1;
            assert(self.data@ =~= old_data + buf@.subrange(0, i as int));
        }
        assert(self.data@.subrange(0, pos as int) =~= old_data.subrange(0, pos as int));
        Ok(buf.len())
    }

    fn flush(&mut self) -> (r: Result<(), X>) {
        Ok(())
    }
}

/// What comes out of a loopback is, in order, a front part of what went in.
pub proof fn lemma_loopback_in_order(l: Loopback)
    ensures
        l.read_back().is_prefix_of(l.written()),
{
    assert(l.read_back() =~= l.written().subrange(0, l.consumed()));
}

} // verus!
