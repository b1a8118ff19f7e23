use vstd::prelude::*;

verus! {

/// The contents after appending each byte of `bs` in turn to `rx`, where a byte
/// that finds the buffer (of `cap` bytes) full is refused.
pub open spec fn after_writes(rx: Seq<u8>, bs: Seq<u8>, cap: nat) -> Seq<u8>
    decreases bs.len(),
{
    if bs.len() == 0 {
        rx
    } else {
        let prev = after_writes(rx, bs.drop_last(), cap);
        if prev.len() < cap {
            prev.push(bs.last())
        } else {
            prev
        }
    }
}

/// Bytes appended while there is room are all kept, in append order, so that a
/// following `read` hands them out in that order.
pub proof fn lemma_appends_read_in_order(rx: Seq<u8>, bs: Seq<u8>, cap: nat)
    requires
        rx.len() + bs.len() <= cap,
    ensures
        after_writes(rx, bs, cap) == rx + bs,
    decreases bs.len(),
{
    if bs.len() > 0 {
        lemma_appends_read_in_order(rx, bs.drop_last(), cap);
        assert((rx + bs.drop_last()).push(bs.last()) =~= rx + bs);
    } else {
        assert(rx + bs =~= rx);
    }
}

/// Append-only staging area for bytes received from the bus master.
pub struct ReceiveBuffer<const BUFSIZE: usize> {
    buf: [u8; BUFSIZE],
    size: usize,
}

impl<const BUFSIZE: usize> View for ReceiveBuffer<BUFSIZE> {
    type V = Seq<u8>;

    /// The bytes received since the last reset, oldest first.
    closed spec fn view(&self) -> Seq<u8> {
        self.buf@.subrange(0, self.size as int)
    }
}

impl<const BUFSIZE: usize> ReceiveBuffer<BUFSIZE> {
    pub closed spec fn wf(&self) -> bool {
        self.size <= BUFSIZE
    }

    pub fn new() -> (r: Self)
        ensures
            r.wf(),
            r@ == Seq::<u8>::empty(),
    {
        let r = ReceiveBuffer { buf: [0u8; BUFSIZE], size: 0 };
        assert(r@ =~= Seq::<u8>::empty());
        r
    }

    /// Appends one byte; fails, leaving the buffer as it was, when it is full.
    pub fn write_byte(&mut self, byte: u8) -> (r: Result<(), ()>)
        requires
            old(self).wf(),
        ensures
            final(self).wf(),
            old(self)@.len() >= BUFSIZE ==> r is Err && final(self)@ == old(self)@,
            old(self)@.len() < BUFSIZE ==> r is Ok && final(self)@ == old(self)@.push(byte),
    {
        if self.size == BUFSIZE {
            Err(())
        } else {
            self.buf[self.size] = byte;
            self.size = self.size + 1;
            assert(self@ =~= old(self)@.push(byte));
            Ok(())
        }
    }

    pub fn get_size(&self) -> (r: usize)
        requires
            self.wf(),
        ensures
            r == self@.len(),
    {
        self.size
    }

    /// Copies every pending byte to the front of `dst` and returns how many there
    /// were; when `dst` is too short it is left untouched and the count comes
    /// back as the error.
    pub fn read(&self, dst: &mut [u8]) -> (r: Result<usize, usize>)
        requires
            self.wf(),
        ensures
            old(dst)@.len() >= self@.len() ==> r == Ok::<usize, usize>(self@.len() as usize)
                && final(dst)@ == self@ + old(dst)@.subrange(self@.len() as int, old(dst)@.len() as int),
            old(dst)@.len() < self@.len() ==> r == Err::<usize, usize>(self@.len() as usize)
                && final(dst)@ == old(dst)@,
    {
        let size = self.size;
        if dst.len() < size {
            return Err(size);
        }
        let mut i: usize = 0;
        while i < size
            invariant
                size == self@.len(),
                size <= BUFSIZE,
                self.buf@.len() == BUFSIZE,
                i <= size,
                size <= dst@.len(),
                dst@.len() == old(dst)@.len(),
                forall|k: int| 0 <= k < i ==> dst@[k] == self.buf@[k],
                forall|k: int| size <= k < dst@.len() ==> dst@[k] == old(dst)@[k],
            decreases size - i,
        {
            dst[i] = self.buf[i];
            i = i + 1;
        }
        assert(dst@ =~= self@ + old(dst)@.subrange(size as int, old(dst)@.len() as int));
        Ok(size)
    }

    pub fn reset(&mut self)
        requires
            old(self).wf(),
        ensures
            final(self).wf(),
            final(self)@ == Seq::<u8>::empty(),
    {
        self.size = 0;
        assert(self@ =~= Seq::<u8>::empty());
    }
}

} // verus!
