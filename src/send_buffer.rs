use vstd::prelude::*;

verus! {

/// The number of bytes of `src` that fit into a buffer of `cap` bytes.
pub open spec fn taken(src: Seq<u8>, cap: nat) -> nat {
    if src.len() <= cap { src.len() } else { cap }
}

/// Staging area for one block of bytes that the interrupt handler drains to the
/// bus, one byte at a time.
pub struct SendBuffer<const BUFSIZE: usize> {
    buf: [u8; BUFSIZE],
    pos: usize,
    end: usize,
}

impl<const BUFSIZE: usize> SendBuffer<BUFSIZE> {
    pub closed spec fn wf(&self) -> bool {
        &&& self.pos <= self.end
        &&& self.end <= BUFSIZE
    }

    /// The bytes still to be transmitted, in order.
    pub closed spec fn pending(&self) -> Seq<u8> {
        self.buf@.subrange(self.pos as int, self.end as int)
    }

    /// How many bytes of the current block have been handed out.
    pub closed spec fn sent(&self) -> nat {
        self.pos as nat
    }

    pub fn new() -> (r: Self)
        ensures
            r.wf(),
            r.pending() == Seq::<u8>::empty(),
            r.sent() == 0,
    {
        let r = SendBuffer { buf: [0u8; BUFSIZE], pos: 0, end: 0 };
        assert(r.pending() =~= Seq::<u8>::empty());
        r
    }

    /// Loads as much of `src` as fits into the (empty) buffer and returns the tail
    /// that did not fit.
    pub fn write<'a>(&mut self, src: &'a [u8]) -> (r: &'a [u8])
        requires
            old(self).wf(),
            old(self).pending().len() == 0,
        ensures
            final(self).wf(),
            final(self).pending() == src@.subrange(0, taken(src@, BUFSIZE as nat) as int),
            final(self).sent() == 0,
            r@ == src@.subrange(taken(src@, BUFSIZE as nat) as int, src@.len() as int),
    {
        let take: usize = if src.len() <= BUFSIZE { src.len() } else { BUFSIZE };
        let mut i: usize = 0;
        while i < take
            invariant
                take <= src@.len(),
                take <= BUFSIZE,
                self.buf@.len() == BUFSIZE,
                i <= take,
                forall|k: int| 0 <= k < i ==> self.buf@[k] == src@[k],
            decreases take - i,
        {
            self.buf[i] = src[i];
            i = i + 1;
        }
        self.pos = 0;
        self.end = take;
        assert(self.pending() =~= src@.subrange(0, take as int));
        let (_, rest) = src.split_at(take);
        rest
    }

    /// Drops whatever is left and starts over with an empty buffer.
    pub fn reset(&mut self)
        requires
            old(self).wf(),
        ensures
            final(self).wf(),
            final(self).pending() == Seq::<u8>::empty(),
            final(self).sent() == 0,
    {
        self.pos = 0;
        self.end = 0;
        assert(self.pending() =~= Seq::<u8>::empty());
    }

    pub fn bytes_sent(&self) -> (r: usize)
        requires
            self.wf(),
        ensures
            r == self.sent(),
    {
        self.pos
    }

    pub fn is_empty(&self) -> (r: bool)
        requires
            self.wf(),
        ensures
            r == (self.pending().len() == 0),
    {
        self.pos == self.end
    }

    /// Hands out the next pending byte, if there is one.
    pub fn next(&mut self) -> (r: Option<u8>)
        requires
            old(self).wf(),
        ensures
            final(self).wf(),
            old(self).pending().len() == 0 ==> r is None && *final(self) == *old(self),
            old(self).pending().len() > 0 ==> r == Some(old(self).pending()[0])
                && final(self).pending() == old(self).pending().drop_first()
                && final(self).sent() == old(self).sent() + 1,
    {
        if self.pos == self.end {
            None
        } else {
            let b = self.buf[self.pos];
            self.pos = self.pos + 1;
            assert(self.pending() =~= old(self).pending().drop_first());
            Some(b)
        }
    }

    /// Hands out every pending byte, in order, as `next` would one by one.
    pub fn drain(&mut self) -> (r: Vec<u8>)
        requires
            old(self).wf(),
        ensures
            final(self).wf(),
            r@ == old(self).pending(),
            final(self).pending().len() == 0,
            final(self).sent() == old(self).sent() + old(self).pending().len(),
    {
        let mut out: Vec<u8> = Vec::new();
        loop
            invariant
                self.wf(),
                out@ + self.pending() == old(self).pending(),
                self.sent() + self.pending().len() == old(self).sent() + old(self).pending().len(),
            decreases self.pending().len(),
        {
            let ghost before = self.pending();
            match self.next() {
                Some(b) => {
                    out.push(b);
                    assert(out@ + self.pending() =~= old(self).pending()) by {
                        assert(before =~= seq![b] + before.drop_first());
                    }
                },
                None => {
                    assert(out@ =~= old(self).pending());
                    return out;
                },
            }
        }
    }
}

} // verus!
