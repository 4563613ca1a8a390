use vstd::prelude::*;

verus! {

/// The verified half of the debt carry-over reader. It owns the scan
/// buffer whose tail is the debt: body bytes already read past the header
/// boundary. Reads drain those bytes, in stream order, before anything may
/// be asked of the underlying reader; once drained, the wrapper is
/// pass-through and every later read belongs to the underlying reader.
#[derive(Debug)]
pub struct PrependRead {
    header: Vec<u8>,
    remaining: usize,
}

impl PrependRead {
    pub closed spec fn wf(self) -> bool {
        self.remaining <= self.header@.len()
    }

    /// The leftover bytes that have not been handed out yet.
    pub closed spec fn pending(self) -> Seq<u8> {
        self.header@.skip(self.header@.len() - self.remaining as int)
    }

    /// Wrap a buffer whose last `remaining` bytes are the debt.
    pub fn new(header: Vec<u8>, remaining: usize) -> (r: PrependRead)
        requires
            remaining <= header@.len(),
        ensures
            r.wf(),
            r.pending() == header@.skip(header@.len() - remaining as int),
    {
        PrependRead { header, remaining }
    }

    /// How many leftover bytes are still pending.
    pub fn pending_len(&self) -> (r: usize)
        requires
            self.wf(),
        ensures
            r == self.pending().len(),
    {
        self.remaining
    }

    /// Whether the leftover is exhausted.
    pub fn is_drained(&self) -> (r: bool)
        requires
            self.wf(),
        ensures
            r == (self.pending().len() == 0),
    {
        self.remaining == 0
    }

    /// Hand out up to `max` leftover bytes: exactly the next pending bytes
    /// of the debt, in stream order; they stop being pending. A caller that
    /// reads here until the leftover is drained has read precisely the debt
    /// bytes, in order, before any byte of the underlying reader.
    pub fn read_leftover(&mut self, max: usize) -> (r: Vec<u8>)
        requires
            old(self).wf(),
        ensures
            final(self).wf(),
            r@.len() == if max as int <= old(self).pending().len() {
                max as int
            } else {
                old(self).pending().len() as int
            },
            r@ == old(self).pending().take(r@.len() as int),
            final(self).pending() == old(self).pending().skip(r@.len() as int),
    {
        let k: usize = if max <= self.remaining {
            max
        } else {
            self.remaining
        };
        let end: usize = self.header.len();
        let start: usize = end - self.remaining;
        let mut out: Vec<u8> = Vec::new();
        let mut t: usize = 0;
        while t < k
            invariant
                t <= k,
                *self == *old(self),
                self.wf(),
                k <= self.remaining,
                end == self.header@.len(),
                start == end - self.remaining,
                out@ == self.pending().take(t as int),
            decreases k - t,
        {
            let b: u8 = self.header[start + t];
            out.push(b);
            proof {
                assert(self.pending()[t as int] == self.header@[start + t]);
                assert(self.pending().take(t as int).push(self.pending()[t as int])
                    =~= self.pending().take(t + 1));
            }
            t += 1;
        }
        self.remaining = self.remaining - k;
        proof {
            assert(self.pending() =~= old(self).pending().skip(k as int));
        }
        out
    }
}

/// Draining in pieces is the same as draining at once: the bytes handed
/// out by one read of `a` leftover bytes followed by one of `b` more are,
/// concatenated, exactly the first `a + b` bytes of the debt. Reads from
/// the carry-over reader therefore deliver the debt contiguously and in
/// order, however the reads are sized.
pub proof fn lemma_successive_reads(pending: Seq<u8>, a: int, b: int)
    requires
        0 <= a,
        0 <= b,
        a + b <= pending.len(),
    ensures
        pending.take(a) + pending.skip(a).take(b) == pending.take(a + b),
{
    assert(pending.take(a) + pending.skip(a).take(b) =~= pending.take(a + b));
}

} // verus!
