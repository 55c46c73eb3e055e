//! Writing a byte sequence through a transport that takes it piecemeal.
use vstd::prelude::*;

verus! {

/// Progress of one outbound byte sequence. Each write the transport accepts
/// moves `sent` forward; a failed write abandons the rest.
#[derive(Debug)]
pub struct Drain {
    pub bytes: Vec<u8>,
    pub sent: usize,
    pub abandoned: bool,
}

impl Drain {
    pub open spec fn wf(&self) -> bool {
        self.sent <= self.bytes@.len()
    }

    pub open spec fn spec_finished(&self) -> bool {
        self.abandoned || self.sent == self.bytes@.len()
    }

    /// Starts writing `bytes`.
    pub fn new(bytes: Vec<u8>) -> (r: Drain)
        ensures
            r.wf(),
            r.bytes == bytes,
            r.sent == 0,
            !r.abandoned,
    {
        Drain { bytes, sent: 0, abandoned: false }
    }

    /// Whether nothing more is to be written: all sent, or abandoned.
    pub fn is_finished(&self) -> (r: bool)
        ensures
            r == self.spec_finished(),
    {
        self.abandoned || self.sent == self.bytes.len()
    }

    /// The bytes not yet written.
    pub fn unsent(&self) -> (r: Vec<u8>)
        requires
            self.wf(),
        ensures
            r@ == self.bytes@.subrange(self.sent as int, self.bytes@.len() as int),
    {
        let mut out: Vec<u8> = Vec::new();
        let mut i: usize = self.sent;
        while i < self.bytes.len()
            invariant
                self.sent <= i <= self.bytes@.len(),
                out@ == self.bytes@.subrange(self.sent as int, i as int),
            decreases self.bytes@.len() - i,
        {
            out.push(self.bytes[i]);
            i = i + 1;
            assert(out@ =~= self.bytes@.subrange(self.sent as int, i as int));
        }
        out
    }

    /// Records the outcome of one write of the unsent bytes: `Some(n)` when
    /// the transport took `n` of them, `None` when the write failed.
    pub fn record(&mut self, outcome: Option<usize>)
        requires
            old(self).wf(),
            !old(self).spec_finished(),
            outcome matches Some(n) ==> n <= old(self).bytes@.len() - old(self).sent,
        ensures
            final(self).wf(),
            final(self).bytes == old(self).bytes,
            outcome is None ==> final(self).abandoned && final(self).sent == old(self).sent,
            outcome matches Some(n) ==> !final(self).abandoned && final(self).sent
                == old(self).sent + n,
    {
        match outcome {
            None => {
                self.abandoned = true;
            },
            Some(n) => {
                let total = self.bytes.len();
                assert(self.sent + n <= total);
                self.sent = self.sent + n;
            },
        }
    }
}

} // verus!
