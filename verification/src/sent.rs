use vstd::prelude::*;

use crate::location::{Location, LocationView};

verus! {

/// A message as it travels: its SCALE encoding.
pub type EncodedXcm = Vec<u8>;

/// A destination and a message bound for it.
pub type Pair = (Location, EncodedXcm);

/// The value of a destination and message.
pub open spec fn pair_view(p: Pair) -> (LocationView, Seq<u8>) {
    (p.0@, p.1@)
}

/// The values of a sequence of destinations and messages.
pub open spec fn pairs_view(ps: Seq<Pair>) -> Seq<(LocationView, Seq<u8>)> {
    ps.map_values(|p: Pair| pair_view(p))
}

/// A copy of a byte string.
pub fn copy_bytes(bytes: &Vec<u8>) -> (r: Vec<u8>)
    ensures
        r@ == bytes@,
{
    let mut r: Vec<u8> = Vec::new();
    let n = bytes.len();
    for i in 0..n
        invariant
            n == bytes@.len(),
            r@ =~= bytes@.take(i as int),
    {
        r.push(bytes[i]);
    }
    proof {
        assert(bytes@.take(n as int) =~= bytes@);
    }
    r
}

/// The messages that the test senders have delivered, oldest first.
pub struct SentXcm {
    entries: Vec<Pair>,
}

impl View for SentXcm {
    type V = Seq<(LocationView, Seq<u8>)>;

    closed spec fn view(&self) -> Seq<(LocationView, Seq<u8>)> {
        pairs_view(self.entries@)
    }
}

impl SentXcm {
    /// A log with nothing sent.
    pub fn new() -> (r: SentXcm)
        ensures
            r@ == Seq::<(LocationView, Seq<u8>)>::empty(),
    {
        let r = SentXcm { entries: Vec::new() };
        proof {
            assert(r@ =~= Seq::<(LocationView, Seq<u8>)>::empty());
        }
        r
    }

    /// Appends a delivered message.
    pub fn record(&mut self, pair: Pair)
        ensures
            final(self)@ == old(self)@.push(pair_view(pair)),
    {
        let ghost before = self.entries@;
        self.entries.push(pair);
        proof {
            assert(pairs_view(self.entries@) =~= pairs_view(before).push(pair_view(pair)));
        }
    }

    /// The number of messages sent so far.
    pub fn len(&self) -> (r: usize)
        ensures
            r == self@.len(),
    {
        self.entries.len()
    }

    /// A copy of everything sent so far, oldest first; the log is left as it is.
    pub fn sent_xcm(&self) -> (r: Vec<Pair>)
        ensures
            pairs_view(r@) == self@,
    {
        let mut r: Vec<Pair> = Vec::new();
        let n = self.entries.len();
        for i in 0..n
            invariant
                n == self.entries@.len(),
                pairs_view(r@) =~= pairs_view(self.entries@.take(i as int)),
        {
            let entry = &self.entries[i];
            let copy = (entry.0.duplicate(), copy_bytes(&entry.1));
            let ghost before = r@;
            r.push(copy);
            proof {
                assert(self.entries@.take(i + 1) =~= self.entries@.take(i as int).push(self.entries@[i as int]));
                assert(pairs_view(r@) =~= pairs_view(before).push(pair_view(copy)));
                assert(pairs_view(self.entries@.take(i + 1)) =~= pairs_view(self.entries@.take(i as int)).push(pair_view(self.entries@[i as int])));
            }
        }
        proof {
            assert(self.entries@.take(n as int) =~= self.entries@);
        }
        r
    }

    /// Everything sent so far, oldest first; the log is left empty.
    pub fn take_sent_xcm(&mut self) -> (r: Vec<Pair>)
        ensures
            pairs_view(r@) == old(self)@,
            final(self)@ == Seq::<(LocationView, Seq<u8>)>::empty(),
    {
        let mut r: Vec<Pair> = Vec::new();
        std::mem::swap(&mut r, &mut self.entries);
        proof {
            assert(pairs_view(self.entries@) =~= Seq::<(LocationView, Seq<u8>)>::empty());
        }
        r
    }
}

} // verus!
