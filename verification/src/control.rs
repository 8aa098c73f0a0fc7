//! The control word of a fiber: a stack address and a done flag in one
//! machine word.
//!
//! The flag lives in the sign bit, which no address of a stack in the lower
//! half of the address space uses. The word is never handed out: callers see
//! only [`Control::address_of`], [`Control::is_done`] and
//! [`Control::mark_done`].

use vstd::prelude::*;

verus! {

/// What a control word stands for.
pub struct Mark {
    /// The stack address to switch into next.
    pub address: usize,
    /// Whether the closure has ended and its result has been handed over.
    pub done: bool,
}

/// The value of the sign bit of a machine word: half of the address space.
pub open spec fn done_bit() -> usize {
    (usize::MAX - usize::MAX / 2) as usize
}

/// How many high bits `ointers` takes from a pointer for a given choice of
/// alignment bits, sign bit and unused address bits. It never takes fewer
/// than one.
pub open spec fn stolen_count(a: u8, s: bool, v: u8) -> int {
    let n = a + (if s { 1int } else { 0int }) + v;
    if n < 1 { 1 } else { n }
}

/// The machine word whose `n` highest bits are set and no others.
pub open spec fn high_bits(n: int) -> usize {
    if n >= usize::BITS {
        !0usize
    } else {
        !(!0usize >> (n as usize))
    }
}

/// Calls `ointers::asv_mask`, which builds the mask of the bits that a
/// stolen-from pointer gives up. The contract claims what that function's
/// source computes: an arithmetic right shift of the lowest signed word by one
/// less than the number of stolen bits, which sets exactly that many high
/// bits. Inputs on which its additions or its shift would overflow are left
/// out.
#[verifier::external_body]
fn stolen_mask(a: u8, s: bool, v: u8) -> (m: usize)
    requires
        a + (if s { 1int } else { 0int }) + v <= usize::BITS,
    ensures
        m == high_bits(stolen_count(a, s, v)),
{
    ointers::asv_mask(a, s, v)
}

/// The sign bit, read as a number and as a pattern of bits, is one value.
proof fn lemma_sign_bit()
    ensures
        high_bits(1) == done_bit(),
{
    lemma_ones(usize::MAX);
}

/// No machine word exceeds the word of all ones, and the sign bit is the
/// upper half of it.
proof fn lemma_ones(w: usize)
    by (bit_vector)
    ensures
        w <= !0usize,
        !(!0usize >> 1) - 1 + !(!0usize >> 1) == !0usize,
{
}

/// A stack address and a done flag, packed into one machine word.
#[derive(Clone, Copy, Debug)]
pub struct Control {
    word: usize,
}

impl View for Control {
    type V = Mark;

    closed spec fn view(&self) -> Mark {
        if self.word >= done_bit() {
            Mark { address: (self.word - done_bit()) as usize, done: true }
        } else {
            Mark { address: self.word, done: false }
        }
    }
}

impl Control {
    /// Whether `address` leaves the sign bit free, so that a control word can
    /// hold it.
    pub open spec fn holds(address: usize) -> bool {
        address < done_bit()
    }

    /// Tells whether a control word can hold `address`.
    pub fn fits(address: usize) -> (b: bool)
        ensures
            b == Self::holds(address),
    {
        let m = stolen_mask(0, true, 0);
        proof {
            lemma_sign_bit();
            assert((address & m == 0) <==> address < m) by (bit_vector)
                requires
                    m == !(!0usize >> 1),
            ;
        }
        address & m == 0
    }

    /// The control word of a fiber that is parked at `address` and has not
    /// ended.
    pub fn new(address: usize) -> (c: Control)
        requires
            Self::holds(address),
        ensures
            c@ == (Mark { address, done: false }),
    {
        Control { word: address }
    }

    /// Whether the done flag is set.
    pub fn is_done(&self) -> (b: bool)
        ensures
            b == self@.done,
    {
        let w = self.word;
        let m = stolen_mask(0, true, 0);
        proof {
            lemma_sign_bit();
            assert((w & m != 0) <==> w >= m) by (bit_vector)
                requires
                    m == !(!0usize >> 1),
            ;
        }
        w & m != 0
    }

    /// The stack address, without the flag.
    pub fn address_of(&self) -> (address: usize)
        ensures
            address == self@.address,
    {
        let w = self.word;
        let m = stolen_mask(0, true, 0);
        proof {
            lemma_sign_bit();
            assert((w & !m) == (if w >= m { w - m } else { w as int })) by (bit_vector)
                requires
                    m == !(!0usize >> 1),
            ;
        }
        w & !m
    }

    /// Sets the done flag and keeps the address. Marking a word that is
    /// already marked changes nothing.
    pub fn mark_done(self) -> (c: Control)
        ensures
            c@ == (Mark { address: self@.address, done: true }),
            self@.done ==> c == self,
    {
        let w = self.word;
        let m = stolen_mask(0, true, 0);
        proof {
            lemma_sign_bit();
            assert((w | m) == (if w >= m { w as int } else { w + m })) by (bit_vector)
                requires
                    m == !(!0usize >> 1),
            ;
        }
        Control { word: w | m }
    }

    /// Every control word holds an address that leaves the sign bit free.
    pub proof fn lemma_address_holds(self)
        ensures
            Self::holds(self@.address),
    {
    }

    /// Two control words that stand for the same address and flag are the
    /// same word.
    pub proof fn lemma_one_word_per_mark(self, other: Control)
        requires
            self@ == other@,
        ensures
            self == other,
    {
    }
}

} // verus!
