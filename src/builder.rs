//! An append-only accumulator of UTF-16 code units.
use vstd::prelude::*;

use crate::string::{
    chars_before_nul, from_wide_spec, lemma_round_trip, lemma_utf16_of_concat, push_utf16, utf16_length,
    utf16_of,
};

verus! {

/// Relies on `Vec::capacity`: the capacity is never below the length.
#[verifier::external_body]
pub(crate) fn vec_capacity(v: &Vec<u16>) -> (r: usize)
    ensures
        r >= v@.len(),
{
    v.capacity()
}

/// Builds a wide string piece by piece. No terminator is held while pieces
/// are added: `build` appends it.
pub struct WideStringBuilder {
    buffer: Vec<u16>,
}

impl View for WideStringBuilder {
    type V = Seq<u16>;

    /// The units added so far.
    closed spec fn view(&self) -> Seq<u16> {
        self.buffer@
    }
}

/// After pushing `a`, `b` and `c` into an empty builder, its length is the
/// sum of their encoded lengths, and decoding the built buffer gives their
/// concatenation up to its first null character.
pub proof fn builder_accumulation(a: Seq<char>, b: Seq<char>, c: Seq<char>)
    ensures
        (Seq::<u16>::empty() + utf16_of(a) + utf16_of(b) + utf16_of(c)).len() == utf16_length(a)
            + utf16_length(b) + utf16_length(c),
        from_wide_spec((Seq::<u16>::empty() + utf16_of(a) + utf16_of(b) + utf16_of(c)).push(0u16))
            == Ok::<Seq<char>, ()>(chars_before_nul(a + b + c)),
{
    lemma_utf16_of_concat(a, b);
    lemma_utf16_of_concat(a + b, c);
    assert(Seq::<u16>::empty() + utf16_of(a) + utf16_of(b) + utf16_of(c) =~= utf16_of(a + b + c));
    lemma_round_trip(a + b + c);
}

impl WideStringBuilder {
    /// An empty builder.
    pub fn new() -> (r: WideStringBuilder)
        ensures
            r@ == Seq::<u16>::empty(),
    {
        WideStringBuilder { buffer: Vec::new() }
    }

    /// An empty builder with room for `capacity` units.
    pub fn with_capacity(capacity: usize) -> (r: WideStringBuilder)
        ensures
            r@ == Seq::<u16>::empty(),
    {
        WideStringBuilder { buffer: Vec::with_capacity(capacity) }
    }

    /// Appends the UTF-16 encoding of `s`.
    pub fn push(&mut self, s: &str) -> (r: &mut Self)
        ensures
            r@ == old(self)@ + utf16_of(s@),
            *final(self) == *final(r),
    {
        push_utf16(&mut self.buffer, s);
        self
    }

    /// Appends one code unit.
    pub fn push_char(&mut self, c: u16) -> (r: &mut Self)
        ensures
            r@ == old(self)@.push(c),
            *final(self) == *final(r),
    {
        self.buffer.push(c);
        self
    }

    /// Appends the terminator and hands out the finished buffer.
    pub fn build(self) -> (r: Vec<u16>)
        ensures
            r@ == self@.push(0u16),
    {
        let mut buffer = self.buffer;
        buffer.push(0);
        buffer
    }

    /// Drops the units added so far.
    pub fn clear(&mut self)
        ensures
            final(self)@ == Seq::<u16>::empty(),
    {
        self.buffer.clear();
    }

    /// Appends the terminator, hands out the finished buffer and leaves the
    /// builder empty for the next string. The builder starts over with a
    /// fresh buffer: the grown one leaves with the result.
    pub fn build_and_clear(&mut self) -> (r: Vec<u16>)
        ensures
            r@ == old(self)@.push(0u16),
            final(self)@ == Seq::<u16>::empty(),
    {
        self.buffer.push(0);
        let mut finished: Vec<u16> = Vec::new();
        std::mem::swap(&mut self.buffer, &mut finished);
        finished
    }

    /// The number of units added so far; the terminator is not counted.
    pub fn len(&self) -> (r: usize)
        ensures
            r == self@.len(),
    {
        self.buffer.len()
    }

    /// True when no unit has been added.
    pub fn is_empty(&self) -> (r: bool)
        ensures
            r == (self@.len() == 0),
    {
        self.buffer.len() == 0
    }

    /// The number of units the builder can hold without growing.
    pub fn capacity(&self) -> (r: usize)
        ensures
            r >= self@.len(),
    {
        vec_capacity(&self.buffer)
    }
}

impl Default for WideStringBuilder {
    fn default() -> (r: WideStringBuilder)
        ensures
            r@ == Seq::<u16>::empty(),
    {
        WideStringBuilder::new()
    }
}

} // verus!
