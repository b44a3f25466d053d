//! Flat, fixed-size byte memory with byte and big-endian word access.
//!
//! [`word_at`] and [`write_word`] say what reading and writing a word mean.
//! Both are opaque: proofs go by the laws in [`group_word_laws`], which speak
//! of whole words, and reveal the definitions only where single bytes matter.

use vstd::prelude::*;

verus! {

/// Most significant byte of a 16-bit word.
#[verifier::opaque]
pub open spec fn high_byte(value: u16) -> u8 {
    (value / 256) as u8
}

/// Least significant byte of a 16-bit word.
#[verifier::opaque]
pub open spec fn low_byte(value: u16) -> u8 {
    (value % 256) as u8
}

/// The word stored big-endian in `bytes[addr]` and `bytes[addr + 1]`.
#[verifier::opaque]
pub open spec fn word_at(bytes: Seq<u8>, addr: int) -> u16 {
    (bytes[addr] * 256 + bytes[addr + 1]) as u16
}

/// `bytes` with `value` stored big-endian at `addr` and `addr + 1`.
#[verifier::opaque]
pub open spec fn write_word(bytes: Seq<u8>, addr: int, value: u16) -> Seq<u8> {
    bytes.update(addr, high_byte(value)).update(addr + 1, low_byte(value))
}

/// The two bytes of a word put together give the word.
pub broadcast proof fn lemma_bytes_of_word(value: u16)
    ensures
        #![trigger high_byte(value)]
        #![trigger low_byte(value)]
        high_byte(value) * 256 + low_byte(value) == value,
{
    reveal(high_byte);
    reveal(low_byte);
}

/// A word is its high byte times 256 plus its low byte.
pub proof fn lemma_word_of_bytes(bytes: Seq<u8>, addr: int)
    ensures
        word_at(bytes, addr) == bytes[addr] * 256 + bytes[addr + 1],
        high_byte(word_at(bytes, addr)) == bytes[addr],
        low_byte(word_at(bytes, addr)) == bytes[addr + 1],
{
    reveal(word_at);
    reveal(high_byte);
    reveal(low_byte);
}

/// Writing a word keeps the length.
pub broadcast proof fn lemma_write_word_len(bytes: Seq<u8>, addr: int, value: u16)
    requires
        0 <= addr,
        addr + 1 < bytes.len(),
    ensures
        #[trigger] write_word(bytes, addr, value).len() == bytes.len(),
{
    reveal(write_word);
}

/// Writing a word changes the two bytes it covers, and no other.
pub broadcast proof fn lemma_write_word_bytes(bytes: Seq<u8>, addr: int, value: u16, i: int)
    requires
        0 <= addr,
        addr + 1 < bytes.len(),
        0 <= i < bytes.len(),
    ensures
        #[trigger] write_word(bytes, addr, value)[i] == if i == addr {
            high_byte(value)
        } else if i == addr + 1 {
            low_byte(value)
        } else {
            bytes[i]
        },
{
    reveal(write_word);
}

/// A word that was written is read back, and a write leaves every word that
/// it does not overlap as it was.
pub broadcast proof fn lemma_word_at_write_word(bytes: Seq<u8>, addr: int, value: u16, other: int)
    requires
        0 <= addr,
        addr + 1 < bytes.len(),
        0 <= other,
        other + 1 < bytes.len(),
    ensures
        other == addr ==> #[trigger] word_at(write_word(bytes, addr, value), other) == value,
        other + 1 < addr || addr + 1 < other ==> word_at(write_word(bytes, addr, value), other)
            == word_at(bytes, other),
{
    reveal(word_at);
    reveal(write_word);
    lemma_bytes_of_word(value);
}

/// Of two writes to one address only the second shows.
pub broadcast proof fn lemma_write_word_twice(bytes: Seq<u8>, addr: int, first: u16, second: u16)
    requires
        0 <= addr,
        addr + 1 < bytes.len(),
    ensures
        #[trigger] write_word(write_word(bytes, addr, first), addr, second) == write_word(
            bytes,
            addr,
            second,
        ),
{
    reveal(write_word);
    assert(write_word(write_word(bytes, addr, first), addr, second) =~= write_word(
        bytes,
        addr,
        second,
    ));
}

/// What holds of words in a byte sequence.
pub broadcast group group_word_laws {
    lemma_bytes_of_word,
    lemma_write_word_len,
    lemma_write_word_bytes,
    lemma_word_at_write_word,
    lemma_write_word_twice,
}

/// A byte buffer whose length is fixed when it is created.
///
/// Its view is the sequence of its bytes.
pub struct Memory {
    inner: Vec<u8>,
}

impl View for Memory {
    type V = Seq<u8>;

    closed spec fn view(&self) -> Seq<u8> {
        self.inner@
    }
}

impl Memory {
    /// A memory of `size_in_bytes` bytes, all zero.
    pub fn new(size_in_bytes: usize) -> (memory: Memory)
        ensures
            memory@ == Seq::new(size_in_bytes as nat, |i: int| 0u8),
    {
        let inner: Vec<u8> = vec![0u8; size_in_bytes];
        assert(inner@ =~= Seq::new(size_in_bytes as nat, |i: int| 0u8));
        Memory { inner }
    }

    /// The number of bytes, which never changes.
    pub fn byte_length(&self) -> (length: usize)
        ensures
            length == self@.len(),
    {
        self.inner.len()
    }

    /// Stores `value` at `offset`, which must lie inside the buffer.
    pub fn set_byte(&mut self, offset: usize, value: u8)
        requires
            offset < old(self)@.len(),
        ensures
            final(self)@ == old(self)@.update(offset as int, value),
        no_unwind
    {
        self.inner[offset] = value;
    }

    /// The byte at `offset`, which must lie inside the buffer.
    pub fn get_byte(&self, offset: usize) -> (value: u8)
        requires
            offset < self@.len(),
        ensures
            value == self@[offset as int],
    {
        self.inner[offset]
    }

    /// Stores `value` big-endian at `offset` and `offset + 1`, both of which
    /// must lie inside the buffer.
    pub fn set_word(&mut self, offset: usize, value: u16)
        requires
            offset + 1 < old(self)@.len(),
        ensures
            final(self)@ == write_word(old(self)@, offset as int, value),
        no_unwind
    {
        let high: u8 = (value / 256) as u8;
        let low: u8 = (value % 256) as u8;
        proof {
            reveal(high_byte);
            reveal(low_byte);
            reveal(write_word);
        }
        assert(self.inner@.len() == self.inner.len());
        self.inner[offset] = high;
        self.inner[offset + 1] = low;
    }

    /// The big-endian word at `offset` and `offset + 1`, both of which must
    /// lie inside the buffer.
    pub fn get_word(&self, offset: usize) -> (value: u16)
        requires
            offset + 1 < self@.len(),
        ensures
            value == word_at(self@, offset as int),
    {
        proof {
            reveal(word_at);
        }
        assert(self.inner@.len() == self.inner.len());
        let high: u16 = self.inner[offset] as u16;
        let low: u16 = self.inner[offset + 1] as u16;
        high * 256 + low
    }

    /// A copy of the `length` bytes that start at `offset`. The whole range
    /// must lie inside the buffer.
    pub fn peek(&self, offset: usize, length: usize) -> (bytes: Vec<u8>)
        requires
            offset + length <= self@.len(),
        ensures
            bytes@ == self@.subrange(offset as int, offset + length),
    {
        let mut bytes: Vec<u8> = Vec::with_capacity(length);
        let mut copied: usize = 0;
        while copied < length
            invariant
                copied <= length,
                offset + length <= self.inner@.len(),
                self.inner@.len() == self.inner.len(),
                bytes@ == self.inner@.subrange(offset as int, offset + copied),
            decreases length - copied,
        {
            bytes.push(self.inner[offset + copied]);
            copied += 1;
        }
        bytes
    }
}

} // verus!
