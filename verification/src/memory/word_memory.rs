//! Memory as the processor sees it once an address is resolved: bytes,
//! read and written four at a time, lowest byte first.

use vstd::prelude::*;
use std::collections::HashMap;

verus! {

broadcast use vstd::std_specs::hash::group_hash_axioms;

/// The 32-bit word whose bytes are `b0`, `b1`, `b2`, `b3`, lowest first.
pub open spec fn word_of(b0: u8, b1: u8, b2: u8, b3: u8) -> u32 {
    (b0 as u32) | ((b1 as u32) << 8) | ((b2 as u32) << 16) | ((b3 as u32) << 24)
}

/// Byte number `k` of a 32-bit word, counting from the lowest.
pub open spec fn byte_of(word: u32, k: int) -> u8 {
    if k == 0 {
        (word & 0xff) as u8
    } else if k == 1 {
        ((word >> 8) & 0xff) as u8
    } else if k == 2 {
        ((word >> 16) & 0xff) as u8
    } else {
        ((word >> 24) & 0xff) as u8
    }
}

/// Memory that is read and written in 32-bit words at resolved addresses.
pub trait WordMemory {
    /// The byte at `addr`. A memory says here what it holds; one that does
    /// not is taken to be some memory that keeps the contracts below.
    open spec fn byte_at(&self, addr: u64) -> u8 {
        arbitrary()
    }

    /// The word whose four bytes start at `addr`.
    fn read32(&self, addr: u64) -> (word: u32)
        requires
            addr <= u64::MAX - 3,
        ensures
            word == word_of(
                self.byte_at(addr),
                self.byte_at((addr + 1) as u64),
                self.byte_at((addr + 2) as u64),
                self.byte_at((addr + 3) as u64),
            ),
    ;

    /// Stores `word` in the four bytes that start at `addr`, and leaves
    /// every other byte as it was.
    fn write32(&mut self, addr: u64, word: u32)
        requires
            addr <= u64::MAX - 3,
        ensures
            forall|a: u64|
                #[trigger] final(self).byte_at(a) == if addr <= a <= addr + 3 {
                    byte_of(word, a - addr)
                } else {
                    old(self).byte_at(a)
                },
    ;
}

/// The word that `memory` holds at `addr`.
pub open spec fn word_at<M: WordMemory>(memory: &M, addr: u64) -> u32 {
    word_of(
        memory.byte_at(addr),
        memory.byte_at((addr + 1) as u64),
        memory.byte_at((addr + 2) as u64),
        memory.byte_at((addr + 3) as u64),
    )
}

/// Putting the four bytes of a word together again gives the word.
pub proof fn lemma_word_of_bytes(word: u32)
    ensures
        word_of(byte_of(word, 0), byte_of(word, 1), byte_of(word, 2), byte_of(word, 3)) == word,
{
    assert(((word & 0xff) as u8 as u32) | ((((word >> 8) & 0xff) as u8 as u32) << 8) | ((((word
        >> 16) & 0xff) as u8 as u32) << 16) | ((((word >> 24) & 0xff) as u8 as u32) << 24) == word)
        by (bit_vector);
}

/// Memory that holds zero wherever nothing was written.
pub struct SparseMemory {
    bytes: HashMap<u64, u8>,
}

impl SparseMemory {
    /// Memory in which every byte is zero.
    pub fn new() -> (m: SparseMemory)
        ensures
            forall|a: u64| #[trigger] m.byte_at(a) == 0,
    {
        SparseMemory { bytes: HashMap::new() }
    }

    fn load(&self, addr: u64) -> (b: u8)
        ensures
            b == self.byte_at(addr),
    {
        match self.bytes.get(&addr) {
            Some(b) => *b,
            None => 0,
        }
    }
}

impl WordMemory for SparseMemory {
    closed spec fn byte_at(&self, addr: u64) -> u8 {
        if self.bytes@.contains_key(addr) {
            self.bytes@[addr]
        } else {
            0
        }
    }

    fn read32(&self, addr: u64) -> (word: u32) {
        let b0 = self.load(addr);
        let b1 = self.load(addr + 1);
        let b2 = self.load(addr + 2);
        let b3 = self.load(addr + 3);
        (b0 as u32) | ((b1 as u32) << 8) | ((b2 as u32) << 16) | ((b3 as u32) << 24)
    }

    fn write32(&mut self, addr: u64, word: u32) {
        self.bytes.insert(addr, (word & 0xff) as u8);
        self.bytes.insert(addr + 1, ((word >> 8) & 0xff) as u8);
        self.bytes.insert(addr + 2, ((word >> 16) & 0xff) as u8);
        self.bytes.insert(addr + 3, ((word >> 24) & 0xff) as u8);
    }
}

} // verus!
