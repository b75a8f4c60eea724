//! The byte-addressable memory that the processor reads and writes.

use vstd::prelude::*;

verus! {

/// `i` reduced to a byte, modulo 256.
pub open spec fn wrap8(i: int) -> u8 {
    (i % 256) as u8
}

/// `i` reduced to an address, modulo 65536.
pub open spec fn wrap16(i: int) -> u16 {
    (i % 65536) as u16
}

/// The address one past `addr`, wrapping at the top of the address space.
pub open spec fn next_addr(addr: u16) -> u16 {
    wrap16(addr + 1)
}

/// The little-endian word made of the bytes `lo` and `hi`.
pub open spec fn le_word(lo: u8, hi: u8) -> u16 {
    (lo as int + hi as int * 256) as u16
}

/// The little-endian word stored at `addr` and the address after it.
pub open spec fn word_at(cells: Seq<u8>, addr: u16) -> u16 {
    le_word(cells[addr as int], cells[next_addr(addr) as int])
}

/// The cells after the word `value` is stored little-endian at `addr`.
pub open spec fn store_word(cells: Seq<u8>, addr: u16, value: u16) -> Seq<u8> {
    cells.update(addr as int, (value % 256) as u8).update(next_addr(addr) as int, (value / 256) as u8)
}

/// A memory of 65536 byte cells, read and written by address.
///
/// A store supplies the byte accesses; word accesses are two byte accesses
/// at `addr` and the address after it, low byte first.
pub trait Memory {
    /// The cells, indexed by address.
    spec fn cells(&self) -> Seq<u8>;

    /// Every address of the 16-bit space names a cell.
    proof fn lemma_cells_len(&self)
        ensures
            self.cells().len() == 0x10000,
    ;

    /// Reads the byte at `addr`.
    fn read_byte(&self, addr: u16) -> (r: u8)
        ensures
            r == self.cells()[addr as int],
    ;

    /// Writes `value` to the byte at `addr`, leaving the other cells as they were.
    fn write_byte(&mut self, addr: u16, value: u8)
        ensures
            final(self).cells() == old(self).cells().update(addr as int, value),
    ;

    /// Reads the little-endian word at `addr`.
    fn read_word(&self, addr: u16) -> (r: u16)
        ensures
            r == word_at(self.cells(), addr),
    {
        let lo = self.read_byte(addr);
        let hi = self.read_byte(addr.wrapping_add(1));
        lo as u16 + hi as u16 * 256
    }

    /// Writes `value` little-endian at `addr`.
    fn write_word(&mut self, addr: u16, value: u16)
        ensures
            final(self).cells() == store_word(old(self).cells(), addr, value),
    {
        self.write_byte(addr, (value % 256) as u8);
        self.write_byte(addr.wrapping_add(1), (value / 256) as u8);
    }
}

/// Number of cells in the address space.
pub const MEMORY_SIZE: usize = 0x10000;

/// A plain array of 65536 bytes.
pub struct Ram {
    bytes: [u8; 65536],
}

impl Ram {
    /// A memory whose cells all hold zero.
    pub fn new() -> (r: Ram)
        ensures
            r.cells().len() == MEMORY_SIZE,
            forall|i: int| 0 <= i < MEMORY_SIZE ==> #[trigger] r.cells()[i] == 0u8,
    {
        Ram { bytes: [0u8; 65536] }
    }

    /// Copies `data` into the cells from `start` on; bytes past the top of the
    /// address space are dropped.
    pub fn load(&mut self, start: u16, data: &Vec<u8>)
        ensures
            final(self).cells().len() == MEMORY_SIZE,
            forall|i: int|
                0 <= i < MEMORY_SIZE ==> #[trigger] final(self).cells()[i] == if start <= i < start
                    + data@.len() {
                    data@[i - start]
                } else {
                    old(self).cells()[i]
                },
    {
        let mut k: usize = 0;
        while k < data.len() && (start as usize) + k < MEMORY_SIZE
            invariant
                self.bytes@.len() == MEMORY_SIZE,
                k <= data@.len(),
                start + k <= MEMORY_SIZE,
                forall|i: int|
                    0 <= i < MEMORY_SIZE ==> #[trigger] self.bytes@[i] == if start <= i < start + k {
                        data@[i - start]
                    } else {
                        old(self).cells()[i]
                    },
            decreases data@.len() - k,
        {
            self.bytes[start as usize + k] = data[k];
            k = k + 1;
        }
    }
}

impl Memory for Ram {
    closed spec fn cells(&self) -> Seq<u8> {
        self.bytes@
    }

    proof fn lemma_cells_len(&self) {
    }

    fn read_byte(&self, addr: u16) -> (r: u8) {
        self.bytes[addr as usize]
    }

    fn write_byte(&mut self, addr: u16, value: u8) {
        self.bytes[addr as usize] = value;
    }
}

} // verus!
