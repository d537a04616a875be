//! The machine's memory: 32768 sixteen-bit cells, and a cursor over them.

use vstd::prelude::*;
use crate::fault::{Access, Fault};

verus! {

/// Number of cells.
pub const MEMORY_SIZE: usize = 32768;

/// The last valid address.
pub const LAST_ADDRESS: usize = 32767;

/// What a bounds-checked read at `addr` gives.
pub open spec fn read_word(cells: Seq<u16>, addr: usize) -> Result<u16, Fault> {
    if addr <= LAST_ADDRESS {
        Ok(cells[addr as int])
    } else {
        Err(Fault::MemoryOutOfBounds { access: Access::Read, addr, limit: LAST_ADDRESS })
    }
}

/// What a bounds-checked write of `value` at `addr` gives.
pub open spec fn write_word(cells: Seq<u16>, addr: usize, value: u16) -> Result<Seq<u16>, Fault> {
    if addr <= LAST_ADDRESS {
        Ok(cells.update(addr as int, value))
    } else {
        Err(Fault::MemoryOutOfBounds { access: Access::Write, addr, limit: LAST_ADDRESS })
    }
}

/// The word that two bytes of an image make: the low byte comes first.
pub open spec fn word_of(low: u8, high: u8) -> u16 {
    (low as int + 256 * (high as int)) as u16
}

/// The memory that a byte image fills: one word for each whole pair of bytes,
/// from address 0 on, and zero everywhere else. A last byte without a partner
/// is dropped.
pub open spec fn byte_image(bytes: Seq<u8>) -> Seq<u16> {
    Seq::new(
        MEMORY_SIZE as nat,
        |i: int|
            if 2 * i + 1 < bytes.len() {
                word_of(bytes[2 * i], bytes[2 * i + 1])
            } else {
                0u16
            },
    )
}

/// The memory that a word image fills: the words from address 0 on, and zero
/// everywhere else.
pub open spec fn word_image(words: Seq<u16>) -> Seq<u16> {
    Seq::new(
        MEMORY_SIZE as nat,
        |i: int|
            if i < words.len() {
                words[i]
            } else {
                0u16
            },
    )
}

/// A fixed array of `MEMORY_SIZE` cells. Its view is the sequence of their
/// contents.
pub struct Memory([u16; MEMORY_SIZE]);

impl View for Memory {
    type V = Seq<u16>;

    closed spec fn view(&self) -> Seq<u16> {
        self.0@
    }
}

impl Memory {
    /// Every memory has exactly `MEMORY_SIZE` cells.
    pub proof fn lemma_len(&self)
        ensures
            self@.len() == MEMORY_SIZE,
    {
    }

    /// A memory of zeros.
    pub fn new() -> (mem: Memory)
        ensures
            mem@ == Seq::new(MEMORY_SIZE as nat, |i: int| 0u16),
    {
        Memory([0u16; MEMORY_SIZE])
    }

    /// Loads a byte image: little-endian words, stored from address 0 on.
    /// An image of more than `MEMORY_SIZE` whole words faults on the first
    /// word that has no cell.
    pub fn load(bytes: &[u8]) -> (r: Result<Memory, Fault>)
        ensures
            match r {
                Ok(mem) => bytes@.len() / 2 <= MEMORY_SIZE && mem@ == byte_image(bytes@),
                Err(fault) => bytes@.len() / 2 > MEMORY_SIZE && fault == (Fault::MemoryOutOfBounds {
                    access: Access::Write,
                    addr: MEMORY_SIZE,
                    limit: LAST_ADDRESS,
                }),
            },
    {
        let mut mem = Memory::new();
        let pairs: usize = bytes.len() / 2;
        let mut addr: usize = 0;
        while addr < pairs
            invariant
                pairs == bytes@.len() / 2,
                addr <= pairs,
                addr <= MEMORY_SIZE,
                mem@.len() == MEMORY_SIZE,
                forall|i: int| 0 <= i < addr ==> mem@[i] == word_of(bytes@[2 * i], bytes@[2 * i + 1]),
                forall|i: int| addr <= i < MEMORY_SIZE ==> mem@[i] == 0u16,
            decreases pairs - addr,
        {
            let low: u8 = bytes[2 * addr];
            let high: u8 = bytes[2 * addr + 1];
            let word: u16 = (high as u16) << 8 | (low as u16);
            assert(word == word_of(low, high)) by (bit_vector)
                requires
                    word == (high as u16) << 8 | (low as u16),
            ;
            match mem.write(addr, word) {
                Ok(()) => {},
                Err(fault) => {
                    return Err(fault);
                },
            }
            addr += 1;
        }
        Ok(mem)
    }

    /// Loads a word image, stored from address 0 on. An image of more than
    /// `MEMORY_SIZE` words faults on the first word that has no cell.
    pub fn from_words(words: &[u16]) -> (r: Result<Memory, Fault>)
        ensures
            match r {
                Ok(mem) => words@.len() <= MEMORY_SIZE && mem@ == word_image(words@),
                Err(fault) => words@.len() > MEMORY_SIZE && fault == (Fault::MemoryOutOfBounds {
                    access: Access::Write,
                    addr: MEMORY_SIZE,
                    limit: LAST_ADDRESS,
                }),
            },
    {
        let mut mem = Memory::new();
        let mut addr: usize = 0;
        while addr < words.len()
            invariant
                addr <= words@.len(),
                addr <= MEMORY_SIZE,
                mem@.len() == MEMORY_SIZE,
                forall|i: int| 0 <= i < addr ==> mem@[i] == words@[i],
                forall|i: int| addr <= i < MEMORY_SIZE ==> mem@[i] == 0u16,
            decreases words@.len() - addr,
        {
            match mem.write(addr, words[addr]) {
                Ok(()) => {},
                Err(fault) => {
                    return Err(fault);
                },
            }
            addr += 1;
        }
        Ok(mem)
    }

    /// A cursor over this memory, positioned at `addr`.
    pub fn pointer(&self, addr: usize) -> (ptr: Pointer<'_>)
        ensures
            ptr@ == (PointerView { cells: self@, addr }),
    {
        Pointer::new(self, addr)
    }

    /// Reads the cell at `addr`.
    pub fn read(&self, addr: usize) -> (r: Result<u16, Fault>)
        ensures
            r == read_word(self@, addr),
    {
        if addr > LAST_ADDRESS {
            Err(Fault::MemoryOutOfBounds { access: Access::Read, addr, limit: LAST_ADDRESS })
        } else {
            Ok(self.0[addr])
        }
    }

    /// Stores `value` in the cell at `addr`; on a fault nothing changes.
    pub fn write(&mut self, addr: usize, value: u16) -> (r: Result<(), Fault>)
        ensures
            match write_word(old(self)@, addr, value) {
                Ok(cells) => r == Ok::<(), Fault>(()) && final(self)@ == cells,
                Err(fault) => r == Err::<(), Fault>(fault) && final(self)@ == old(self)@,
            },
    {
        if addr > LAST_ADDRESS {
            Err(Fault::MemoryOutOfBounds { access: Access::Write, addr, limit: LAST_ADDRESS })
        } else {
            self.0[addr] = value;
            Ok(())
        }
    }
}

/// What a cursor stands for: the cells it looks at and its position.
pub struct PointerView {
    pub cells: Seq<u16>,
    pub addr: usize,
}

/// A cursor into a memory, made for one decoding and dropped after it.
pub struct Pointer<'a> {
    mem: &'a Memory,
    addr: usize,
}

impl<'a> View for Pointer<'a> {
    type V = PointerView;

    closed spec fn view(&self) -> PointerView {
        PointerView { cells: self.mem@, addr: self.addr }
    }
}

impl<'a> Pointer<'a> {
    /// A cursor over `mem`, positioned at `addr`.
    pub fn new(mem: &'a Memory, addr: usize) -> (ptr: Pointer<'a>)
        ensures
            ptr@ == (PointerView { cells: mem@, addr }),
    {
        Pointer { mem, addr }
    }

    /// The current position.
    pub fn addr(&self) -> (addr: usize)
        ensures
            addr == self@.addr,
    {
        self.addr
    }

    /// Moves the cursor to `addr`.
    pub fn jump(&mut self, addr: usize)
        ensures
            final(self)@ == (PointerView { cells: old(self)@.cells, addr }),
    {
        self.addr = addr;
    }

    /// Moves the cursor forward by `offset` cells.
    pub fn add_assign(&mut self, offset: usize)
        requires
            old(self)@.addr + offset <= usize::MAX,
        ensures
            final(self)@ == (PointerView {
                cells: old(self)@.cells,
                addr: (old(self)@.addr + offset) as usize,
            }),
    {
        self.addr = self.addr + offset;
    }

    /// The word under the cursor.
    pub fn peek(&self) -> (r: Result<u16, Fault>)
        ensures
            r == read_word(self@.cells, self@.addr),
    {
        self.mem.read(self.addr)
    }

    /// The word under the cursor, which then moves forward by one. On a
    /// fault the cursor stays.
    pub fn advance(&mut self) -> (r: Result<u16, Fault>)
        ensures
            r == read_word(old(self)@.cells, old(self)@.addr),
            final(self)@.cells == old(self)@.cells,
            final(self)@.addr == if r is Ok {
                (old(self)@.addr + 1) as usize
            } else {
                old(self)@.addr
            },
    {
        let r = self.mem.read(self.addr);
        if r.is_ok() {
            self.addr = self.addr + 1;
        }
        r
    }
}

} // verus!
