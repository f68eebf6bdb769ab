//! The memory bus: a flat address space of 4096 bytes in which every address
//! is reduced to its low twelve bits, so that no access can fall outside it.

use vstd::prelude::*;

verus! {

/// Number of bytes in the address space.
pub const MEMORY_SIZE: usize = 0x1000;

/// Address of the first byte of a program image.
pub const PROGRAM_START: usize = 0x200;

/// Number of bytes in the font table.
pub const FONT_SIZE: usize = 80;

/// The glyphs of the hexadecimal digits `0` to `F`, five rows each, one byte
/// per row with the glyph in the high nibble.
pub const FONT: [u8; 80] = [
    0xF0, 0x90, 0x90, 0x90, 0xF0,
    0x20, 0x60, 0x20, 0x20, 0x70,
    0xF0, 0x10, 0xF0, 0x80, 0xF0,
    0xF0, 0x10, 0xF0, 0x10, 0xF0,
    0x90, 0x90, 0xF0, 0x10, 0x10,
    0xF0, 0x80, 0xF0, 0x10, 0xF0,
    0xF0, 0x80, 0xF0, 0x90, 0xF0,
    0xF0, 0x10, 0x20, 0x40, 0x40,
    0xF0, 0x90, 0xF0, 0x90, 0xF0,
    0xF0, 0x90, 0xF0, 0x10, 0xF0,
    0xF0, 0x90, 0xF0, 0x90, 0x90,
    0xE0, 0x90, 0xE0, 0x90, 0xE0,
    0xF0, 0x80, 0x80, 0x80, 0xF0,
    0xE0, 0x90, 0x90, 0x90, 0xE0,
    0xF0, 0x80, 0xF0, 0x80, 0xF0,
    0xF0, 0x80, 0xF0, 0x80, 0x80,
];

/// The cell that an address names: the address modulo the size of the space.
pub open spec fn wrap_address(address: int) -> int {
    address % 4096
}

/// An address space in which every byte is zero.
pub open spec fn blank_memory() -> Seq<u8> {
    Seq::new(4096, |k: int| 0u8)
}

/// The address space after a program image has been installed: the image
/// starts at `PROGRAM_START`, is cut off at the end of the space, and every
/// other byte is zero.
pub open spec fn program_image(rom: Seq<u8>) -> Seq<u8> {
    Seq::new(
        4096,
        |k: int|
            if 0x200 <= k < 0x200 + rom.len() {
                rom[k - 0x200]
            } else {
                0u8
            },
    )
}

/// The address space `memory` with the font table written over its first
/// `FONT_SIZE` bytes.
pub open spec fn with_font(memory: Seq<u8>) -> Seq<u8> {
    Seq::new(
        memory.len(),
        |k: int|
            if 0 <= k < 80 {
                FONT[k]
            } else {
                memory[k]
            },
    )
}

/// Masking an address leaves an index into the address space, whatever the
/// address was.
pub proof fn lemma_wrap_address_in_bounds(address: int)
    ensures
        0 <= wrap_address(address) < MEMORY_SIZE,
        0 <= address < 4096 ==> wrap_address(address) == address,
{
}

/// The memory bus.
pub struct Mmu {
    bytes: Vec<u8>,
}

impl View for Mmu {
    type V = Seq<u8>;

    closed spec fn view(&self) -> Seq<u8> {
        self.bytes@
    }
}

impl Mmu {
    /// A bus always spans the whole address space.
    #[verifier::type_invariant]
    pub open spec fn wf(self) -> bool {
        self@.len() == MEMORY_SIZE
    }

    /// A bus whose bytes are all zero.
    pub fn new() -> (m: Mmu)
        ensures
            m@ == blank_memory(),
    {
        let mut bytes: Vec<u8> = Vec::new();
        let mut k: usize = 0;
        while k < MEMORY_SIZE
            invariant
                k <= MEMORY_SIZE,
                bytes@.len() == k,
                forall|j: int| 0 <= j < k ==> bytes@[j] == 0u8,
            decreases MEMORY_SIZE - k,
        {
            bytes.push(0);
            k += 1;
        }
        Mmu { bytes }
    }

    /// Reads the byte at `address`, reduced to its low twelve bits.
    pub fn read(&self, address: usize) -> (value: u8)
        ensures
            value == self@[wrap_address(address as int)],
    {
        proof {
            use_type_invariant(self);
        }
        assert(address & 0xFFF == address % 4096) by (bit_vector);
        self.bytes[address & 0xFFF]
    }

    /// Writes `value` at `address`, reduced to its low twelve bits.
    pub fn write(&mut self, address: usize, value: u8)
        ensures
            final(self)@ == old(self)@.update(wrap_address(address as int), value),
    {
        proof {
            use_type_invariant(&*self);
        }
        assert(address & 0xFFF == address % 4096) by (bit_vector);
        self.bytes[address & 0xFFF] = value;
    }

    /// Replaces the whole address space by the image of `rom`.
    pub fn load(&mut self, rom: &Vec<u8>)
        ensures
            final(self)@ == program_image(rom@),
    {
        let mut bytes: Vec<u8> = Vec::new();
        let mut k: usize = 0;
        while k < MEMORY_SIZE
            invariant
                k <= MEMORY_SIZE,
                bytes@.len() == k,
                forall|j: int| 0 <= j < k ==> bytes@[j] == program_image(rom@)[j],
            decreases MEMORY_SIZE - k,
        {
            let byte = if k >= PROGRAM_START && k - PROGRAM_START < rom.len() {
                rom[k - PROGRAM_START]
            } else {
                0
            };
            bytes.push(byte);
            k += 1;
        }
        self.bytes = bytes;
    }

    /// Writes the font table over the first `FONT_SIZE` bytes.
    pub fn install_font(&mut self)
        ensures
            final(self)@ == with_font(old(self)@),
    {
        proof {
            use_type_invariant(&*self);
        }
        let mut k: usize = 0;
        while k < FONT_SIZE
            invariant
                k <= FONT_SIZE,
                self.bytes@.len() == MEMORY_SIZE,
                forall|j: int| 0 <= j < k ==> self.bytes@[j] == FONT[j],
                forall|j: int| k <= j < MEMORY_SIZE ==> self.bytes@[j] == old(self).bytes@[j],
            decreases FONT_SIZE - k,
        {
            self.bytes[k] = FONT[k];
            k += 1;
        }
    }
}

} // verus!
