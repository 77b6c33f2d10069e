//! The machine's memory and the glyphs of the sixteen hexadecimal digits
//! that it holds from address 0.

use vstd::prelude::*;

verus! {

/// Number of bytes of memory.
pub const RAM_SIZE: usize = 0x1000;

/// Number of return addresses that the stack holds.
pub const STACK_SIZE: usize = 16;

/// Number of general registers.
pub const NUM_REGISTERS: usize = 16;

/// Address from which programs keep their own data.
pub const MEM_PROGRAM_START: u16 = 0x200;

/// Number of bytes of one glyph.
pub const GLYPH_SIZE: usize = 5;

/// Number of bytes of all sixteen glyphs.
pub const FONT_SIZE: usize = 80;

/// The glyphs of the digits `0` to `F`, five rows each, the pixels of a row
/// in the high four bits.
pub const FONT: [u8; 80] = [
    0xF0, 0x90, 0x90, 0x90, 0xF0,
    0x20, 0x60, 0x20, 0x20, 0x70,
    0xF0, 0x10, 0xF0, 0x80, 0xF0,
    0xF0, 0x10, 0xF0, 0x10, 0xF0,
    0x90, 0x90, 0xF0, 0x10, 0x10,
    0xF0, 0x80, 0xF0, 0x10, 0xF0,
    0xF0, 0x80, 0xF0, 0x90, 0xF0,
    0xF0, 0x10, 0x20, 0x40, 0x40,
    0xF0, 0x90, 0xF0, 0x90, 0xF0,
    0xF0, 0x90, 0xF0, 0x10, 0xF0,
    0xF0, 0x90, 0xF0, 0x90, 0x90,
    0xE0, 0x90, 0xE0, 0x90, 0xE0,
    0xF0, 0x80, 0x80, 0x80, 0xF0,
    0xE0, 0x90, 0x90, 0x90, 0xE0,
    0xF0, 0x80, 0xF0, 0x80, 0xF0,
    0xF0, 0x80, 0xF0, 0x80, 0x80,
];

/// Address of the first byte of the glyph of `d`.
pub open spec fn glyph_address(d: u8) -> int {
    5 * d
}

/// Memory as a new machine holds it: the glyphs from address 0, zero after
/// them.
pub open spec fn initial_memory() -> Seq<u8> {
    Seq::new(RAM_SIZE as nat, |a: int| if a < FONT_SIZE { FONT@[a] } else { 0u8 })
}

/// Address of the first byte of the glyph of `d`.
pub fn digit(d: u8) -> (addr: usize)
    ensures
        addr == glyph_address(d),
{
    (d as usize) * GLYPH_SIZE
}

/// Memory with the glyphs in place and zero everywhere else.
pub fn create_memory() -> (memory: [u8; RAM_SIZE])
    ensures
        memory@ == initial_memory(),
{
    let mut memory = [0u8; RAM_SIZE];
    let mut a: usize = 0;
    while a < FONT_SIZE
        invariant
            a <= FONT_SIZE,
            forall|b: int| 0 <= b < RAM_SIZE ==> memory@[b] == (if b < a { FONT@[b] } else { 0u8 }),
        decreases FONT_SIZE - a,
    {
        memory[a] = FONT[a];
        a += 1;
    }
    assert(memory@ =~= initial_memory());
    memory
}

/// A stack of zeros.
pub fn create_stack() -> (stack: [u16; STACK_SIZE])
    ensures
        stack@ == Seq::new(STACK_SIZE as nat, |k: int| 0u16),
{
    let stack = [0u16; STACK_SIZE];
    assert(stack@ =~= Seq::new(STACK_SIZE as nat, |k: int| 0u16));
    stack
}

/// A display without a lit pixel.
pub fn create_display() -> (display: [u64; 32])
    ensures
        display@ == Seq::new(32, |k: int| 0u64),
{
    let display = [0u64; 32];
    assert(display@ =~= Seq::new(32, |k: int| 0u64));
    display
}

/// Registers that all hold zero.
pub fn create_gen_registers() -> (registers: [u8; NUM_REGISTERS])
    ensures
        registers@ == Seq::new(NUM_REGISTERS as nat, |k: int| 0u8),
{
    let registers = [0u8; NUM_REGISTERS];
    assert(registers@ =~= Seq::new(NUM_REGISTERS as nat, |k: int| 0u8));
    registers
}

/// The glyph of each digit lies within the first 80 bytes of memory, and its
/// rows are those of the font table.
pub proof fn lemma_glyph_in_memory(d: u8, row: int)
    requires
        d < 16,
        0 <= row < 5,
    ensures
        0 <= glyph_address(d) + row < FONT_SIZE,
        initial_memory()[glyph_address(d) + row] == FONT@[5 * d + row],
{
}

} // verus!
