//! Properties of a step that hold of every machine.

use vstd::prelude::*;

use crate::fault::Fault;
use crate::instruction::Instruction;
use crate::sprite::lemma_xor_twice;
use crate::sprite::{lemma_mask_pixel, lemma_xor_pixel, pixel, sprite_bit};
use crate::state::{blank_display, outcome, reads_input, step, Input, State};

verus! {

/// An instruction that reads nothing from outside does the same whatever the
/// input holds.
pub proof fn lemma_input_unread(s: State, instr: Instruction, a: Input, b: Input)
    requires
        !reads_input(instr),
    ensures
        step(s, instr, a) == step(s, instr, b),
{
}

/// Moving the program counter keeps the sizes of the arrays.
proof fn lemma_advance_keeps_shape(s: State, by: int)
    requires
        s.well_formed(),
    ensures
        s.advance(by) matches Ok(next) ==> next.well_formed(),
{
}

/// A step keeps the sizes of the arrays.
pub proof fn lemma_step_keeps_shape(s: State, instr: Instruction, input: Input)
    requires
        s.well_formed(),
    ensures
        step(s, instr, input) matches Ok(next) ==> next.well_formed(),
{
    if instr is CLS {
        lemma_advance_keeps_shape(State { display: blank_display(), ..s }, 1);
    }
}

/// No instruction writes to memory.
pub proof fn lemma_memory_is_kept(s: State, instr: Instruction, input: Input)
    ensures
        step(s, instr, input) matches Ok(next) ==> next.memory == s.memory,
{
}

/// A stack pointer that names a slot of the stack still does so after a
/// step.
pub proof fn lemma_stack_pointer_in_range(s: State, instr: Instruction, input: Input)
    requires
        s.sp < 16,
    ensures
        step(s, instr, input) matches Ok(next) ==> next.sp < 16,
{
}

/// Only `ADD Vx, Vy`, `SUB`, `SUBN`, `SHR`, `SHL` and `DRW` write to `VF` of
/// their own accord: after any other instruction whose target register is
/// not `VF` itself, `VF` holds what it held. `ADD Vx, byte` in particular sets
/// no carry.
pub proof fn lemma_flag_is_kept(s: State, instr: Instruction, input: Input)
    requires
        s.well_formed(),
        !writes_flag(instr),
        target_register(instr) != Some(0xFu8),
    ensures
        step(s, instr, input) matches Ok(next) ==> next.reg(0xF) == s.reg(0xF),
{
}

/// Whether an instruction sets the flag register as part of what it does.
pub open spec fn writes_flag(instr: Instruction) -> bool {
    instr is ADD2 || instr is SUB || instr is SUBN || instr is SHR || instr is SHL || instr is DRW
}

/// The register that an instruction writes its result to, if it writes one.
pub open spec fn target_register(instr: Instruction) -> Option<u8> {
    match instr {
        Instruction::LD(x, _)
        | Instruction::ADD(x, _)
        | Instruction::LD2(x, _)
        | Instruction::OR(x, _)
        | Instruction::AND(x, _)
        | Instruction::XOR(x, _)
        | Instruction::ADD2(x, _)
        | Instruction::SUB(x, _)
        | Instruction::SHR(x, _)
        | Instruction::SUBN(x, _)
        | Instruction::SHL(x, _)
        | Instruction::RND(x, _)
        | Instruction::LD3(x)
        | Instruction::LD4(x) => Some(x),
        _ => None,
    }
}

/// A step that is refused changes nothing, and a refused `execute` reports
/// the fault of the step.
pub proof fn lemma_fault_leaves_the_machine(
    before: State,
    instr: Instruction,
    input: Input,
    result: Result<(), Fault>,
    after: State,
)
    requires
        outcome(before, instr, input, result, after),
    ensures
        result is Err <==> step(before, instr, input) is Err,
        result is Err ==> after == before && Err::<State, Fault>(result->Err_0) == step(
            before,
            instr,
            input,
        ),
        result is Ok ==> Ok::<State, Fault>(after) == step(before, instr, input),
{
}

/// Where a step succeeds, the program counter is set by a jump, a call or a
/// return, goes up by one or two after an instruction that may skip, and goes
/// up by exactly one after every other instruction.
pub proof fn lemma_program_counter(s: State, instr: Instruction, input: Input)
    requires
        step(s, instr, input) is Ok,
    ensures
        ({
            let next = step(s, instr, input)->Ok_0;
            match instr {
                Instruction::JP(addr) => next.pc == addr,
                Instruction::CALL(addr) => next.pc == addr,
                Instruction::RET => next.pc == s.stack[s.sp as int],
                Instruction::JPV0(addr) => next.pc == addr + s.reg(0),
                Instruction::SE(_, _)
                | Instruction::SNE(_, _)
                | Instruction::SE2(_, _)
                | Instruction::SNE2(_, _)
                | Instruction::SKP(_)
                | Instruction::SKNP(_) => next.pc == s.pc + 1 || next.pc == s.pc + 2,
                _ => next.pc == s.pc + 1,
            }
        }),
{
}

/// `RET` with an empty stack is refused as a stack fault, and `CALL` with a
/// full one; neither moves the stack pointer.
pub proof fn lemma_stack_discipline(s: State, addr: u16, input: Input)
    requires
        s.well_formed(),
    ensures
        s.sp == 0 ==> step(s, Instruction::RET, input) == Err::<State, Fault>(
            Fault::Stack,
        ),
        s.sp >= 15 ==> step(s, Instruction::CALL(addr), input) == Err::<State, Fault>(
            Fault::Stack,
        ),
        step(s, Instruction::CALL(addr), input) matches Ok(next) ==> next.sp == s.sp + 1
            && next.sp < 16 && next.stack[next.sp as int] == s.pc,
        step(s, Instruction::RET, input) matches Ok(next) ==> next.sp == s.sp - 1,
{
}

/// A return undoes the call before it but for the program counter, which
/// comes back to where the call was made.
pub proof fn lemma_call_then_return(s: State, addr: u16, input: Input)
    requires
        s.well_formed(),
        step(s, Instruction::CALL(addr), input) is Ok,
    ensures
        ({
            let called = step(s, Instruction::CALL(addr), input)->Ok_0;
            &&& step(called, Instruction::RET, input) matches Ok(back)
            &&& back.pc == s.pc
            &&& back.sp == s.sp
            &&& back.registers == s.registers
            &&& back.memory == s.memory
            &&& back.display == s.display
        }),
{
}

/// Drawing the same sprite twice in the same place gives the display back.
/// The two register operands must not be `VF`, which the first drawing
/// overwrites.
pub proof fn lemma_draw_twice_restores(s: State, x: u8, y: u8, n: u8, input: Input)
    requires
        s.well_formed(),
        x < 15,
        y < 15,
        step(s, Instruction::DRW(x, y, n), input) is Ok,
        step(step(s, Instruction::DRW(x, y, n), input)->Ok_0, Instruction::DRW(x, y, n), input)
            is Ok,
    ensures
        ({
            let once = step(s, Instruction::DRW(x, y, n), input)->Ok_0;
            let twice = step(once, Instruction::DRW(x, y, n), input)->Ok_0;
            &&& twice.display == s.display
            &&& twice.memory == s.memory
            &&& twice.pc == s.pc + 2
        }),
{
    let left = s.reg(x);
    let top = s.reg(y);
    let once = step(s, Instruction::DRW(x, y, n), input)->Ok_0;
    let twice = step(once, Instruction::DRW(x, y, n), input)->Ok_0;
    assert(once.reg(x) == left && once.reg(y) == top);
    assert forall|r: int| 0 <= r < 32 implies twice.display[r] == s.display[r] by {
        if top <= r < top + n {
            lemma_xor_twice(s.display[r], s.sprite_row(left, r - top));
            assert(once.display[r] == s.drawn_row(left, top, n, r));
            assert(once.sprite_row(left, r - top) == s.sprite_row(left, r - top));
            assert(twice.display[r] == once.drawn_row(left, top, n, r));
        } else {
            assert(once.display[r] == s.drawn_row(left, top, n, r));
            assert(twice.display[r] == once.drawn_row(left, top, n, r));
        }
    }
    assert(twice.display =~= s.display);
}

/// A sprite drawn on blank rows collides with nothing and leaves `VF` at 0;
/// drawn there once more it clears the rows again and, having at least one
/// pixel on the display, sets `VF` to 1.
pub proof fn lemma_draw_twice_on_blank(s: State, x: u8, y: u8, n: u8, input: Input)
    requires
        s.well_formed(),
        x < 15,
        y < 15,
        step(s, Instruction::DRW(x, y, n), input) is Ok,
        step(step(s, Instruction::DRW(x, y, n), input)->Ok_0, Instruction::DRW(x, y, n), input)
            is Ok,
        forall|k: int| 0 <= k < n ==> #[trigger] s.display[s.reg(y) + k] == 0,
        exists|k: int| 0 <= k < n && #[trigger] s.sprite_row(s.reg(x), k) != 0,
    ensures
        ({
            let once = step(s, Instruction::DRW(x, y, n), input)->Ok_0;
            let twice = step(once, Instruction::DRW(x, y, n), input)->Ok_0;
            &&& once.reg(0xF) == 0
            &&& twice.reg(0xF) == 1
            &&& twice.display == s.display
            &&& forall|k: int| 0 <= k < n ==> #[trigger] twice.display[s.reg(y) + k] == 0
        }),
{
    let left = s.reg(x);
    let top = s.reg(y);
    let once = step(s, Instruction::DRW(x, y, n), input)->Ok_0;
    let twice = step(once, Instruction::DRW(x, y, n), input)->Ok_0;
    lemma_draw_twice_restores(s, x, y, n, input);
    assert(once.reg(x) == left && once.reg(y) == top);
    assert forall|k: int| 0 <= k < n implies !#[trigger] s.row_hit(left, top, k) by {
        let mask = s.sprite_row(left, k);
        assert(s.display[top + k] == 0);
        assert(mask & (0u64 ^ mask) == mask) by (bit_vector);
    }
    assert(!s.collides(left, top, n));
    let lit = choose|k: int| 0 <= k < n && #[trigger] s.sprite_row(left, k) != 0;
    let mask = s.sprite_row(left, lit);
    assert(once.display[top + lit] == s.drawn_row(left, top, n, top + lit));
    assert(once.sprite_row(left, lit) == mask);
    assert(s.display[top + lit] == 0);
    assert(mask != 0 ==> mask & ((0u64 ^ mask) ^ mask) != mask) by (bit_vector);
    assert(once.row_hit(left, top, lit));
    assert(once.collides(left, top, n));
}

/// The flag of `SHR` is the lowest bit of the register and its result the
/// register shifted right; the flag of `SHL` is the highest bit and its
/// result the register shifted left within eight bits.
pub proof fn lemma_shift_bits(s: State, x: u8, y: u8, input: Input)
    requires
        s.well_formed(),
        x < 15,
    ensures
        step(s, Instruction::SHR(x, y), input) matches Ok(next) ==> next.reg(0xF) == s.reg(x) & 1
            && next.reg(x) == s.reg(x) >> 1,
        step(s, Instruction::SHL(x, y), input) matches Ok(next) ==> next.reg(0xF) == (s.reg(x)
            >> 7) && next.reg(x) == s.reg(x) << 1,
{
    let vx = s.reg(x);
    assert(vx & 1 == vx % 2 && vx >> 1 == vx / 2) by (bit_vector);
    assert(vx >> 7 == (if vx >= 128 { 1u8 } else { 0u8 }) && vx << 1 == (vx * 2) % 256)
        by (bit_vector);
}

/// What a drawing does pixel by pixel: within the rows of the sprite a pixel
/// of the display changes exactly where the sprite has a pixel, and the
/// pixels of a sprite byte lie in the eight columns from `Vx` on, the highest
/// bit leftmost. Rows outside the sprite stay as they were.
pub proof fn lemma_draw_pixels(s: State, x: u8, y: u8, n: u8, input: Input, row: int, col: int)
    requires
        s.well_formed(),
        step(s, Instruction::DRW(x, y, n), input) is Ok,
        0 <= row < 32,
        0 <= col < 64,
    ensures
        ({
            let next = step(s, Instruction::DRW(x, y, n), input)->Ok_0;
            let left = s.reg(x);
            let top = s.reg(y);
            if top <= row < top + n {
                pixel(next.display[row], col) == (pixel(s.display[row], col) != (left <= col
                    && sprite_bit(s.memory[s.i + (row - top)], col - left)))
            } else {
                next.display[row] == s.display[row]
            }
        }),
{
    let next = step(s, Instruction::DRW(x, y, n), input)->Ok_0;
    let left = s.reg(x);
    let top = s.reg(y);
    assert(next.display[row] == s.drawn_row(left, top, n, row));
    if top <= row < top + n {
        let sprite = s.memory[s.i + (row - top)];
        lemma_xor_pixel(s.display[row], s.sprite_row(left, row - top), col);
        lemma_mask_pixel(sprite, left, col as u8);
    }
}

} // verus!
