//! The decoded instructions that the machine executes.

use vstd::prelude::*;

verus! {

/// One decoded instruction. Register operands are register numbers, `u16`
/// operands are addresses, the other `u8` operands are immediate bytes or a
/// row count.
#[derive(Copy, Clone, PartialEq, Eq, Structural, Debug)]
pub enum Instruction {
    /// `SYS addr`: ignored.
    SYS(u16),
    /// `CLS`: clear the display.
    CLS,
    /// `RET`: return from a subroutine.
    RET,
    /// `JP addr`: jump.
    JP(u16),
    /// `CALL addr`: call a subroutine.
    CALL(u16),
    /// `SE Vx, byte`: skip the next instruction if `Vx == byte`.
    SE(u8, u8),
    /// `SNE Vx, byte`: skip the next instruction if `Vx != byte`.
    SNE(u8, u8),
    /// `SE Vx, Vy`: skip the next instruction if `Vx == Vy`.
    SE2(u8, u8),
    /// `LD Vx, byte`.
    LD(u8, u8),
    /// `ADD Vx, byte`: add without touching the flag register.
    ADD(u8, u8),
    /// `LD Vx, Vy`.
    LD2(u8, u8),
    /// `OR Vx, Vy`.
    OR(u8, u8),
    /// `AND Vx, Vy`.
    AND(u8, u8),
    /// `XOR Vx, Vy`.
    XOR(u8, u8),
    /// `ADD Vx, Vy`: add with carry in `VF`.
    ADD2(u8, u8),
    /// `SUB Vx, Vy`.
    SUB(u8, u8),
    /// `SHR Vx`: the second operand is ignored.
    SHR(u8, u8),
    /// `SUBN Vx, Vy`.
    SUBN(u8, u8),
    /// `SHL Vx`: the second operand is ignored.
    SHL(u8, u8),
    /// `SNE Vx, Vy`: skip the next instruction if `Vx != Vy`.
    SNE2(u8, u8),
    /// `LD I, addr`.
    LDI(u16),
    /// `JP V0, addr`: jump to `addr + V0`.
    JPV0(u16),
    /// `RND Vx, byte`: a random byte masked with `byte`.
    RND(u8, u8),
    /// `DRW Vx, Vy, n`: draw an `n`-row sprite at column `Vx`, row `Vy`.
    DRW(u8, u8, u8),
    /// `SKP Vx`: skip the next instruction if the key numbered `Vx` is down.
    SKP(u8),
    /// `SKNP Vx`: skip the next instruction if the key numbered `Vx` is up.
    SKNP(u8),
    /// `LD Vx, DT`: read the delay timer.
    LD3(u8),
    /// `LD Vx, K`: wait for a key press.
    LD4(u8),
    /// `LD DT, Vx`: set the delay timer.
    LD5(u8),
    /// `LD ST, Vx`: set the sound timer.
    LD6(u8),
    /// `ADD I, Vx`.
    ADD3(u8),
    /// `LD F, Vx`: point `I` at the glyph of a digit.
    LD7(u8),
}

/// A sequence of decoded instructions.
pub struct Program {
    pub instructions: Vec<Instruction>,
}

} // verus!
