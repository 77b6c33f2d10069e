//! The machine as a mathematical value, and what one instruction makes of it.

use vstd::prelude::*;

use crate::fault::Fault;
use crate::instruction::Instruction;
use crate::keys::Key;
use crate::memory::initial_memory;
use crate::sprite::{row_collides, sprite_mask};

verus! {

/// Everything that an instruction can read or change.
#[verifier::ext_equal]
pub struct State {
    /// 4096 bytes.
    pub memory: Seq<u8>,
    /// 16 return addresses; slot 0 is never used.
    pub stack: Seq<u16>,
    /// 32 rows of 64 pixels, bit 63 of a row being its leftmost pixel.
    pub display: Seq<u64>,
    /// `V0` to `VF`.
    pub registers: Seq<u8>,
    /// The index register `I`.
    pub i: u16,
    /// The program counter, counted in instructions.
    pub pc: u16,
    /// The stack pointer: the slot of the newest return address.
    pub sp: u8,
    /// The delay timer.
    pub delay: u8,
    /// The sound timer.
    pub sound: u8,
}

/// What reaches a step from outside the machine. An instruction reads at most
/// one of the three, and most read none.
#[derive(Copy, Clone, Debug)]
pub struct Input {
    /// The random byte that `RND` masks.
    pub random: u8,
    /// Whether the key that `SKP` or `SKNP` asks about is down.
    pub pressed: bool,
    /// The key whose press ended the wait of `LD Vx, K`.
    pub key: Key,
}

impl Input {
    /// The input of a step that reads nothing from outside: a zero byte, no
    /// key down, key 0.
    pub fn none() -> (input: Input)
        ensures
            input == (Input { random: 0, pressed: false, key: Key::Key0 }),
    {
        Input { random: 0, pressed: false, key: Key::Key0 }
    }
}

impl State {
    /// The arrays have the sizes of the machine.
    pub open spec fn well_formed(self) -> bool {
        &&& self.memory.len() == 4096
        &&& self.stack.len() == 16
        &&& self.display.len() == 32
        &&& self.registers.len() == 16
    }

    /// The value of register `x`.
    pub open spec fn reg(self, x: u8) -> u8 {
        self.registers[x as int]
    }

    /// The state with `value` in register `x`.
    pub open spec fn with_reg(self, x: u8, value: u8) -> State {
        State { registers: self.registers.update(x as int, value), ..self }
    }

    /// The state with `flag` in `VF` and then `value` in register `x`. Where
    /// `x` is 15 the register ends up holding `value`.
    pub open spec fn with_flag_and_reg(self, flag: u8, x: u8, value: u8) -> State {
        self.with_reg(0xF, flag).with_reg(x, value)
    }

    /// The program counter moved on by `by` instructions. It cannot pass
    /// `0xFFFF`.
    pub open spec fn advance(self, by: int) -> Result<State, Fault> {
        if self.pc + by > 0xFFFF {
            Err(Fault::Address)
        } else {
            Ok(State { pc: (self.pc + by) as u16, ..self })
        }
    }

    /// Past the next instruction if `skip` holds, to the next one otherwise.
    pub open spec fn skip_if(self, skip: bool) -> Result<State, Fault> {
        self.advance(
            if skip {
                2
            } else {
                1
            },
        )
    }

    /// `RET`: the program counter comes from the slot that the stack pointer
    /// names, and the stack pointer moves down. There is no step to the next
    /// instruction. An empty stack is a stack fault; a stack pointer that
    /// names no slot is an address fault.
    pub open spec fn ret(self) -> Result<State, Fault> {
        if self.sp == 0 {
            Err(Fault::Stack)
        } else if self.sp >= 16 {
            Err(Fault::Address)
        } else {
            Ok(State { pc: self.stack[self.sp as int], sp: (self.sp - 1) as u8, ..self })
        }
    }

    /// `CALL addr`: the stack pointer moves up, the program counter goes into
    /// the slot it names, and execution continues at `addr`. With the stack
    /// pointer at 15 or beyond there is no slot left: a stack fault.
    pub open spec fn call(self, addr: u16) -> Result<State, Fault> {
        if self.sp >= 15 {
            Err(Fault::Stack)
        } else {
            Ok(
                State {
                    sp: (self.sp + 1) as u8,
                    stack: self.stack.update(self.sp + 1, self.pc),
                    pc: addr,
                    ..self
                },
            )
        }
    }

    /// `JP V0, addr`: execution continues at `addr + V0`, which must not pass
    /// `0xFFFF`.
    pub open spec fn jump_offset(self, addr: u16) -> Result<State, Fault> {
        if addr + self.reg(0) > 0xFFFF {
            Err(Fault::Address)
        } else {
            Ok(State { pc: (addr + self.reg(0)) as u16, ..self })
        }
    }

    /// Whether the sprite of `n` rows that `I` points at can be drawn with its
    /// top row in display row `top`: every byte of it is in memory and every
    /// row it touches is on the display.
    pub open spec fn sprite_fits(self, top: u8, n: u8) -> bool {
        n == 0 || (self.i + n <= 4096 && top + n <= 32)
    }

    /// The mask of row `k` of the sprite that `I` points at, drawn at column
    /// `left`.
    pub open spec fn sprite_row(self, left: u8, k: int) -> u64 {
        sprite_mask(self.memory[self.i + k], left)
    }

    /// Display row `r` after the sprite was laid over the display.
    pub open spec fn drawn_row(self, left: u8, top: u8, n: u8, r: int) -> u64 {
        if top <= r < top + n {
            self.display[r] ^ self.sprite_row(left, r - top)
        } else {
            self.display[r]
        }
    }

    /// The display after the sprite was laid over it.
    pub open spec fn drawn(self, left: u8, top: u8, n: u8) -> Seq<u64> {
        Seq::new(32, |r: int| self.drawn_row(left, top, n, r))
    }

    /// Whether some row of the sprite turns a lit pixel off.
    pub open spec fn collides(self, left: u8, top: u8, n: u8) -> bool {
        exists|k: int| 0 <= k < n && #[trigger] self.row_hit(left, top, k)
    }

    /// Whether row `k` of the sprite turns a lit pixel off.
    pub open spec fn row_hit(self, left: u8, top: u8, k: int) -> bool {
        row_collides(self.display[top + k], self.sprite_row(left, k))
    }

    /// `DRW Vx, Vy, n`: the sprite is laid over the display, `VF` tells
    /// whether a lit pixel went off, and the program counter moves on. A
    /// sprite that does not fit is an address fault.
    pub open spec fn draw(self, x: u8, y: u8, n: u8) -> Result<State, Fault> {
        if x >= 16 || y >= 16 {
            Err(Fault::Address)
        } else if !self.sprite_fits(self.reg(y), n) {
            Err(Fault::Address)
        } else {
            let flag: u8 = if self.collides(self.reg(x), self.reg(y), n) {
                1
            } else {
                0
            };
            State { display: self.drawn(self.reg(x), self.reg(y), n), ..self }.with_reg(
                0xF,
                flag,
            ).advance(1)
        }
    }

    /// An instruction that reads `Vx`, writes a flag to `VF` and then a value
    /// to `Vx`, and goes on to the next instruction.
    pub open spec fn flagged(self, x: u8, flag: u8, value: u8) -> Result<State, Fault> {
        self.with_flag_and_reg(flag, x, value).advance(1)
    }
}

/// The display with every pixel off.
pub open spec fn blank_display() -> Seq<u64> {
    Seq::new(32, |r: int| 0u64)
}

/// The state of a new machine: the glyphs in memory and zero everywhere else.
pub open spec fn initial_state() -> State {
    State {
        memory: initial_memory(),
        stack: Seq::new(16, |k: int| 0u16),
        display: blank_display(),
        registers: Seq::new(16, |k: int| 0u8),
        i: 0,
        pc: 0,
        sp: 0,
        delay: 0,
        sound: 0,
    }
}

/// One if the condition holds, zero if not.
pub open spec fn flag_of(condition: bool) -> u8 {
    if condition {
        1
    } else {
        0
    }
}

/// The larger of two bytes less the smaller.
pub open spec fn distance(a: u8, b: u8) -> u8 {
    if a > b {
        (a - b) as u8
    } else {
        (b - a) as u8
    }
}

/// Whether an instruction reads something from outside the machine: `RND` a
/// random byte, `SKP` and `SKNP` the state of a key, `LD Vx, K` a key press.
pub open spec fn reads_input(instr: Instruction) -> bool {
    instr is RND || instr is SKP || instr is SKNP || instr is LD4
}

/// The key whose state `SKP` or `SKNP` asks for: the one numbered by `Vx`.
/// There is none where the register or the key number is out of range, nor
/// for any other instruction.
pub open spec fn asked_key(s: State, instr: Instruction) -> Option<Key> {
    match instr {
        Instruction::SKP(x) | Instruction::SKNP(x) => if x < 16 {
            Key::with_code(s.reg(x))
        } else {
            None
        },
        _ => None,
    }
}

/// Whether `LD Vx, K` has to wait for a key: it does unless the step is
/// refused whatever key comes.
pub open spec fn awaits_key(s: State, instr: Instruction) -> bool {
    instr matches Instruction::LD4(x) && x < 16 && s.pc < 0xFFFF
}

/// The state after `instr`, or the fault that refuses it.
///
/// The program counter counts instructions: it goes up by one, by two where
/// an instruction skips, and jumps, calls and returns set it outright. An
/// instruction that sets the flag writes `VF` first and its result second.
/// `SUB` sets the flag where `Vx` is strictly the larger and `SUBN` where `Vy`
/// is; both leave the distance of the two in `Vx`. `SHR` and `SHL` move the
/// bit that drops out into the flag. `LD F, Vx` goes by the low four bits of
/// `Vx`, so that every value names a glyph. A register number from 16 on is
/// an address fault, and so is a program counter that would pass `0xFFFF`.
pub open spec fn step(s: State, instr: Instruction, input: Input) -> Result<State, Fault> {
    match instr {
        Instruction::SYS(_) => s.advance(1),
        Instruction::CLS => State { display: blank_display(), ..s }.advance(1),
        Instruction::RET => s.ret(),
        Instruction::JP(addr) => Ok(State { pc: addr, ..s }),
        Instruction::CALL(addr) => s.call(addr),
        Instruction::SE(x, byte) => if x >= 16 {
            Err(Fault::Address)
        } else {
            s.skip_if(s.reg(x) == byte)
        },
        Instruction::SNE(x, byte) => if x >= 16 {
            Err(Fault::Address)
        } else {
            s.skip_if(s.reg(x) != byte)
        },
        Instruction::SE2(x, y) => if x >= 16 || y >= 16 {
            Err(Fault::Address)
        } else {
            s.skip_if(s.reg(x) == s.reg(y))
        },
        Instruction::SNE2(x, y) => if x >= 16 || y >= 16 {
            Err(Fault::Address)
        } else {
            s.skip_if(s.reg(x) != s.reg(y))
        },
        Instruction::LD(x, byte) => if x >= 16 {
            Err(Fault::Address)
        } else {
            s.with_reg(x, byte).advance(1)
        },
        Instruction::ADD(x, byte) => if x >= 16 {
            Err(Fault::Address)
        } else {
            s.with_reg(x, ((s.reg(x) + byte) % 256) as u8).advance(1)
        },
        Instruction::LD2(x, y) => if x >= 16 || y >= 16 {
            Err(Fault::Address)
        } else {
            s.with_reg(x, s.reg(y)).advance(1)
        },
        Instruction::OR(x, y) => if x >= 16 || y >= 16 {
            Err(Fault::Address)
        } else {
            s.with_reg(x, s.reg(x) | s.reg(y)).advance(1)
        },
        Instruction::AND(x, y) => if x >= 16 || y >= 16 {
            Err(Fault::Address)
        } else {
            s.with_reg(x, s.reg(x) & s.reg(y)).advance(1)
        },
        Instruction::XOR(x, y) => if x >= 16 || y >= 16 {
            Err(Fault::Address)
        } else {
            s.with_reg(x, s.reg(x) ^ s.reg(y)).advance(1)
        },
        Instruction::ADD2(x, y) => if x >= 16 || y >= 16 {
            Err(Fault::Address)
        } else {
            s.flagged(
                x,
                flag_of(s.reg(x) + s.reg(y) > 255),
                ((s.reg(x) + s.reg(y)) % 256) as u8,
            )
        },
        Instruction::SUB(x, y) => if x >= 16 || y >= 16 {
            Err(Fault::Address)
        } else {
            s.flagged(x, flag_of(s.reg(x) > s.reg(y)), distance(s.reg(x), s.reg(y)))
        },
        Instruction::SUBN(x, y) => if x >= 16 || y >= 16 {
            Err(Fault::Address)
        } else {
            s.flagged(x, flag_of(s.reg(y) > s.reg(x)), distance(s.reg(x), s.reg(y)))
        },
        Instruction::SHR(x, _) => if x >= 16 {
            Err(Fault::Address)
        } else {
            s.flagged(x, s.reg(x) % 2, s.reg(x) / 2)
        },
        Instruction::SHL(x, _) => if x >= 16 {
            Err(Fault::Address)
        } else {
            s.flagged(x, flag_of(s.reg(x) >= 128), ((s.reg(x) * 2) % 256) as u8)
        },
        Instruction::LDI(addr) => State { i: addr, ..s }.advance(1),
        Instruction::JPV0(addr) => s.jump_offset(addr),
        Instruction::RND(x, byte) => if x >= 16 {
            Err(Fault::Address)
        } else {
            s.with_reg(x, input.random & byte).advance(1)
        },
        Instruction::DRW(x, y, n) => s.draw(x, y, n),
        Instruction::SKP(x) => if x >= 16 {
            Err(Fault::Address)
        } else if s.reg(x) >= 16 {
            Err(Fault::UnknownKey)
        } else {
            s.skip_if(input.pressed)
        },
        Instruction::SKNP(x) => if x >= 16 {
            Err(Fault::Address)
        } else if s.reg(x) >= 16 {
            Err(Fault::UnknownKey)
        } else {
            s.skip_if(!input.pressed)
        },
        Instruction::LD3(x) => if x >= 16 {
            Err(Fault::Address)
        } else {
            s.with_reg(x, s.delay).advance(1)
        },
        Instruction::LD4(x) => if x >= 16 {
            Err(Fault::Address)
        } else {
            s.with_reg(x, input.key.code()).advance(1)
        },
        Instruction::LD5(x) => if x >= 16 {
            Err(Fault::Address)
        } else {
            State { delay: s.reg(x), ..s }.advance(1)
        },
        Instruction::LD6(x) => if x >= 16 {
            Err(Fault::Address)
        } else {
            State { sound: s.reg(x), ..s }.advance(1)
        },
        Instruction::ADD3(x) => if x >= 16 {
            Err(Fault::Address)
        } else {
            State { i: ((s.i + s.reg(x)) % 0x10000) as u16, ..s }.advance(1)
        },
        Instruction::LD7(x) => if x >= 16 {
            Err(Fault::Address)
        } else {
            State { i: (5 * (s.reg(x) % 16)) as u16, ..s }.advance(1)
        },
    }
}

/// How the answer of a step and the machine after it follow from what the
/// step should make of the machine before it: on success the machine is in the
/// next state, on a fault it is untouched.
pub open spec fn settles(
    before: State,
    target: Result<State, Fault>,
    result: Result<(), Fault>,
    after: State,
) -> bool {
    match target {
        Ok(next) => result is Ok && after == next,
        Err(fault) => result == Err::<(), Fault>(fault) && after == before,
    }
}

/// The answer `result` and the machine `after` are what executing `instr`
/// on the machine `before` gives when `input` comes from outside.
pub open spec fn outcome(
    before: State,
    instr: Instruction,
    input: Input,
    result: Result<(), Fault>,
    after: State,
) -> bool {
    settles(before, step(before, instr, input), result, after)
}

} // verus!
