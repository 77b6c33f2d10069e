//! The machine itself: its registers, memory, stack and display, and the
//! execution of one instruction at a time.

use vstd::prelude::*;

use crate::entropy::RandomSource;
use crate::fault::Fault;
use crate::instruction::Instruction;
use crate::keyboard::Keyboard;
use crate::keys::Key;
use crate::memory::{
    create_display, create_gen_registers, create_memory, create_stack, digit, NUM_REGISTERS,
    RAM_SIZE, STACK_SIZE,
};
use crate::sprite::create_sprite_mask;
use crate::state::{
    asked_key, awaits_key, blank_display, initial_state, outcome, reads_input, settles, Input,
    State,
};

verus! {

/// A CHIP-8 machine.
pub struct VM {
    /// 4096 bytes; the glyphs of the digits lie from address 0.
    pub memory: [u8; RAM_SIZE],
    /// Return addresses; slot 0 is never used.
    pub stack: [u16; STACK_SIZE],
    /// 32 rows of 64 pixels, bit 63 of a row being its leftmost pixel.
    pub display: [u64; 32],
    /// `V0` to `VF`.
    pub gen_registers: [u8; NUM_REGISTERS],
    /// The index register `I`.
    pub reg_i: u16,
    /// The program counter, counted in instructions.
    pub reg_pc: u16,
    /// The stack pointer.
    pub reg_sp: u8,
    /// The delay timer.
    pub reg_delay: u8,
    /// The sound timer.
    pub reg_sound: u8,
    /// Where `RND` gets its bytes.
    pub rng: RandomSource,
    /// The keypad that `SKP`, `SKNP` and `LD Vx, K` read.
    pub keyboard: Keyboard,
}

impl View for VM {
    type V = State;

    open spec fn view(&self) -> State {
        State {
            memory: self.memory@,
            stack: self.stack@,
            display: self.display@,
            registers: self.gen_registers@,
            i: self.reg_i,
            pc: self.reg_pc,
            sp: self.reg_sp,
            delay: self.reg_delay,
            sound: self.reg_sound,
        }
    }
}

impl VM {
    /// A machine with the glyphs in memory, everything else zero, the
    /// thread's random generator and a keyboard of its own with no key down.
    pub fn new() -> (vm: VM)
        ensures
            vm@ == initial_state(),
            vm.rng is Thread,
    {
        let vm = VM {
            memory: create_memory(),
            stack: create_stack(),
            display: create_display(),
            gen_registers: create_gen_registers(),
            reg_i: 0,
            reg_pc: 0,
            reg_sp: 0,
            reg_delay: 0,
            reg_sound: 0,
            rng: RandomSource::thread(),
            keyboard: Keyboard::new(),
        };
        assert(vm@ =~= initial_state());
        vm
    }

    /// Moves the program counter on by one instruction, or by two.
    fn skip(&mut self, skip: bool) -> (result: Result<(), Fault>)
        ensures
            settles(old(self)@, old(self)@.skip_if(skip), result, final(self)@),
    {
        let by: u16 = if skip {
            2
        } else {
            1
        };
        if self.reg_pc > 0xFFFF - by {
            return Err(Fault::Address);
        }
        self.reg_pc = self.reg_pc + by;
        assert(self@ =~= old(self)@.skip_if(skip)->Ok_0);
        Ok(())
    }

    /// Writes `value` to register `x` and goes on to the next instruction.
    fn load(&mut self, x: u8, value: u8) -> (result: Result<(), Fault>)
        requires
            x < 16,
        ensures
            settles(old(self)@, old(self)@.with_reg(x, value).advance(1), result, final(self)@),
    {
        if self.reg_pc == 0xFFFF {
            return Err(Fault::Address);
        }
        self.gen_registers[x as usize] = value;
        self.reg_pc = self.reg_pc + 1;
        assert(self@ =~= old(self)@.with_reg(x, value).advance(1)->Ok_0);
        Ok(())
    }

    /// Writes `flag` to `VF`, then `value` to register `x`, and goes on to the
    /// next instruction.
    fn load_flagged(&mut self, x: u8, flag: u8, value: u8) -> (result: Result<(), Fault>)
        requires
            x < 16,
        ensures
            settles(old(self)@, old(self)@.flagged(x, flag, value), result, final(self)@),
    {
        if self.reg_pc == 0xFFFF {
            return Err(Fault::Address);
        }
        self.gen_registers[0xF] = flag;
        self.gen_registers[x as usize] = value;
        self.reg_pc = self.reg_pc + 1;
        assert(self@ =~= old(self)@.flagged(x, flag, value)->Ok_0);
        Ok(())
    }

    /// Lays the sprite of `n` rows that `I` points at over the display, its
    /// leftmost pixel in column `Vx` and its top row in row `Vy`, and notes in
    /// `VF` whether a lit pixel went off.
    fn drw(
        &mut self,
        x: u8,
        y: u8,
        n: u8,
        Ghost(input): Ghost<Input>,
    ) -> (result: Result<(), Fault>)
        ensures
            outcome(old(self)@, Instruction::DRW(x, y, n), input, result, final(self)@),
    {
        if x >= 16 || y >= 16 {
            return Err(Fault::Address);
        }
        let left = self.gen_registers[x as usize];
        let top = self.gen_registers[y as usize];
        let start = self.reg_i as usize;
        if n > 0 && (start + n as usize > RAM_SIZE || top as usize + n as usize > 32) {
            return Err(Fault::Address);
        }
        if self.reg_pc == 0xFFFF {
            return Err(Fault::Address);
        }
        let ghost before = self@;
        let mut hit = false;
        let mut k: u8 = 0;
        while k < n
            invariant
                k <= n,
                n > 0 ==> start + n <= RAM_SIZE && top + n <= 32,
                start == before.i,
                before == old(self)@,
                left == before.reg(x),
                top == before.reg(y),
                self@ == (State { display: self.display@, ..before }),
                forall|r: int|
                    0 <= r < 32 ==> #[trigger] self.display@[r] == (if r < top + k {
                        before.drawn_row(left, top, n, r)
                    } else {
                        before.display[r]
                    }),
                hit <==> before.collides(left, top, k),
            decreases n - k,
        {
            let data = self.memory[start + k as usize];
            let mask = create_sprite_mask(data, left);
            let row = top as usize + k as usize;
            let under = self.display[row];
            let over = under ^ mask;
            assert(under == before.display[row as int]);
            assert(mask == before.sprite_row(left, k as int));
            assert(over == before.drawn_row(left, top, n, row as int));
            let ghost hit_before = hit;
            if mask & over != mask {
                hit = true;
            }
            proof {
                assert((mask & over != mask) == before.row_hit(left, top, k as int));
                if hit_before {
                    let j = choose|j: int| 0 <= j < k && #[trigger] before.row_hit(left, top, j);
                    assert(before.row_hit(left, top, j));
                }
                if before.collides(left, top, (k + 1) as u8) {
                    let j = choose|j: int|
                        0 <= j < k + 1 && #[trigger] before.row_hit(left, top, j);
                    if j < k {
                        assert(before.collides(left, top, k));
                    }
                }
            }
            self.display[row] = over;
            k += 1;
        }
        let flag: u8 = if hit {
            1
        } else {
            0
        };
        self.gen_registers[0xF] = flag;
        self.reg_pc = self.reg_pc + 1;
        assert(self.display@ =~= before.drawn(left, top, n));
        assert(self@ =~= before.draw(x, y, n)->Ok_0);
        Ok(())
    }

    /// `CLS`: turns every pixel off.
    fn cls(&mut self, Ghost(input): Ghost<Input>) -> (result: Result<(), Fault>)
        ensures
            outcome(old(self)@, Instruction::CLS, input, result, final(self)@),
    {
        if self.reg_pc == 0xFFFF {
            return Err(Fault::Address);
        }
        self.display = create_display();
        self.reg_pc = self.reg_pc + 1;
        assert(self@ =~= (State { display: blank_display(), ..old(self)@ }).advance(1)->Ok_0);
        Ok(())
    }

    /// `RET`: continues at the newest return address and drops it.
    fn ret(&mut self, Ghost(input): Ghost<Input>) -> (result: Result<(), Fault>)
        ensures
            outcome(old(self)@, Instruction::RET, input, result, final(self)@),
    {
        if self.reg_sp == 0 {
            return Err(Fault::Stack);
        }
        if self.reg_sp >= 16 {
            return Err(Fault::Address);
        }
        self.reg_pc = self.stack[self.reg_sp as usize];
        self.reg_sp = self.reg_sp - 1;
        assert(self@ =~= old(self)@.ret()->Ok_0);
        Ok(())
    }

    /// `JP addr`.
    fn jp(&mut self, addr: u16, Ghost(input): Ghost<Input>) -> (result: Result<(), Fault>)
        ensures
            outcome(old(self)@, Instruction::JP(addr), input, result, final(self)@),
    {
        self.reg_pc = addr;
        assert(self@ =~= (State { pc: addr, ..old(self)@ }));
        Ok(())
    }

    /// `CALL addr`: keeps the program counter on the stack and continues at
    /// `addr`.
    fn call(&mut self, addr: u16, Ghost(input): Ghost<Input>) -> (result: Result<(), Fault>)
        ensures
            outcome(old(self)@, Instruction::CALL(addr), input, result, final(self)@),
    {
        if self.reg_sp >= 15 {
            return Err(Fault::Stack);
        }
        self.reg_sp = self.reg_sp + 1;
        self.stack[self.reg_sp as usize] = self.reg_pc;
        self.reg_pc = addr;
        assert(self@ =~= old(self)@.call(addr)->Ok_0);
        Ok(())
    }

    /// `JP V0, addr`.
    fn jp_offset(&mut self, addr: u16, Ghost(input): Ghost<Input>) -> (result: Result<(), Fault>)
        ensures
            outcome(old(self)@, Instruction::JPV0(addr), input, result, final(self)@),
    {
        let target: u32 = addr as u32 + self.gen_registers[0] as u32;
        if target > 0xFFFF {
            return Err(Fault::Address);
        }
        self.reg_pc = target as u16;
        assert(self@ =~= old(self)@.jump_offset(addr)->Ok_0);
        Ok(())
    }

    /// Sets `I` and goes on to the next instruction.
    fn set_index(&mut self, addr: u16) -> (result: Result<(), Fault>)
        ensures
            settles(
                old(self)@,
                (State { i: addr, ..old(self)@ }).advance(1),
                result,
                final(self)@,
            ),
    {
        if self.reg_pc == 0xFFFF {
            return Err(Fault::Address);
        }
        self.reg_i = addr;
        self.reg_pc = self.reg_pc + 1;
        assert(self@ =~= (State { i: addr, ..old(self)@ }).advance(1)->Ok_0);
        Ok(())
    }

    /// `LD DT, Vx`.
    fn ld_delay(&mut self, x: u8, Ghost(input): Ghost<Input>) -> (result: Result<(), Fault>)
        ensures
            outcome(old(self)@, Instruction::LD5(x), input, result, final(self)@),
    {
        if x >= 16 || self.reg_pc == 0xFFFF {
            return Err(Fault::Address);
        }
        self.reg_delay = self.gen_registers[x as usize];
        self.reg_pc = self.reg_pc + 1;
        assert(self@ =~= (State { delay: old(self)@.reg(x), ..old(self)@ }).advance(1)->Ok_0);
        Ok(())
    }

    /// `LD ST, Vx`.
    fn ld_sound(&mut self, x: u8, Ghost(input): Ghost<Input>) -> (result: Result<(), Fault>)
        ensures
            outcome(old(self)@, Instruction::LD6(x), input, result, final(self)@),
    {
        if x >= 16 || self.reg_pc == 0xFFFF {
            return Err(Fault::Address);
        }
        self.reg_sound = self.gen_registers[x as usize];
        self.reg_pc = self.reg_pc + 1;
        assert(self@ =~= (State { sound: old(self)@.reg(x), ..old(self)@ }).advance(1)->Ok_0);
        Ok(())
    }

    /// `SYS addr`: nothing but the step to the next instruction.
    fn sys(&mut self, Ghost(addr): Ghost<u16>, Ghost(input): Ghost<Input>) -> (result: Result<
        (),
        Fault,
    >)
        ensures
            outcome(old(self)@, Instruction::SYS(addr), input, result, final(self)@),
    {
        self.skip(false)
    }

    /// `SE Vx, byte`.
    fn se_byte(
        &mut self,
        x: u8,
        byte: u8,
        Ghost(input): Ghost<Input>,
    ) -> (result: Result<(), Fault>)
        ensures
            outcome(old(self)@, Instruction::SE(x, byte), input, result, final(self)@),
    {
        if x >= 16 {
            return Err(Fault::Address);
        }
        let equal = self.gen_registers[x as usize] == byte;
        self.skip(equal)
    }

    /// `SNE Vx, byte`.
    fn sne_byte(
        &mut self,
        x: u8,
        byte: u8,
        Ghost(input): Ghost<Input>,
    ) -> (result: Result<(), Fault>)
        ensures
            outcome(old(self)@, Instruction::SNE(x, byte), input, result, final(self)@),
    {
        if x >= 16 {
            return Err(Fault::Address);
        }
        let differ = self.gen_registers[x as usize] != byte;
        self.skip(differ)
    }

    /// `SE Vx, Vy`.
    fn se_reg(&mut self, x: u8, y: u8, Ghost(input): Ghost<Input>) -> (result: Result<(), Fault>)
        ensures
            outcome(old(self)@, Instruction::SE2(x, y), input, result, final(self)@),
    {
        if x >= 16 || y >= 16 {
            return Err(Fault::Address);
        }
        let equal = self.gen_registers[x as usize] == self.gen_registers[y as usize];
        self.skip(equal)
    }

    /// `SNE Vx, Vy`.
    fn sne_reg(&mut self, x: u8, y: u8, Ghost(input): Ghost<Input>) -> (result: Result<(), Fault>)
        ensures
            outcome(old(self)@, Instruction::SNE2(x, y), input, result, final(self)@),
    {
        if x >= 16 || y >= 16 {
            return Err(Fault::Address);
        }
        let differ = self.gen_registers[x as usize] != self.gen_registers[y as usize];
        self.skip(differ)
    }

    /// `SKP Vx`: skips if the key was down.
    fn skp(&mut self, x: u8, input: Input) -> (result: Result<(), Fault>)
        ensures
            outcome(old(self)@, Instruction::SKP(x), input, result, final(self)@),
    {
        if x >= 16 {
            return Err(Fault::Address);
        }
        if Key::from_num(self.gen_registers[x as usize]).is_none() {
            return Err(Fault::UnknownKey);
        }
        self.skip(input.pressed)
    }

    /// `SKNP Vx`: skips if the key was up.
    fn sknp(&mut self, x: u8, input: Input) -> (result: Result<(), Fault>)
        ensures
            outcome(old(self)@, Instruction::SKNP(x), input, result, final(self)@),
    {
        if x >= 16 {
            return Err(Fault::Address);
        }
        if Key::from_num(self.gen_registers[x as usize]).is_none() {
            return Err(Fault::UnknownKey);
        }
        self.skip(!input.pressed)
    }

    /// `LD Vx, byte`.
    fn ld_byte(
        &mut self,
        x: u8,
        byte: u8,
        Ghost(input): Ghost<Input>,
    ) -> (result: Result<(), Fault>)
        ensures
            outcome(old(self)@, Instruction::LD(x, byte), input, result, final(self)@),
    {
        if x >= 16 {
            return Err(Fault::Address);
        }
        self.load(x, byte)
    }

    /// `ADD Vx, byte`: the sum wraps round at 256 and the flag stays.
    fn add_byte(
        &mut self,
        x: u8,
        byte: u8,
        Ghost(input): Ghost<Input>,
    ) -> (result: Result<(), Fault>)
        ensures
            outcome(old(self)@, Instruction::ADD(x, byte), input, result, final(self)@),
    {
        if x >= 16 {
            return Err(Fault::Address);
        }
        let sum = self.gen_registers[x as usize].wrapping_add(byte);
        self.load(x, sum)
    }

    /// `LD Vx, Vy`.
    fn ld_reg(&mut self, x: u8, y: u8, Ghost(input): Ghost<Input>) -> (result: Result<(), Fault>)
        ensures
            outcome(old(self)@, Instruction::LD2(x, y), input, result, final(self)@),
    {
        if x >= 16 || y >= 16 {
            return Err(Fault::Address);
        }
        let value = self.gen_registers[y as usize];
        self.load(x, value)
    }

    /// `OR Vx, Vy`.
    fn or_reg(&mut self, x: u8, y: u8, Ghost(input): Ghost<Input>) -> (result: Result<(), Fault>)
        ensures
            outcome(old(self)@, Instruction::OR(x, y), input, result, final(self)@),
    {
        if x >= 16 || y >= 16 {
            return Err(Fault::Address);
        }
        let value = self.gen_registers[x as usize] | self.gen_registers[y as usize];
        self.load(x, value)
    }

    /// `AND Vx, Vy`.
    fn and_reg(&mut self, x: u8, y: u8, Ghost(input): Ghost<Input>) -> (result: Result<(), Fault>)
        ensures
            outcome(old(self)@, Instruction::AND(x, y), input, result, final(self)@),
    {
        if x >= 16 || y >= 16 {
            return Err(Fault::Address);
        }
        let value = self.gen_registers[x as usize] & self.gen_registers[y as usize];
        self.load(x, value)
    }

    /// `XOR Vx, Vy`.
    fn xor_reg(&mut self, x: u8, y: u8, Ghost(input): Ghost<Input>) -> (result: Result<(), Fault>)
        ensures
            outcome(old(self)@, Instruction::XOR(x, y), input, result, final(self)@),
    {
        if x >= 16 || y >= 16 {
            return Err(Fault::Address);
        }
        let value = self.gen_registers[x as usize] ^ self.gen_registers[y as usize];
        self.load(x, value)
    }

    /// `RND Vx, byte`: the random byte of the input under the mask.
    fn rnd(&mut self, x: u8, byte: u8, input: Input) -> (result: Result<(), Fault>)
        ensures
            outcome(old(self)@, Instruction::RND(x, byte), input, result, final(self)@),
    {
        if x >= 16 {
            return Err(Fault::Address);
        }
        self.load(x, input.random & byte)
    }

    /// `LD Vx, DT`.
    fn ld_from_delay(&mut self, x: u8, Ghost(input): Ghost<Input>) -> (result: Result<(), Fault>)
        ensures
            outcome(old(self)@, Instruction::LD3(x), input, result, final(self)@),
    {
        if x >= 16 {
            return Err(Fault::Address);
        }
        let value = self.reg_delay;
        self.load(x, value)
    }

    /// `LD Vx, K`: the number of the key of the input.
    fn ld_key(&mut self, x: u8, input: Input) -> (result: Result<(), Fault>)
        ensures
            outcome(old(self)@, Instruction::LD4(x), input, result, final(self)@),
    {
        if x >= 16 {
            return Err(Fault::Address);
        }
        self.load(x, input.key.to_num())
    }

    /// `ADD Vx, Vy`: the carry goes to the flag.
    fn add_reg(&mut self, x: u8, y: u8, Ghost(input): Ghost<Input>) -> (result: Result<(), Fault>)
        ensures
            outcome(old(self)@, Instruction::ADD2(x, y), input, result, final(self)@),
    {
        if x >= 16 || y >= 16 {
            return Err(Fault::Address);
        }
        let sum: u16 = self.gen_registers[x as usize] as u16 + self.gen_registers[y as usize] as u16;
        let flag: u8 = if sum > 255 {
            1
        } else {
            0
        };
        self.load_flagged(x, flag, (sum % 256) as u8)
    }

    /// `SUB Vx, Vy`: the flag is set where `Vx` is the larger.
    fn sub_reg(&mut self, x: u8, y: u8, Ghost(input): Ghost<Input>) -> (result: Result<(), Fault>)
        ensures
            outcome(old(self)@, Instruction::SUB(x, y), input, result, final(self)@),
    {
        if x >= 16 || y >= 16 {
            return Err(Fault::Address);
        }
        let vx = self.gen_registers[x as usize];
        let vy = self.gen_registers[y as usize];
        if vx > vy {
            self.load_flagged(x, 1, vx - vy)
        } else {
            self.load_flagged(x, 0, vy - vx)
        }
    }

    /// `SUBN Vx, Vy`: the flag is set where `Vy` is the larger.
    fn subn_reg(&mut self, x: u8, y: u8, Ghost(input): Ghost<Input>) -> (result: Result<(), Fault>)
        ensures
            outcome(old(self)@, Instruction::SUBN(x, y), input, result, final(self)@),
    {
        if x >= 16 || y >= 16 {
            return Err(Fault::Address);
        }
        let vx = self.gen_registers[x as usize];
        let vy = self.gen_registers[y as usize];
        if vy > vx {
            self.load_flagged(x, 1, vy - vx)
        } else {
            self.load_flagged(x, 0, vx - vy)
        }
    }

    /// `SHR Vx`: the low bit goes to the flag.
    fn shr(&mut self, x: u8, Ghost(y): Ghost<u8>, Ghost(input): Ghost<Input>) -> (result: Result<
        (),
        Fault,
    >)
        ensures
            outcome(old(self)@, Instruction::SHR(x, y), input, result, final(self)@),
    {
        if x >= 16 {
            return Err(Fault::Address);
        }
        let vx = self.gen_registers[x as usize];
        assert(vx >> 1 == vx / 2) by (bit_vector);
        self.load_flagged(x, vx % 2, vx >> 1)
    }

    /// `SHL Vx`: the high bit goes to the flag.
    fn shl(&mut self, x: u8, Ghost(y): Ghost<u8>, Ghost(input): Ghost<Input>) -> (result: Result<
        (),
        Fault,
    >)
        ensures
            outcome(old(self)@, Instruction::SHL(x, y), input, result, final(self)@),
    {
        if x >= 16 {
            return Err(Fault::Address);
        }
        let vx = self.gen_registers[x as usize];
        let flag: u8 = if vx >= 0x80 {
            1
        } else {
            0
        };
        assert(vx << 1 == (vx * 2) % 256) by (bit_vector);
        self.load_flagged(x, flag, vx << 1)
    }

    /// `LD I, addr`.
    fn ld_index(&mut self, addr: u16, Ghost(input): Ghost<Input>) -> (result: Result<(), Fault>)
        ensures
            outcome(old(self)@, Instruction::LDI(addr), input, result, final(self)@),
    {
        self.set_index(addr)
    }

    /// `ADD I, Vx`: the sum wraps round at 16 bits.
    fn add_index(&mut self, x: u8, Ghost(input): Ghost<Input>) -> (result: Result<(), Fault>)
        ensures
            outcome(old(self)@, Instruction::ADD3(x), input, result, final(self)@),
    {
        if x >= 16 {
            return Err(Fault::Address);
        }
        let sum = self.reg_i.wrapping_add(self.gen_registers[x as usize] as u16);
        self.set_index(sum)
    }

    /// `LD F, Vx`: the glyph of the low four bits of `Vx`.
    fn ld_glyph(&mut self, x: u8, Ghost(input): Ghost<Input>) -> (result: Result<(), Fault>)
        ensures
            outcome(old(self)@, Instruction::LD7(x), input, result, final(self)@),
    {
        if x >= 16 {
            return Err(Fault::Address);
        }
        let glyph = digit(self.gen_registers[x as usize] % 16) as u16;
        self.set_index(glyph)
    }

    /// Executes `instr` with what the step reads from outside given in
    /// `input`. A fault leaves the machine untouched.
    pub fn apply(&mut self, instr: Instruction, input: Input) -> (result: Result<(), Fault>)
        ensures
            outcome(old(self)@, instr, input, result, final(self)@),
    {
        match instr {
            Instruction::SYS(addr) => self.sys(Ghost(addr), Ghost(input)),
            Instruction::CLS => self.cls(Ghost(input)),
            Instruction::RET => self.ret(Ghost(input)),
            Instruction::JP(addr) => self.jp(addr, Ghost(input)),
            Instruction::CALL(addr) => self.call(addr, Ghost(input)),
            Instruction::SE(x, byte) => self.se_byte(x, byte, Ghost(input)),
            Instruction::SNE(x, byte) => self.sne_byte(x, byte, Ghost(input)),
            Instruction::SE2(x, y) => self.se_reg(x, y, Ghost(input)),
            Instruction::LD(x, byte) => self.ld_byte(x, byte, Ghost(input)),
            Instruction::ADD(x, byte) => self.add_byte(x, byte, Ghost(input)),
            Instruction::LD2(x, y) => self.ld_reg(x, y, Ghost(input)),
            Instruction::OR(x, y) => self.or_reg(x, y, Ghost(input)),
            Instruction::AND(x, y) => self.and_reg(x, y, Ghost(input)),
            Instruction::XOR(x, y) => self.xor_reg(x, y, Ghost(input)),
            Instruction::ADD2(x, y) => self.add_reg(x, y, Ghost(input)),
            Instruction::SUB(x, y) => self.sub_reg(x, y, Ghost(input)),
            Instruction::SHR(x, y) => self.shr(x, Ghost(y), Ghost(input)),
            Instruction::SUBN(x, y) => self.subn_reg(x, y, Ghost(input)),
            Instruction::SHL(x, y) => self.shl(x, Ghost(y), Ghost(input)),
            Instruction::SNE2(x, y) => self.sne_reg(x, y, Ghost(input)),
            Instruction::LDI(addr) => self.ld_index(addr, Ghost(input)),
            Instruction::JPV0(addr) => self.jp_offset(addr, Ghost(input)),
            Instruction::RND(x, byte) => self.rnd(x, byte, input),
            Instruction::DRW(x, y, n) => self.drw(x, y, n, Ghost(input)),
            Instruction::SKP(x) => self.skp(x, input),
            Instruction::SKNP(x) => self.sknp(x, input),
            Instruction::LD3(x) => self.ld_from_delay(x, Ghost(input)),
            Instruction::LD4(x) => self.ld_key(x, input),
            Instruction::LD5(x) => self.ld_delay(x, Ghost(input)),
            Instruction::LD6(x) => self.ld_sound(x, Ghost(input)),
            Instruction::ADD3(x) => self.add_index(x, Ghost(input)),
            Instruction::LD7(x) => self.ld_glyph(x, Ghost(input)),
        }
    }

    /// The key that `instr` asks the keyboard about, if it asks about one.
    pub fn asked_key(&self, instr: Instruction) -> (key: Option<Key>)
        ensures
            key == asked_key(self@, instr),
    {
        match instr {
            Instruction::SKP(x) | Instruction::SKNP(x) => {
                if x < 16 {
                    Key::from_num(self.gen_registers[x as usize])
                } else {
                    None
                }
            },
            _ => None,
        }
    }

    /// Whether `instr` is a `LD Vx, K` that has to wait for a key.
    pub fn awaits_key(&self, instr: Instruction) -> (waits: bool)
        ensures
            waits == awaits_key(self@, instr),
    {
        match instr {
            Instruction::LD4(x) => x < 16 && self.reg_pc < 0xFFFF,
            _ => false,
        }
    }

    /// Executes `instr`. `RND` draws its byte from the machine's random
    /// source. `SKP` and `SKNP` ask the keyboard whether the key numbered by
    /// `Vx` is down, unless the step is refused before it comes to that.
    /// `LD Vx, K` blocks until a key goes down, unless the step is refused
    /// whatever key comes. A fault leaves the machine untouched.
    pub fn execute(&mut self, instr: Instruction) -> (result: Result<(), Fault>)
        ensures
            exists|input: Input| outcome(old(self)@, instr, input, result, final(self)@),
            !reads_input(instr) ==> forall|input: Input|
                outcome(old(self)@, instr, input, result, final(self)@),
    {
        let mut input = Input::none();
        if let Instruction::RND(_, _) = instr {
            input.random = self.rng.next_byte();
        }
        if let Some(key) = self.asked_key(instr) {
            input.pressed = self.keyboard.is_pressed(&key);
        }
        if self.awaits_key(instr) {
            input.key = self.keyboard.wait();
        }
        assert(self@ == old(self)@);
        let result = self.apply(instr, input);
        assert(outcome(old(self)@, instr, input, result, self@));
        result
    }
}

/// The arrays of a machine have the sizes that the model asks for.
pub proof fn lemma_view_well_formed(vm: VM)
    ensures
        vm@.well_formed(),
{
}

} // verus!
