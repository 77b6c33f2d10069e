use chip8::{
    create_sprite_mask, digit, Input, Instruction, Key, Keyboard, RandomSource,
    MEM_PROGRAM_START, VM,
};

fn create_vm() -> VM {
    VM::new()
}

#[test]
fn execute_initial_pc() {
    let vm = create_vm();
    assert_eq!(vm.reg_pc, 0);
}

#[test]
fn instr_sys() {
    let mut vm = create_vm();
    let instr = Instruction::SYS(1);
    vm.execute(instr).unwrap();

    // the instruction does nothing but step to the next one
    assert_eq!(vm.reg_pc, 1);
}

#[test]
fn instr_cls() {
    let mut vm = create_vm();

    vm.display[0] = 0b1111;

    let instr = Instruction::CLS;
    vm.execute(instr).unwrap();

    // should clear display
    assert_eq!(vm.display[0], 0);

    // should inc PC
    assert_eq!(vm.reg_pc, 1);
}

#[test]
fn instr_ret() {
    let mut vm = create_vm();

    let stack_pc = 10;
    let sp = 5;
    vm.reg_sp = sp;
    vm.stack[5] = stack_pc;

    let instr = Instruction::RET;
    vm.execute(instr).unwrap();

    assert_eq!(vm.reg_pc, stack_pc);
    assert_eq!(vm.reg_sp, sp - 1);
}

#[test]
fn instr_jp() {
    let mut vm = create_vm();
    let addr = 10;
    let instr = Instruction::JP(addr);
    vm.execute(instr).unwrap();

    assert_eq!(vm.reg_pc, addr);
}

#[test]
fn instr_call() {
    let mut vm = create_vm();
    vm.reg_pc = 5;

    let addr = 10;
    let instr = Instruction::CALL(addr);
    vm.execute(instr).unwrap();

    assert_eq!(vm.reg_sp, 1);
    assert_eq!(vm.stack[1], 5);
    assert_eq!(vm.reg_pc, addr);
}

#[test]
fn instr_se_skip() {
    let mut vm = create_vm();
    vm.gen_registers[2] = 10;

    vm.execute(Instruction::SE(2, 10)).unwrap();

    assert_eq!(vm.reg_pc, 2);
}

#[test]
fn instr_se_noskip() {
    let mut vm = create_vm();
    vm.gen_registers[2] = 9;

    vm.execute(Instruction::SE(2, 10)).unwrap();

    assert_eq!(vm.reg_pc, 1);
}

#[test]
fn instr_sne_skip() {
    let mut vm = create_vm();
    vm.gen_registers[2] = 9;

    vm.execute(Instruction::SNE(2, 10)).unwrap();

    assert_eq!(vm.reg_pc, 2);
}

#[test]
fn instr_sne_noskip() {
    let mut vm = create_vm();
    vm.gen_registers[2] = 10;

    vm.execute(Instruction::SNE(2, 10)).unwrap();

    assert_eq!(vm.reg_pc, 1);
}

#[test]
fn instr_se2_skip() {
    let mut vm = create_vm();
    vm.gen_registers[1] = 10;
    vm.gen_registers[2] = 10;

    vm.execute(Instruction::SE2(1, 2)).unwrap();

    assert_eq!(vm.reg_pc, 2);
}

#[test]
fn instr_se2_noskip() {
    let mut vm = create_vm();
    vm.gen_registers[1] = 9;
    vm.gen_registers[2] = 10;

    vm.execute(Instruction::SE2(1, 2)).unwrap();

    assert_eq!(vm.reg_pc, 1);
}

#[test]
fn instr_ld() {
    let mut vm = create_vm();
    vm.execute(Instruction::LD(3, 10)).unwrap();

    assert_eq!(vm.gen_registers[3], 10);
    assert_eq!(vm.reg_pc, 1);
}

#[test]
fn instr_add() {
    let mut vm = create_vm();
    vm.gen_registers[1] = 1;

    vm.execute(Instruction::ADD(1, 10)).unwrap();

    assert_eq!(vm.gen_registers[1], 11);
    assert_eq!(vm.reg_pc, 1);
}

#[test]
fn instr_ld2() {
    let mut vm = create_vm();
    vm.gen_registers[1] = 9;
    vm.gen_registers[2] = 10;
    vm.execute(Instruction::LD2(1, 2)).unwrap();

    assert_eq!(vm.gen_registers[1], 10);
    assert_eq!(vm.reg_pc, 1);
}

#[test]
fn instr_or() {
    let mut vm = create_vm();
    vm.gen_registers[1] = 0b001;
    vm.gen_registers[2] = 0b011;
    vm.execute(Instruction::OR(1, 2)).unwrap();

    assert_eq!(vm.gen_registers[1], 0b011);
    assert_eq!(vm.reg_pc, 1);
}

#[test]
fn instr_and() {
    let mut vm = create_vm();
    vm.gen_registers[1] = 0b001;
    vm.gen_registers[2] = 0b011;
    vm.execute(Instruction::AND(1, 2)).unwrap();

    assert_eq!(vm.gen_registers[1], 0b001);
    assert_eq!(vm.reg_pc, 1);
}

#[test]
fn instr_xor() {
    let mut vm = create_vm();
    vm.gen_registers[1] = 0b001;
    vm.gen_registers[2] = 0b011;
    vm.execute(Instruction::XOR(1, 2)).unwrap();

    assert_eq!(vm.gen_registers[1], 0b010);
    assert_eq!(vm.reg_pc, 1);
}

#[test]
fn instr_add2_nooverflow() {
    let mut vm = create_vm();
    vm.gen_registers[1] = 0b10000000;
    vm.gen_registers[2] = 0b01111111;
    vm.gen_registers[0xF] = 2; // to make sure register is set to zero
    vm.execute(Instruction::ADD2(1, 2)).unwrap();

    assert_eq!(vm.gen_registers[1], 0b11111111);
    assert_eq!(vm.gen_registers[0xF], 0);
    assert_eq!(vm.reg_pc, 1);
}

#[test]
fn instr_add2_overflow() {
    let mut vm = create_vm();
    vm.gen_registers[1] = 0b10000000;
    vm.gen_registers[2] = 0b10000001;
    vm.execute(Instruction::ADD2(1, 2)).unwrap();

    assert_eq!(vm.gen_registers[1], 0b00000001);
    assert_eq!(vm.gen_registers[0xF], 1);
    assert_eq!(vm.reg_pc, 1);
}

#[test]
fn instr_sub_noborrow() {
    let mut vm = create_vm();
    vm.gen_registers[1] = 3;
    vm.gen_registers[2] = 2;
    vm.execute(Instruction::SUB(1, 2)).unwrap();

    assert_eq!(vm.gen_registers[1], 1);
    assert_eq!(vm.gen_registers[0xF], 1);
    assert_eq!(vm.reg_pc, 1);
}

#[test]
fn instr_sub_borrow() {
    let mut vm = create_vm();
    vm.gen_registers[1] = 2;
    vm.gen_registers[2] = 3;
    vm.gen_registers[0xF] = 2; // to make sure register is set to zero
    vm.execute(Instruction::SUB(1, 2)).unwrap();

    assert_eq!(vm.gen_registers[1], 1);
    assert_eq!(vm.gen_registers[0xF], 0);
    assert_eq!(vm.reg_pc, 1);
}

#[test]
fn instr_sub_equal() {
    let mut vm = create_vm();
    vm.gen_registers[1] = 3;
    vm.gen_registers[2] = 3;
    vm.execute(Instruction::SUB(1, 2)).unwrap();

    assert_eq!(vm.gen_registers[1], 0);
    assert_eq!(vm.gen_registers[0xF], 0);
    assert_eq!(vm.reg_pc, 1);
}

#[test]
fn instr_shr_odd() {
    let mut vm = create_vm();
    vm.gen_registers[1] = 0b111;
    vm.execute(Instruction::SHR(1, 2)).unwrap();

    assert_eq!(vm.gen_registers[1], 0b11);
    assert_eq!(vm.gen_registers[0xF], 1);
    assert_eq!(vm.reg_pc, 1);
}

#[test]
fn instr_shr_even() {
    let mut vm = create_vm();
    vm.gen_registers[1] = 0b100;
    vm.gen_registers[0xF] = 2; // to make sure register is set to zero
    vm.execute(Instruction::SHR(1, 2)).unwrap();

    assert_eq!(vm.gen_registers[1], 0b10);
    assert_eq!(vm.gen_registers[0xF], 0);
    assert_eq!(vm.reg_pc, 1);
}

#[test]
fn instr_subn_noborrow() {
    let mut vm = create_vm();
    vm.gen_registers[1] = 2;
    vm.gen_registers[2] = 3;
    vm.execute(Instruction::SUBN(1, 2)).unwrap();

    assert_eq!(vm.gen_registers[1], 1);
    assert_eq!(vm.gen_registers[0xF], 1);
    assert_eq!(vm.reg_pc, 1);
}

#[test]
fn instr_subn_borrow() {
    let mut vm = create_vm();
    vm.gen_registers[1] = 3;
    vm.gen_registers[2] = 2;
    vm.gen_registers[0xF] = 2; // to make sure register is set to zero
    vm.execute(Instruction::SUBN(1, 2)).unwrap();

    assert_eq!(vm.gen_registers[1], 1);
    assert_eq!(vm.gen_registers[0xF], 0);
    assert_eq!(vm.reg_pc, 1);
}

#[test]
fn instr_subn_even() {
    let mut vm = create_vm();
    vm.gen_registers[1] = 3;
    vm.gen_registers[2] = 3;
    vm.gen_registers[0xF] = 2; // to make sure register is set to zero
    vm.execute(Instruction::SUBN(1, 2)).unwrap();

    assert_eq!(vm.gen_registers[1], 0);
    assert_eq!(vm.gen_registers[0xF], 0);
    assert_eq!(vm.reg_pc, 1);
}

#[test]
fn instr_shr_nooverflow() {
    let mut vm = create_vm();
    vm.gen_registers[1] = 0b11000000;
    vm.execute(Instruction::SHL(1, 2)).unwrap();

    assert_eq!(vm.gen_registers[1], 0b10000000);
    assert_eq!(vm.gen_registers[0xF], 1);
    assert_eq!(vm.reg_pc, 1);
}

#[test]
fn instr_shr_overflow() {
    let mut vm = create_vm();
    vm.gen_registers[1] = 0b01000000;
    vm.gen_registers[0xF] = 2; // to make sure register is set to zero
    vm.execute(Instruction::SHL(1, 2)).unwrap();

    assert_eq!(vm.gen_registers[1], 0b10000000);
    assert_eq!(vm.gen_registers[0xF], 0);
    assert_eq!(vm.reg_pc, 1);
}

#[test]
fn instr_sne2_skip() {
    let mut vm = create_vm();
    vm.gen_registers[1] = 8;
    vm.gen_registers[2] = 9;

    vm.execute(Instruction::SNE2(1, 2)).unwrap();

    assert_eq!(vm.reg_pc, 2);
}

#[test]
fn instr_sne2_noskip() {
    let mut vm = create_vm();
    vm.gen_registers[1] = 10;
    vm.gen_registers[2] = 10;

    vm.execute(Instruction::SNE2(1, 2)).unwrap();

    assert_eq!(vm.reg_pc, 1);
}

#[test]
fn instr_ldi() {
    let mut vm = create_vm();
    vm.execute(Instruction::LDI(0x555)).unwrap();

    assert_eq!(vm.reg_i, 0x555);
    assert_eq!(vm.reg_pc, 1);
}

#[test]
fn instr_jpv0() {
    let mut vm = create_vm();
    vm.gen_registers[0] = 3;
    vm.execute(Instruction::JPV0(0x300)).unwrap();

    assert_eq!(vm.reg_pc, 0x303);
}

#[test]
fn instr_rnd() {
    let mut vm = create_vm();
    vm.rng = RandomSource::Step { next: 0b110, step: 1 };

    vm.execute(Instruction::RND(1, 0b101)).unwrap();

    assert_eq!(vm.gen_registers[1], 0b100);
    assert_eq!(vm.reg_pc, 1);
}

#[test]
fn instr_drw() {
    let mut vm = create_vm();

    let sprite1 = 0b11 << 3;
    let sprite2 = 0b11 << 2;
    let x: u8 = 1;
    let y: u8 = 2;
    let n: u8 = 2;
    let vx = 4;
    let vy = 5;

    vm.memory[MEM_PROGRAM_START as usize] = sprite1;
    vm.memory[MEM_PROGRAM_START as usize + 1] = sprite2;
    vm.reg_i = MEM_PROGRAM_START;
    vm.gen_registers[x as usize] = vx;
    vm.gen_registers[y as usize] = vy;

    vm.execute(Instruction::DRW(x, y, n)).unwrap();

    let expected1 = create_sprite_mask(sprite1, vx);
    let expected2 = create_sprite_mask(sprite2, vx);

    assert_eq!(vm.display[vy as usize], expected1);
    assert_eq!(vm.display[(vy + 1) as usize], expected2);
    assert_eq!(vm.gen_registers[0xF], 0);

    // should inc PC
    assert_eq!(vm.reg_pc, 1);
}

#[test]
fn instr_drw_collision() {
    let mut vm = create_vm();

    vm.display[0] = 0b1;
    vm.memory[MEM_PROGRAM_START as usize] = 0b1;
    vm.reg_i = MEM_PROGRAM_START;
    vm.gen_registers[0 as usize] = 56;
    vm.gen_registers[1 as usize] = 0;

    vm.execute(Instruction::DRW(0, 1, 1)).unwrap();

    assert_eq!(vm.display[0], 0);
    assert_eq!(vm.gen_registers[0xF], 1);
}

#[test]
fn instr_skp_pressed() {
    let mut vm = create_vm();
    vm.keyboard = Keyboard::new();
    vm.keyboard.set_pressed(Key::Key3);
    vm.gen_registers[1] = 3;

    vm.execute(Instruction::SKP(1)).unwrap();

    assert_eq!(vm.reg_pc, 2);
}

#[test]
fn instr_skp_notpressed() {
    let mut vm = create_vm();
    vm.keyboard = Keyboard::new();
    vm.keyboard.set_pressed(Key::Key2);
    vm.gen_registers[1] = 3;

    vm.execute(Instruction::SKP(1)).unwrap();

    assert_eq!(vm.reg_pc, 1);
}

#[test]
fn instr_sknp_pressed() {
    let mut vm = create_vm();
    vm.keyboard = Keyboard::new();
    vm.keyboard.set_pressed(Key::Key3);
    vm.gen_registers[1] = 3;

    vm.execute(Instruction::SKNP(1)).unwrap();
    assert_eq!(vm.reg_pc, 1);
}

#[test]
fn instr_sknp_notpressed() {
    let mut vm = create_vm();
    vm.keyboard = Keyboard::new();
    vm.keyboard.set_pressed(Key::Key2);
    vm.gen_registers[1] = 3;

    vm.execute(Instruction::SKNP(1)).unwrap();

    assert_eq!(vm.reg_pc, 2);
}

#[test]
fn instr_ld3() {
    let mut vm = create_vm();
    vm.reg_delay = 3;
    vm.execute(Instruction::LD3(1)).unwrap();
    assert_eq!(vm.gen_registers[1], 3);
    assert_eq!(vm.reg_pc, 1);
}

#[test]
fn instr_ld4() {
    let mut vm = create_vm();

    // key 4 is the key whose press ends the wait
    let pressed = Input { key: Key::Key4, ..Input::none() };
    vm.apply(Instruction::LD4(1), pressed).unwrap();

    assert_eq!(vm.reg_pc, 1);
    assert_eq!(vm.gen_registers[1], 4);
}

#[test]
fn instr_ld5() {
    let mut vm = create_vm();
    vm.reg_delay = 3;
    vm.gen_registers[1] = 4;
    vm.execute(Instruction::LD5(1)).unwrap();
    assert_eq!(vm.reg_delay, 4);
    assert_eq!(vm.reg_pc, 1);
}

#[test]
fn instr_ld6() {
    let mut vm = create_vm();
    vm.reg_sound = 3;
    vm.gen_registers[1] = 4;
    vm.execute(Instruction::LD6(1)).unwrap();
    assert_eq!(vm.reg_sound, 4);
    assert_eq!(vm.reg_pc, 1);
}

#[test]
fn instr_add3() {
    let mut vm = create_vm();
    vm.reg_i = 3;
    vm.gen_registers[1] = 4;
    vm.execute(Instruction::ADD3(1)).unwrap();
    assert_eq!(vm.reg_i, 7);
    assert_eq!(vm.reg_pc, 1);
}

#[test]
fn instr_ld7() {
    let mut vm = create_vm();
    vm.reg_i = 3;
    vm.gen_registers[1] = 4;
    vm.execute(Instruction::LD7(1)).unwrap();
    assert_eq!(vm.reg_i, digit(4) as u16);
    assert_eq!(vm.reg_pc, 1);
}
