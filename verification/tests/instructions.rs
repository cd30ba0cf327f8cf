use chip8::cpu::{Cpu, Fault};

fn load_op(cpu: &mut Cpu, at: usize, op: u16) {
    cpu.memory[at] = (op >> 8) as u8;
    cpu.memory[at + 1] = (op & 0xFF) as u8;
}

#[test]
fn set_immediate_scenario() {
    // Load 0x60 0x05 at 0x200, step once: V0 = 5, PC = 0x202.
    let mut cpu = Cpu::new();
    load_op(&mut cpu, 0x200, 0x6005);
    assert_eq!(cpu.cycle(), Ok(()));
    assert_eq!(cpu.register[0], 5);
    assert_eq!(cpu.program_counter, 0x202);
}

#[test]
fn font_address_scenario() {
    // A200, 6002, F029: after three steps I is the font base for glyph 2.
    let mut cpu = Cpu::new();
    load_op(&mut cpu, 0x200, 0xA200);
    load_op(&mut cpu, 0x202, 0x6002);
    load_op(&mut cpu, 0x204, 0xF029);
    assert_eq!(cpu.cycle(), Ok(()));
    assert_eq!(cpu.address_register, 0x200);
    assert_eq!(cpu.cycle(), Ok(()));
    assert_eq!(cpu.cycle(), Ok(()));
    assert_eq!(cpu.address_register, 10);
    assert_eq!(cpu.program_counter, 0x206);
}

#[test]
fn add_with_carry_scenario() {
    // V1 = 0xFF, V2 = 0x01, 8124: V1 = 0x00, VF = 1.
    let mut cpu = Cpu::new();
    cpu.register[1] = 0xFF;
    cpu.register[2] = 0x01;
    load_op(&mut cpu, 0x200, 0x8124);
    assert_eq!(cpu.cycle(), Ok(()));
    assert_eq!(cpu.register[1], 0x00);
    assert_eq!(cpu.register[15], 1);
    assert_eq!(cpu.program_counter, 0x202);
}

#[test]
fn sub_with_borrow_scenario() {
    // V3 = 0x05, V4 = 0x0A, 8345: V3 = 0xFB wrapped, VF = 0 (borrow).
    let mut cpu = Cpu::new();
    cpu.register[3] = 0x05;
    cpu.register[4] = 0x0A;
    load_op(&mut cpu, 0x200, 0x8345);
    assert_eq!(cpu.cycle(), Ok(()));
    assert_eq!(cpu.register[3], 0xFB);
    assert_eq!(cpu.register[15], 0);
}

#[test]
fn add_immediate_wraps_without_flag() {
    // 7XNN wraps modulo 256 and must not touch VF.
    let mut cpu = Cpu::new();
    cpu.register[0] = 0xFF;
    cpu.register[15] = 0x5A;
    load_op(&mut cpu, 0x200, 0x7002);
    assert_eq!(cpu.cycle(), Ok(()));
    assert_eq!(cpu.register[0], 0x01);
    assert_eq!(cpu.register[15], 0x5A);
}

#[test]
fn bitwise_ops_exact() {
    let mut cpu = Cpu::new();
    cpu.register[0] = 0b1100_1010;
    cpu.register[1] = 0b1010_0110;
    cpu.set_vx_or(0, 1);
    assert_eq!(cpu.register[0], 0b1110_1110);
    cpu.register[0] = 0b1100_1010;
    cpu.set_vx_and(0, 1);
    assert_eq!(cpu.register[0], 0b1000_0010);
    cpu.register[0] = 0b1100_1010;
    cpu.set_vx_xor(0, 1);
    assert_eq!(cpu.register[0], 0b0110_1100);
    cpu.register[2] = 0x37;
    cpu.set_vx_vy(0, 2);
    assert_eq!(cpu.register[0], 0x37);
}

#[test]
fn shift_right_records_low_bit() {
    let mut cpu = Cpu::new();
    cpu.register[5] = 0x0B;
    cpu.shr_vx(5);
    assert_eq!(cpu.register[5], 0x05);
    assert_eq!(cpu.register[15], 1);
    cpu.register[5] = 0x0A;
    cpu.shr_vx(5);
    assert_eq!(cpu.register[5], 0x05);
    assert_eq!(cpu.register[15], 0);
}

#[test]
fn shift_left_normalizes_high_bit() {
    // VF must be the high bit as 0/1, not the raw 0x80 mask.
    let mut cpu = Cpu::new();
    cpu.register[6] = 0x81;
    cpu.shl_vx(6);
    assert_eq!(cpu.register[6], 0x02);
    assert_eq!(cpu.register[15], 1);
    cpu.register[6] = 0x41;
    cpu.shl_vx(6);
    assert_eq!(cpu.register[6], 0x82);
    assert_eq!(cpu.register[15], 0);
}

#[test]
fn reverse_subtract() {
    let mut cpu = Cpu::new();
    cpu.register[0] = 0x05;
    cpu.register[1] = 0x0A;
    cpu.sub_vy_vx(0, 1);
    assert_eq!(cpu.register[0], 0x05);
    assert_eq!(cpu.register[15], 1);
    cpu.register[0] = 0x0A;
    cpu.register[1] = 0x05;
    cpu.sub_vy_vx(0, 1);
    assert_eq!(cpu.register[0], 0xFB);
    assert_eq!(cpu.register[15], 0);
}

#[test]
fn flag_write_wins_when_vf_is_destination() {
    // 8F14: VX is VF itself; the carry flag overwrites the sum.
    let mut cpu = Cpu::new();
    cpu.register[15] = 0xFF;
    cpu.register[1] = 0x02;
    load_op(&mut cpu, 0x200, 0x8F14);
    assert_eq!(cpu.cycle(), Ok(()));
    assert_eq!(cpu.register[15], 1);
}

#[test]
fn add_register_wraps_exhaustively() {
    // Every 8-bit operand pair: the sum wraps modulo 256 and VF is the carry.
    let mut cpu = Cpu::new();
    for a in 0u16..256 {
        for b in 0u16..256 {
            cpu.register[0] = a as u8;
            cpu.register[1] = b as u8;
            cpu.add_vx_vy(0, 1);
            assert_eq!(cpu.register[0] as u16, (a + b) % 256);
            assert_eq!(cpu.register[15], if a + b > 255 { 1 } else { 0 });
        }
    }
}

#[test]
fn sub_register_wraps_exhaustively() {
    let mut cpu = Cpu::new();
    for a in 0u16..256 {
        for b in 0u16..256 {
            cpu.register[0] = a as u8;
            cpu.register[1] = b as u8;
            cpu.sub_vx_vy(0, 1);
            assert_eq!(cpu.register[0] as u16, (256 + a - b) % 256);
            assert_eq!(cpu.register[15], if a >= b { 1 } else { 0 });
        }
    }
}

#[test]
fn skip_equal_immediate_deltas() {
    // Condition true: PC moves by exactly 4; false: by exactly 2.
    let mut cpu = Cpu::new();
    cpu.register[2] = 0x42;
    load_op(&mut cpu, 0x200, 0x3242);
    assert_eq!(cpu.cycle(), Ok(()));
    assert_eq!(cpu.program_counter, 0x204);
    let mut cpu = Cpu::new();
    cpu.register[2] = 0x41;
    load_op(&mut cpu, 0x200, 0x3242);
    assert_eq!(cpu.cycle(), Ok(()));
    assert_eq!(cpu.program_counter, 0x202);
}

#[test]
fn skip_not_equal_immediate_deltas() {
    let mut cpu = Cpu::new();
    cpu.register[2] = 0x41;
    load_op(&mut cpu, 0x200, 0x4242);
    assert_eq!(cpu.cycle(), Ok(()));
    assert_eq!(cpu.program_counter, 0x204);
    let mut cpu = Cpu::new();
    cpu.register[2] = 0x42;
    load_op(&mut cpu, 0x200, 0x4242);
    assert_eq!(cpu.cycle(), Ok(()));
    assert_eq!(cpu.program_counter, 0x202);
}

#[test]
fn skip_register_compare_deltas() {
    let mut cpu = Cpu::new();
    cpu.register[1] = 7;
    cpu.register[2] = 7;
    load_op(&mut cpu, 0x200, 0x5120);
    assert_eq!(cpu.cycle(), Ok(()));
    assert_eq!(cpu.program_counter, 0x204);
    let mut cpu = Cpu::new();
    cpu.register[1] = 7;
    cpu.register[2] = 8;
    load_op(&mut cpu, 0x200, 0x5120);
    assert_eq!(cpu.cycle(), Ok(()));
    assert_eq!(cpu.program_counter, 0x202);
    let mut cpu = Cpu::new();
    cpu.register[1] = 7;
    cpu.register[2] = 8;
    load_op(&mut cpu, 0x200, 0x9120);
    assert_eq!(cpu.cycle(), Ok(()));
    assert_eq!(cpu.program_counter, 0x204);
    let mut cpu = Cpu::new();
    cpu.register[1] = 7;
    cpu.register[2] = 7;
    load_op(&mut cpu, 0x200, 0x9120);
    assert_eq!(cpu.cycle(), Ok(()));
    assert_eq!(cpu.program_counter, 0x202);
}

#[test]
fn jump_and_indexed_jump() {
    let mut cpu = Cpu::new();
    load_op(&mut cpu, 0x200, 0x1ABC);
    assert_eq!(cpu.cycle(), Ok(()));
    assert_eq!(cpu.program_counter, 0xABC);
    let mut cpu = Cpu::new();
    cpu.register[0] = 4;
    load_op(&mut cpu, 0x200, 0xB300);
    assert_eq!(cpu.cycle(), Ok(()));
    assert_eq!(cpu.program_counter, 0x304);
}

#[test]
fn set_and_add_index() {
    let mut cpu = Cpu::new();
    load_op(&mut cpu, 0x200, 0xA123);
    assert_eq!(cpu.cycle(), Ok(()));
    assert_eq!(cpu.address_register, 0x123);
    // FX1E wraps modulo 4096, keeping I a 12-bit address.
    cpu.address_register = 4090;
    cpu.register[3] = 10;
    load_op(&mut cpu, 0x202, 0xF31E);
    assert_eq!(cpu.cycle(), Ok(()));
    assert_eq!(cpu.address_register, 4);
}

#[test]
fn font_address_uses_low_nibble() {
    let mut cpu = Cpu::new();
    cpu.register[0] = 0x12;
    load_op(&mut cpu, 0x200, 0xF029);
    assert_eq!(cpu.cycle(), Ok(()));
    assert_eq!(cpu.address_register, 10);
}

#[test]
fn bcd_store() {
    let mut cpu = Cpu::new();
    cpu.register[0] = 234;
    cpu.address_register = 0x300;
    load_op(&mut cpu, 0x200, 0xF033);
    assert_eq!(cpu.cycle(), Ok(()));
    assert_eq!(cpu.memory[0x300], 2);
    assert_eq!(cpu.memory[0x301], 3);
    assert_eq!(cpu.memory[0x302], 4);
    assert_eq!(cpu.program_counter, 0x202);
}

#[test]
fn bcd_store_out_of_bounds_faults() {
    let mut cpu = Cpu::new();
    cpu.register[0] = 7;
    cpu.address_register = 4094;
    load_op(&mut cpu, 0x200, 0xF033);
    assert_eq!(cpu.cycle(), Err(Fault::OutOfBounds));
    assert_eq!(cpu.program_counter, 0x200);
    assert_eq!(cpu.memory[4094], 0);
    assert_eq!(cpu.memory[4095], 0);
}

#[test]
fn register_dump_and_load_round_trip() {
    let mut cpu = Cpu::new();
    for i in 0usize..16 {
        cpu.register[i] = (i as u8) * 3 + 1;
    }
    cpu.address_register = 0x400;
    load_op(&mut cpu, 0x200, 0xF555);
    assert_eq!(cpu.cycle(), Ok(()));
    for i in 0usize..6 {
        assert_eq!(cpu.memory[0x400 + i], (i as u8) * 3 + 1);
    }
    // Memory past the stored range is untouched.
    assert_eq!(cpu.memory[0x406], 0);
    // Clear V0..V5 and load them back.
    for i in 0usize..6 {
        cpu.register[i] = 0;
    }
    load_op(&mut cpu, 0x202, 0xF565);
    assert_eq!(cpu.cycle(), Ok(()));
    for i in 0usize..6 {
        assert_eq!(cpu.register[i], (i as u8) * 3 + 1);
    }
    // Registers past X are untouched by the load.
    assert_eq!(cpu.register[6], 6 * 3 + 1);
}

#[test]
fn register_dump_out_of_bounds_faults() {
    let mut cpu = Cpu::new();
    cpu.address_register = 4091;
    load_op(&mut cpu, 0x200, 0xF555);
    assert_eq!(cpu.cycle(), Err(Fault::OutOfBounds));
    assert_eq!(cpu.program_counter, 0x200);
    assert_eq!(cpu.memory[4091], 0);
}

#[test]
fn store_into_font_region_faults() {
    // FX55 with I inside the reserved font region: fault, font intact.
    let mut cpu = Cpu::new();
    cpu.register[0] = 0x42;
    cpu.address_register = 0;
    load_op(&mut cpu, 0x200, 0xF055);
    assert_eq!(cpu.cycle(), Err(Fault::ReservedWrite));
    assert_eq!(cpu.memory[0], 0xF0);
    assert_eq!(cpu.program_counter, 0x200);
    // FX33 whose range starts on the last font byte: fault, font intact.
    let mut cpu = Cpu::new();
    cpu.register[0] = 123;
    cpu.address_register = 0x4F;
    load_op(&mut cpu, 0x200, 0xF033);
    assert_eq!(cpu.cycle(), Err(Fault::ReservedWrite));
    assert_eq!(cpu.memory[0x4F], 0x80);
    assert_eq!(cpu.memory[0x50], 0);
    assert_eq!(cpu.program_counter, 0x200);
}

#[test]
fn store_just_past_font_region_is_allowed() {
    let mut cpu = Cpu::new();
    cpu.register[0] = 205;
    cpu.address_register = 0x50;
    load_op(&mut cpu, 0x200, 0xF033);
    assert_eq!(cpu.cycle(), Ok(()));
    assert_eq!(cpu.memory[0x50], 2);
    assert_eq!(cpu.memory[0x51], 0);
    assert_eq!(cpu.memory[0x52], 5);
    // The last font byte just below the write is untouched.
    assert_eq!(cpu.memory[0x4F], 0x80);
}

#[test]
fn load_registers_from_font_region_is_allowed() {
    // Reads of the reserved region stay free: FX65 at I = 0 sees glyph 0.
    let mut cpu = Cpu::new();
    cpu.address_register = 0;
    load_op(&mut cpu, 0x200, 0xF465);
    assert_eq!(cpu.cycle(), Ok(()));
    assert_eq!(cpu.register[0], 0xF0);
    assert_eq!(cpu.register[1], 0x90);
    assert_eq!(cpu.register[2], 0x90);
    assert_eq!(cpu.register[3], 0x90);
    assert_eq!(cpu.register[4], 0xF0);
    assert_eq!(cpu.program_counter, 0x202);
}

#[test]
fn random_is_masked_and_deterministic() {
    let mut a = Cpu::new();
    load_op(&mut a, 0x200, 0xC0FF);
    assert_eq!(a.cycle(), Ok(()));
    let mut b = Cpu::new();
    load_op(&mut b, 0x200, 0xC0FF);
    assert_eq!(b.cycle(), Ok(()));
    assert_eq!(a.register[0], b.register[0]);
    // Masking with zero always gives zero, whatever the generator drew.
    let mut c = Cpu::new();
    c.register[1] = 0xAA;
    load_op(&mut c, 0x200, 0xC100);
    assert_eq!(c.cycle(), Ok(()));
    assert_eq!(c.register[1], 0);
    assert_eq!(c.program_counter, 0x202);
}
