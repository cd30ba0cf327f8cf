use chip8::cpu::{Cpu, Fault};

fn load_op(cpu: &mut Cpu, at: usize, op: u16) {
    cpu.memory[at] = (op >> 8) as u8;
    cpu.memory[at + 1] = (op & 0xFF) as u8;
}

fn pixel(cpu: &Cpu, x: usize, y: usize) -> u8 {
    cpu.graphics[y * 64 + x]
}

#[test]
fn initial_state() {
    let cpu = Cpu::new();
    assert_eq!(cpu.program_counter, 0x200);
    assert_eq!(cpu.stack_pointer, 0);
    assert_eq!(cpu.address_register, 0);
    assert_eq!(cpu.delay_timer, 0);
    assert_eq!(cpu.sound_timer, 0);
    // Font glyphs preloaded: first row of glyph 0, last row of glyph 1,
    // first row of glyph F.
    assert_eq!(cpu.memory[0], 0xF0);
    assert_eq!(cpu.memory[9], 0x70);
    assert_eq!(cpu.memory[75], 0xF0);
    // Everything past the font is zero.
    assert_eq!(cpu.memory[80], 0);
    assert_eq!(cpu.memory[4095], 0);
    for i in 0usize..16 {
        assert_eq!(cpu.register[i], 0);
        assert!(!cpu.key[i]);
        assert_eq!(cpu.stack[i], 0);
    }
    for i in 0usize..2048 {
        assert_eq!(cpu.graphics[i], 0);
    }
}

#[test]
fn call_then_return_restores_pc() {
    let mut cpu = Cpu::new();
    load_op(&mut cpu, 0x200, 0x2300);
    load_op(&mut cpu, 0x300, 0x00EE);
    assert_eq!(cpu.cycle(), Ok(()));
    assert_eq!(cpu.program_counter, 0x300);
    assert_eq!(cpu.stack_pointer, 1);
    assert_eq!(cpu.stack[0], 0x200);
    assert_eq!(cpu.cycle(), Ok(()));
    assert_eq!(cpu.program_counter, 0x202);
    assert_eq!(cpu.stack_pointer, 0);
}

#[test]
fn call_return_at_depth_fifteen() {
    // With 15 frames already pushed a further call and return still pair up.
    let mut cpu = Cpu::new();
    cpu.stack_pointer = 15;
    load_op(&mut cpu, 0x200, 0x2300);
    load_op(&mut cpu, 0x300, 0x00EE);
    assert_eq!(cpu.cycle(), Ok(()));
    assert_eq!(cpu.stack_pointer, 16);
    assert_eq!(cpu.cycle(), Ok(()));
    assert_eq!(cpu.program_counter, 0x202);
    assert_eq!(cpu.stack_pointer, 15);
}

#[test]
fn call_overflow_faults_and_preserves_state() {
    let mut cpu = Cpu::new();
    cpu.stack_pointer = 16;
    load_op(&mut cpu, 0x200, 0x2300);
    assert_eq!(cpu.cycle(), Err(Fault::StackOverflow));
    assert_eq!(cpu.program_counter, 0x200);
    assert_eq!(cpu.stack_pointer, 16);
}

#[test]
fn return_underflow_faults() {
    let mut cpu = Cpu::new();
    load_op(&mut cpu, 0x200, 0x00EE);
    assert_eq!(cpu.cycle(), Err(Fault::StackUnderflow));
    assert_eq!(cpu.program_counter, 0x200);
}

#[test]
fn unknown_opcode_faults_and_preserves_state() {
    let mut cpu = Cpu::new();
    load_op(&mut cpu, 0x200, 0x0123);
    assert_eq!(cpu.cycle(), Err(Fault::UnknownOpcode));
    assert_eq!(cpu.program_counter, 0x200);
    let mut cpu = Cpu::new();
    load_op(&mut cpu, 0x200, 0x8008);
    assert_eq!(cpu.cycle(), Err(Fault::UnknownOpcode));
    let mut cpu = Cpu::new();
    load_op(&mut cpu, 0x200, 0xE000);
    assert_eq!(cpu.cycle(), Err(Fault::UnknownOpcode));
    let mut cpu = Cpu::new();
    load_op(&mut cpu, 0x200, 0xF099);
    assert_eq!(cpu.cycle(), Err(Fault::UnknownOpcode));
}

#[test]
fn fetch_at_end_of_memory_faults() {
    let mut cpu = Cpu::new();
    cpu.program_counter = 4095;
    assert_eq!(cpu.cycle(), Err(Fault::OutOfBounds));
    assert_eq!(cpu.program_counter, 4095);
}

#[test]
fn clear_screen_zeroes_framebuffer() {
    let mut cpu = Cpu::new();
    cpu.graphics[0] = 1;
    cpu.graphics[2047] = 1;
    load_op(&mut cpu, 0x200, 0x00E0);
    assert_eq!(cpu.cycle(), Ok(()));
    for i in 0usize..2048 {
        assert_eq!(cpu.graphics[i], 0);
    }
    assert_eq!(cpu.program_counter, 0x202);
}

#[test]
fn draw_sets_pixels_and_reports_no_collision() {
    let mut cpu = Cpu::new();
    cpu.memory[0x600] = 0b1010_0000;
    cpu.memory[0x601] = 0b0100_0000;
    cpu.address_register = 0x600;
    cpu.register[0] = 10;
    cpu.register[1] = 5;
    load_op(&mut cpu, 0x200, 0xD012);
    assert_eq!(cpu.cycle(), Ok(()));
    assert_eq!(pixel(&cpu, 10, 5), 1);
    assert_eq!(pixel(&cpu, 11, 5), 0);
    assert_eq!(pixel(&cpu, 12, 5), 1);
    assert_eq!(pixel(&cpu, 10, 6), 0);
    assert_eq!(pixel(&cpu, 11, 6), 1);
    assert_eq!(cpu.register[15], 0);
    assert_eq!(cpu.program_counter, 0x202);
}

#[test]
fn draw_wraps_at_right_edge() {
    // A full row byte at x = 60: four bits land at 60..63, four wrap to 0..3.
    let mut cpu = Cpu::new();
    cpu.memory[0x600] = 0xFF;
    cpu.address_register = 0x600;
    cpu.register[0] = 60;
    cpu.register[1] = 0;
    load_op(&mut cpu, 0x200, 0xD011);
    assert_eq!(cpu.cycle(), Ok(()));
    for x in 60usize..64 {
        assert_eq!(pixel(&cpu, x, 0), 1);
    }
    for x in 0usize..4 {
        assert_eq!(pixel(&cpu, x, 0), 1);
    }
    assert_eq!(pixel(&cpu, 4, 0), 0);
    assert_eq!(pixel(&cpu, 59, 0), 0);
    assert_eq!(cpu.register[15], 0);
}

#[test]
fn draw_wraps_at_bottom_edge() {
    let mut cpu = Cpu::new();
    cpu.memory[0x600] = 0x80;
    cpu.memory[0x601] = 0x80;
    cpu.address_register = 0x600;
    cpu.register[0] = 0;
    cpu.register[1] = 31;
    load_op(&mut cpu, 0x200, 0xD012);
    assert_eq!(cpu.cycle(), Ok(()));
    assert_eq!(pixel(&cpu, 0, 31), 1);
    assert_eq!(pixel(&cpu, 0, 0), 1);
    assert_eq!(pixel(&cpu, 0, 1), 0);
}

#[test]
fn draw_twice_restores_and_reports_collision() {
    // The XOR blit is self-inverse; the second application collides on
    // every pixel the first one set.
    let mut cpu = Cpu::new();
    cpu.memory[0x600] = 0x3C;
    cpu.memory[0x601] = 0xC3;
    cpu.address_register = 0x600;
    cpu.register[0] = 20;
    cpu.register[1] = 10;
    load_op(&mut cpu, 0x200, 0xD012);
    load_op(&mut cpu, 0x202, 0xD012);
    assert_eq!(cpu.cycle(), Ok(()));
    assert_eq!(cpu.register[15], 0);
    assert_eq!(pixel(&cpu, 22, 10), 1);
    assert_eq!(cpu.cycle(), Ok(()));
    assert_eq!(cpu.register[15], 1);
    for i in 0usize..2048 {
        assert_eq!(cpu.graphics[i], 0);
    }
}

#[test]
fn draw_out_of_bounds_sprite_faults() {
    let mut cpu = Cpu::new();
    cpu.address_register = 4090;
    load_op(&mut cpu, 0x200, 0xD017);
    assert_eq!(cpu.cycle(), Err(Fault::OutOfBounds));
    assert_eq!(cpu.program_counter, 0x200);
}

#[test]
fn skip_if_key_pressed() {
    let mut cpu = Cpu::new();
    cpu.register[0] = 5;
    cpu.set_key(5, true);
    load_op(&mut cpu, 0x200, 0xE09E);
    assert_eq!(cpu.cycle(), Ok(()));
    assert_eq!(cpu.program_counter, 0x204);
    let mut cpu = Cpu::new();
    cpu.register[0] = 5;
    load_op(&mut cpu, 0x200, 0xE09E);
    assert_eq!(cpu.cycle(), Ok(()));
    assert_eq!(cpu.program_counter, 0x202);
}

#[test]
fn skip_if_key_not_pressed() {
    let mut cpu = Cpu::new();
    cpu.register[0] = 5;
    load_op(&mut cpu, 0x200, 0xE0A1);
    assert_eq!(cpu.cycle(), Ok(()));
    assert_eq!(cpu.program_counter, 0x204);
    let mut cpu = Cpu::new();
    cpu.register[0] = 5;
    cpu.set_key(5, true);
    load_op(&mut cpu, 0x200, 0xE0A1);
    assert_eq!(cpu.cycle(), Ok(()));
    assert_eq!(cpu.program_counter, 0x202);
}

#[test]
fn key_index_uses_low_nibble() {
    let mut cpu = Cpu::new();
    cpu.register[0] = 0x13;
    cpu.set_key(3, true);
    load_op(&mut cpu, 0x200, 0xE09E);
    assert_eq!(cpu.cycle(), Ok(()));
    assert_eq!(cpu.program_counter, 0x204);
}

#[test]
fn wait_key_re_presents_until_pressed() {
    let mut cpu = Cpu::new();
    load_op(&mut cpu, 0x200, 0xF50A);
    // No key pressed: the step retires nothing, twice over.
    assert_eq!(cpu.cycle(), Ok(()));
    assert_eq!(cpu.program_counter, 0x200);
    assert_eq!(cpu.register[5], 0);
    assert_eq!(cpu.cycle(), Ok(()));
    assert_eq!(cpu.program_counter, 0x200);
    // A key arrives: exactly one further step completes the instruction.
    cpu.set_key(7, true);
    assert_eq!(cpu.cycle(), Ok(()));
    assert_eq!(cpu.register[5], 7);
    assert_eq!(cpu.program_counter, 0x202);
}

#[test]
fn wait_key_takes_smallest_pressed_index() {
    let mut cpu = Cpu::new();
    cpu.set_key(9, true);
    cpu.set_key(4, true);
    load_op(&mut cpu, 0x200, 0xF30A);
    assert_eq!(cpu.cycle(), Ok(()));
    assert_eq!(cpu.register[3], 4);
}

#[test]
fn timers_set_read_and_tick() {
    let mut cpu = Cpu::new();
    cpu.register[1] = 3;
    load_op(&mut cpu, 0x200, 0xF115);
    load_op(&mut cpu, 0x202, 0xF118);
    load_op(&mut cpu, 0x204, 0xF207);
    assert_eq!(cpu.cycle(), Ok(()));
    assert_eq!(cpu.delay_timer, 3);
    assert_eq!(cpu.cycle(), Ok(()));
    assert_eq!(cpu.sound_timer, 3);
    // FX07 reads the delay timer into VX.
    assert_eq!(cpu.cycle(), Ok(()));
    assert_eq!(cpu.register[2], 3);
    // The external tick decrements both timers, floored at zero.
    cpu.tick_timers();
    assert_eq!(cpu.delay_timer, 2);
    assert_eq!(cpu.sound_timer, 2);
    cpu.tick_timers();
    cpu.tick_timers();
    assert_eq!(cpu.delay_timer, 0);
    assert_eq!(cpu.sound_timer, 0);
    cpu.tick_timers();
    assert_eq!(cpu.delay_timer, 0);
    assert_eq!(cpu.sound_timer, 0);
}

#[test]
fn tick_does_not_touch_other_state() {
    let mut cpu = Cpu::new();
    cpu.delay_timer = 1;
    cpu.register[0] = 9;
    cpu.program_counter = 0x300;
    cpu.tick_timers();
    assert_eq!(cpu.register[0], 9);
    assert_eq!(cpu.program_counter, 0x300);
}

#[test]
fn load_program_places_image_at_base() {
    let mut cpu = Cpu::new();
    let prog: Vec<u8> = vec![0x60, 0x05, 0xA2, 0x00];
    assert_eq!(cpu.load_program(&prog), Ok(()));
    assert_eq!(cpu.memory[0x200], 0x60);
    assert_eq!(cpu.memory[0x201], 0x05);
    assert_eq!(cpu.memory[0x202], 0xA2);
    assert_eq!(cpu.memory[0x203], 0x00);
    assert_eq!(cpu.memory[0x204], 0);
    assert_eq!(cpu.cycle(), Ok(()));
    assert_eq!(cpu.register[0], 5);
}

#[test]
fn load_program_too_large_is_rejected() {
    let mut cpu = Cpu::new();
    let prog: Vec<u8> = vec![0xAB; 3585];
    assert_eq!(cpu.load_program(&prog), Err(Fault::ProgramTooLarge));
    // Nothing was written.
    assert_eq!(cpu.memory[0x200], 0);
    // The largest image that fits is accepted.
    let prog: Vec<u8> = vec![0xAB; 3584];
    assert_eq!(cpu.load_program(&prog), Ok(()));
    assert_eq!(cpu.memory[0x200], 0xAB);
    assert_eq!(cpu.memory[4095], 0xAB);
}

#[test]
fn countdown_loop_program() {
    // V0 counts 5 down to 0 while V1 accumulates: V1 = 5+4+3+2+1 = 15.
    let mut cpu = Cpu::new();
    let prog: Vec<u8> = vec![
        0x60, 0x05, // 0x200: V0 = 5
        0x61, 0x00, // 0x202: V1 = 0
        0x81, 0x04, // 0x204: V1 += V0
        0x70, 0xFF, // 0x206: V0 += 0xFF (wraps: minus one)
        0x30, 0x00, // 0x208: skip next if V0 == 0
        0x12, 0x04, // 0x20A: jump 0x204
    ];
    assert_eq!(cpu.load_program(&prog), Ok(()));
    let mut steps: usize = 0;
    while cpu.program_counter != 0x20C {
        assert_eq!(cpu.cycle(), Ok(()));
        steps += 1;
        assert!(steps < 100);
    }
    assert_eq!(cpu.register[1], 15);
    assert_eq!(cpu.register[0], 0);
}

#[test]
fn draw_empty_sprite_changes_nothing() {
    let mut cpu = Cpu::new();
    cpu.graphics[5] = 1;
    cpu.register[15] = 1;
    load_op(&mut cpu, 0x200, 0xD010);
    assert_eq!(cpu.cycle(), Ok(()));
    assert_eq!(cpu.graphics[5], 1);
    // No row, so no pixel and no collision: VF is cleared.
    assert_eq!(cpu.register[15], 0);
    assert_eq!(cpu.program_counter, 0x202);
}

#[test]
fn program_counter_wraps_modulo_4096() {
    let mut cpu = Cpu::new();
    cpu.program_counter = 4094;
    load_op(&mut cpu, 4094, 0x6001);
    assert_eq!(cpu.cycle(), Ok(()));
    assert_eq!(cpu.register[0], 1);
    assert_eq!(cpu.program_counter, 0);
}
