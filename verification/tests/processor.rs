use chip8::model::VmError;
use chip8::processor::Processor;

const NO_KEYS: [bool; 16] = [false; 16];

fn step(cpu: &mut Processor) -> (bool, bool) {
    cpu.run_cycle(NO_KEYS).unwrap()
}

#[test]
fn test_pc_advance() {
    let mut cpu = Processor::new();

    cpu.load_image(&vec![0x00, 0xE0]).unwrap();

    cpu.run_cycle([false; 16]).unwrap();

    assert_eq!(
        0x202,
        cpu.pc(),
        "PC should be incremented by 2 after a normal instruction"
    );
}

#[test]
fn test_pc_skip() {
    let mut cpu = Processor::new();

    cpu.load_image(&vec![0x30, 0x00]).unwrap();

    cpu.run_cycle([false; 16]).unwrap();

    assert_eq!(
        0x204,
        cpu.pc(),
        "PC should be incremented by 4 after a skip instruction"
    );
}

#[test]
fn test_pc_jump() {
    let mut cpu = Processor::new();

    cpu.load_image(&vec![0x1A, 0xBC]).unwrap();

    cpu.run_cycle([false; 16]).unwrap();

    assert_eq!(
        0xABC,
        cpu.pc(),
        "PC should be set to address value after a jump instruction"
    );
}

// 7xkk wraps modulo 256 and does not touch the flags register.
#[test]
fn test_add_byte_wraps_without_flag() {
    let mut cpu = Processor::new();
    // VF = 1, V0 = 200, V0 += 100
    cpu.load_image(&vec![0x6F, 0x01, 0x60, 0xC8, 0x70, 0x64]).unwrap();
    step(&mut cpu);
    step(&mut cpu);
    step(&mut cpu);
    assert_eq!(cpu.register(0), 44); // (200 + 100) mod 256
    assert_eq!(cpu.register(0xF), 1); // flag untouched
    assert_eq!(cpu.pc(), 0x206);
}

// 8xy4 stores (Vx + Vy) mod 256 and raises the carry exactly on overflow.
#[test]
fn test_add_carry_set_on_overflow() {
    let mut cpu = Processor::new();
    // V0 = 200, V1 = 100, V0 += V1
    cpu.load_image(&vec![0x60, 0xC8, 0x61, 0x64, 0x80, 0x14]).unwrap();
    step(&mut cpu);
    step(&mut cpu);
    step(&mut cpu);
    assert_eq!(cpu.register(0), 44);
    assert_eq!(cpu.register(0xF), 1);
}

// Scenario: V0 = 5, V1 = 3, V0 += V1 -> V0 = 8, no carry, PC advanced thrice.
#[test]
fn test_add_carry_clear_without_overflow() {
    let mut cpu = Processor::new();
    cpu.load_image(&vec![0x60, 0x05, 0x61, 0x03, 0x80, 0x14]).unwrap();
    step(&mut cpu);
    step(&mut cpu);
    step(&mut cpu);
    assert_eq!(cpu.register(0), 8);
    assert_eq!(cpu.register(0xF), 0);
    assert_eq!(cpu.pc(), 0x200 + 6);
}

// 8xy5 subtracts modulo 256; VF = 1 exactly when Vx > Vy.
#[test]
fn test_sub_not_borrow() {
    let mut cpu = Processor::new();
    // V0 = 5, V1 = 3, V0 -= V1
    cpu.load_image(&vec![0x60, 0x05, 0x61, 0x03, 0x80, 0x15]).unwrap();
    step(&mut cpu);
    step(&mut cpu);
    step(&mut cpu);
    assert_eq!(cpu.register(0), 2);
    assert_eq!(cpu.register(0xF), 1);
}

#[test]
fn test_sub_borrow_wraps() {
    let mut cpu = Processor::new();
    // V0 = 3, V1 = 5, V0 -= V1
    cpu.load_image(&vec![0x60, 0x03, 0x61, 0x05, 0x80, 0x15]).unwrap();
    step(&mut cpu);
    step(&mut cpu);
    step(&mut cpu);
    assert_eq!(cpu.register(0), 254); // (3 - 5) mod 256
    assert_eq!(cpu.register(0xF), 0); // borrow happened
}

// 8xy6 captures the dropped low bit in VF before shifting right.
#[test]
fn test_shift_right_captures_low_bit() {
    let mut cpu = Processor::new();
    cpu.load_image(&vec![0x60, 0x05, 0x80, 0x06]).unwrap();
    step(&mut cpu);
    step(&mut cpu);
    assert_eq!(cpu.register(0), 2);
    assert_eq!(cpu.register(0xF), 1);
}

// 8xyE captures the dropped high bit in VF before shifting left.
#[test]
fn test_shift_left_captures_high_bit() {
    let mut cpu = Processor::new();
    cpu.load_image(&vec![0x60, 0x81, 0x80, 0x0E]).unwrap();
    step(&mut cpu);
    step(&mut cpu);
    assert_eq!(cpu.register(0), 2); // (0x81 * 2) mod 256
    assert_eq!(cpu.register(0xF), 1);
}

// Drawing the same sprite at the same position twice restores the
// framebuffer exactly.
#[test]
fn test_draw_twice_restores_framebuffer() {
    let mut cpu = Processor::new();
    // I = 0 (font glyph 0), draw 5 rows at (V0, V1) = (0, 0), twice.
    cpu.load_image(&vec![0xA0, 0x00, 0xD0, 0x15, 0xD0, 0x15]).unwrap();
    cpu.set_pixel(0, 0, true);
    cpu.set_pixel(5, 3, true);
    cpu.set_pixel(63, 31, true);
    let before: [u8; 2048] = *cpu.get_vram_ref();
    step(&mut cpu);
    step(&mut cpu);
    let (redraw, _beep) = step(&mut cpu);
    assert!(redraw);
    let after = cpu.get_vram_ref();
    assert_eq!(&before[..], &after[..]);
}

// An 8-bit-wide sprite drawn at column 60 wraps: columns 60-63, then 0-3.
#[test]
fn test_draw_wraps_columns() {
    let mut cpu = Processor::new();
    // V0 = 60, I = 0x206 (the 0xFF data byte below), draw 1 row at (V0, V1).
    cpu.load_image(&vec![0x60, 0x3C, 0xA2, 0x06, 0xD0, 0x11, 0xFF, 0x00]).unwrap();
    step(&mut cpu);
    step(&mut cpu);
    step(&mut cpu);
    let vram = cpu.get_vram_ref();
    for col in 0..64 {
        let expected = if (60..64).contains(&col) || col < 4 { 1 } else { 0 };
        assert_eq!(vram[col], expected, "column {}", col);
    }
    // nothing outside row 0 is touched
    for p in 64..2048 {
        assert_eq!(vram[p], 0);
    }
}

// A call followed by a return lands on the instruction after the call.
#[test]
fn test_call_then_return() {
    let mut cpu = Processor::new();
    // 0x200: call 0x204; 0x204: return
    cpu.load_image(&vec![0x22, 0x04, 0x00, 0x00, 0x00, 0xEE]).unwrap();
    step(&mut cpu);
    assert_eq!(cpu.pc(), 0x204);
    step(&mut cpu);
    assert_eq!(cpu.pc(), 0x202);
}

// Fx0A blocks while no key is pressed and stores the lowest pressed key
// index in the cycle a key appears.
#[test]
fn test_wait_key_blocks_then_advances() {
    let mut cpu = Processor::new();
    cpu.load_image(&vec![0xF5, 0x0A]).unwrap();
    for _ in 0..3 {
        step(&mut cpu);
        assert_eq!(cpu.pc(), 0x200);
    }
    let mut keys = [false; 16];
    keys[9] = true;
    keys[7] = true;
    cpu.run_cycle(keys).unwrap();
    assert_eq!(cpu.pc(), 0x202);
    assert_eq!(cpu.register(5), 7);
}

// Clear-screen zeroes a fully lit framebuffer and reports a redraw.
#[test]
fn test_clear_screen() {
    let mut cpu = Processor::new();
    cpu.load_image(&vec![0x00, 0xE0]).unwrap();
    for row in 0..32 {
        for col in 0..64 {
            cpu.set_pixel(col, row, true);
        }
    }
    let (redraw, _beep) = step(&mut cpu);
    assert!(redraw);
    assert!(cpu.get_vram_ref().iter().all(|&p| p == 0));
}

// A delay timer set to 1 reads 0 on the following cycle and never wraps.
#[test]
fn test_delay_timer_floors_at_zero() {
    let mut cpu = Processor::new();
    // V1 = 1, delay := V1, V2 := delay
    cpu.load_image(&vec![0x61, 0x01, 0xF1, 0x15, 0xF2, 0x07]).unwrap();
    step(&mut cpu);
    step(&mut cpu); // delay set to 1, then ticked down to 0
    step(&mut cpu); // V2 := delay
    assert_eq!(cpu.register(2), 0);
}

// The sound timer drives the beep output while it is running.
#[test]
fn test_sound_timer_beeps() {
    let mut cpu = Processor::new();
    // V1 = 3, sound := V1, then an idle register load
    cpu.load_image(&vec![0x61, 0x03, 0xF1, 0x18, 0x62, 0x00]).unwrap();
    let (_r, beep) = step(&mut cpu);
    assert!(!beep);
    let (_r, beep) = step(&mut cpu); // sound := 3, ticked to 2
    assert!(beep);
    let (_r, beep) = step(&mut cpu); // ticked to 1
    assert!(beep);
}

// An unrecognized nibble pattern is a fatal decode error.
#[test]
fn test_decode_error() {
    let mut cpu = Processor::new();
    cpu.load_image(&vec![0x00, 0x00]).unwrap();
    assert_eq!(cpu.run_cycle(NO_KEYS), Err(VmError::DecodeError));
}

// Returning with an empty call stack is a fatal underflow.
#[test]
fn test_stack_underflow() {
    let mut cpu = Processor::new();
    cpu.load_image(&vec![0x00, 0xEE]).unwrap();
    assert_eq!(cpu.run_cycle(NO_KEYS), Err(VmError::StackUnderflow));
}

// The seventeenth nested call overflows the 16-entry call stack.
#[test]
fn test_stack_overflow() {
    let mut cpu = Processor::new();
    // 0x200: call 0x200, forever
    cpu.load_image(&vec![0x22, 0x00]).unwrap();
    for _ in 0..16 {
        assert!(cpu.run_cycle(NO_KEYS).is_ok());
    }
    assert_eq!(cpu.run_cycle(NO_KEYS), Err(VmError::StackOverflow));
}

// Growing the address register out of the address space is fatal.
#[test]
fn test_address_register_out_of_bounds() {
    let mut cpu = Processor::new();
    // I = 0xFFF, V0 = 1, I += V0
    cpu.load_image(&vec![0xAF, 0xFF, 0x60, 0x01, 0xF0, 0x1E]).unwrap();
    step(&mut cpu);
    step(&mut cpu);
    assert_eq!(cpu.run_cycle(NO_KEYS), Err(VmError::OutOfBoundsAddress));
    assert_eq!(cpu.index_register(), 0xFFF);
}

// A jump to the last byte leaves no room to fetch an instruction: fatal.
#[test]
fn test_jump_to_edge_out_of_bounds() {
    let mut cpu = Processor::new();
    cpu.load_image(&vec![0x1F, 0xFF]).unwrap();
    assert_eq!(cpu.run_cycle(NO_KEYS), Err(VmError::OutOfBoundsAddress));
}

// A key test against a register value that names no key is fatal.
#[test]
fn test_key_index_out_of_bounds() {
    let mut cpu = Processor::new();
    // V0 = 200, skip if key V0 pressed
    cpu.load_image(&vec![0x60, 0xC8, 0xE0, 0x9E]).unwrap();
    step(&mut cpu);
    assert_eq!(cpu.run_cycle(NO_KEYS), Err(VmError::OutOfBoundsAddress));
}

// A random byte masked with zero is zero, whatever the source produced.
#[test]
fn test_random_masked_with_zero() {
    let mut cpu = Processor::new();
    cpu.load_image(&vec![0x60, 0xFF, 0xC0, 0x00]).unwrap();
    step(&mut cpu);
    step(&mut cpu);
    assert_eq!(cpu.register(0), 0);
}

// Ex9E skips exactly when the named key is pressed.
#[test]
fn test_skip_if_key_pressed() {
    let mut cpu = Processor::new();
    cpu.load_image(&vec![0x60, 0x04, 0xE0, 0x9E, 0x00, 0x00, 0xE0, 0x9E]).unwrap();
    let mut keys = [false; 16];
    keys[4] = true;
    cpu.run_cycle(keys).unwrap();
    cpu.run_cycle(keys).unwrap();
    assert_eq!(cpu.pc(), 0x206); // skipped the filler word
    cpu.run_cycle(NO_KEYS).unwrap();
    assert_eq!(cpu.pc(), 0x208); // key up: no skip
}

// ExA1 skips exactly when the named key is not pressed.
#[test]
fn test_skip_if_key_not_pressed() {
    let mut cpu = Processor::new();
    cpu.load_image(&vec![0x60, 0x04, 0xE0, 0xA1]).unwrap();
    step(&mut cpu);
    cpu.run_cycle(NO_KEYS).unwrap();
    assert_eq!(cpu.pc(), 0x206);
}

// Fx33 decomposes a register into decimal digits; Fx65 reads them back.
#[test]
fn test_bcd_store_and_load() {
    let mut cpu = Processor::new();
    // V0 = 234, I = 0x300, store BCD, load V0..V2 from memory
    cpu.load_image(&vec![0x60, 0xEA, 0xA3, 0x00, 0xF0, 0x33, 0xF2, 0x65]).unwrap();
    for _ in 0..4 {
        step(&mut cpu);
    }
    assert_eq!(cpu.register(0), 2);
    assert_eq!(cpu.register(1), 3);
    assert_eq!(cpu.register(2), 4);
}

// Fx55 stores a register block; Fx65 restores it after it is clobbered.
#[test]
fn test_store_and_load_registers() {
    let mut cpu = Processor::new();
    cpu.load_image(&vec![
        0x60, 0x01, // V0 = 1
        0x61, 0x02, // V1 = 2
        0xA3, 0x00, // I = 0x300
        0xF1, 0x55, // store V0..V1
        0x60, 0x00, // V0 = 0
        0x61, 0x00, // V1 = 0
        0xF1, 0x65, // load V0..V1
    ])
    .unwrap();
    for _ in 0..7 {
        step(&mut cpu);
    }
    assert_eq!(cpu.register(0), 1);
    assert_eq!(cpu.register(1), 2);
}

// Fx29 points the address register at the 5-byte font glyph for the digit.
#[test]
fn test_font_addr_and_font_contents() {
    let mut cpu = Processor::new();
    // V0 = 0, I = glyph(V0), load V4..V0 from the glyph
    cpu.load_image(&vec![0x60, 0x00, 0xF0, 0x29, 0xF4, 0x65]).unwrap();
    step(&mut cpu);
    step(&mut cpu);
    assert_eq!(cpu.index_register(), 0);
    step(&mut cpu);
    assert_eq!(
        [
            cpu.register(0),
            cpu.register(1),
            cpu.register(2),
            cpu.register(3),
            cpu.register(4)
        ],
        [0xF0, 0x90, 0x90, 0x90, 0xF0]
    );
}

// An image larger than the free space is rejected whole.
#[test]
fn test_load_image_overflow() {
    let mut cpu = Processor::new();
    assert_eq!(
        cpu.load_image(&vec![0u8; 3585]),
        Err(VmError::OutOfBoundsAddress)
    );
    assert!(cpu.load_image(&vec![0u8; 3584]).is_ok());
}

// Bnnn jumps to nnn displaced by V0.
#[test]
fn test_jump_plus_v0() {
    let mut cpu = Processor::new();
    cpu.load_image(&vec![0x60, 0x10, 0xB3, 0x00]).unwrap();
    step(&mut cpu);
    step(&mut cpu);
    assert_eq!(cpu.pc(), 0x310);
}
