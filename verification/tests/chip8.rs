use chip8::chip8::Chip8;

// The bare machine aggregate starts zeroed with the program counter at the
// conventional load address.
#[test]
fn test_bare_machine_initial_state() {
    let m = Chip8::new();
    assert_eq!(m.pc, 0x200);
    assert_eq!(m.i_reg, 0);
    assert_eq!(m.delay_timer, 0);
    assert_eq!(m.sound_timer, 0);
    assert!(m.mem.iter().all(|&b| b == 0));
    assert!(m.v_reg.iter().all(|&b| b == 0));
    assert!(m.stack.iter().all(|&w| w == 0));
}
