use chippy::{Chip8Error, DebugController, RunState, StepStatus, CPU};

const NO_KEYS: [bool; 16] = [false; 16];

fn run_to_end(cpu: &mut CPU, limit: usize) -> StepStatus {
    for _ in 0..limit {
        let outcome = cpu.step(&NO_KEYS);
        if outcome.status != StepStatus::Continued {
            return outcome.status;
        }
    }
    StepStatus::Continued
}

#[test]
fn add_program_runs_to_completion() {
    let mut cpu = CPU::new();
    cpu.load(&[0x60, 0x05, 0x61, 0x03, 0x80, 0x14, 0x00, 0x00]).unwrap();
    let result = cpu.run(&NO_KEYS, 1000);
    assert_eq!(result.map(|outcome| outcome.status), Ok(StepStatus::Halted));
    assert_eq!(cpu.register(0), 8);
    assert_eq!(cpu.register(0xF), 0);
    assert_eq!(cpu.register(1), 3);
    assert_eq!(cpu.program_counter(), 0x208);
}

#[test]
fn add_program_step_by_step() {
    let mut cpu = CPU::new();
    cpu.load(&[0x60, 0x05, 0x61, 0x03, 0x80, 0x14, 0x00, 0x00]).unwrap();
    assert_eq!(cpu.step(&NO_KEYS).status, StepStatus::Continued);
    assert_eq!(cpu.register(0), 5);
    assert_eq!(cpu.program_counter(), 0x202);
    assert_eq!(cpu.step(&NO_KEYS).status, StepStatus::Continued);
    assert_eq!(cpu.register(1), 3);
    assert_eq!(cpu.step(&NO_KEYS).status, StepStatus::Continued);
    assert_eq!(cpu.register(0), 8);
    assert_eq!(cpu.step(&NO_KEYS).status, StepStatus::Halted);
    assert_eq!(cpu.program_counter(), 0x208);
}

#[test]
fn glyph_zero_is_drawn_top_left() {
    let mut cpu = CPU::new();
    cpu.load(&[0xA0, 0x00, 0xD0, 0x05, 0x00, 0x00]).unwrap();
    assert_eq!(run_to_end(&mut cpu, 100), StepStatus::Halted);
    let glyph: [u8; 5] = [0xF0, 0x90, 0x90, 0x90, 0xF0];
    let (pixels, width, height) = cpu.framebuffer_snapshot();
    assert_eq!((width, height), (64, 32));
    assert_eq!(pixels.len(), 64 * 32);
    for row in 0..32 {
        for col in 0..64 {
            let expected = row < 5 && col < 8 && (glyph[row] >> (7 - col)) & 1 == 1;
            assert_eq!(pixels[row * width + col], expected, "pixel ({col}, {row})");
        }
    }
    // the four columns of the glyph, row by row
    let rows: Vec<Vec<bool>> =
        (0..5).map(|row| (0..4).map(|col| pixels[row * width + col]).collect()).collect();
    assert_eq!(rows[0], vec![true, true, true, true]);
    assert_eq!(rows[1], vec![true, false, false, true]);
    assert_eq!(rows[2], vec![true, false, false, true]);
    assert_eq!(rows[3], vec![true, false, false, true]);
    assert_eq!(rows[4], vec![true, true, true, true]);
    assert_eq!(cpu.register(0xF), 0);
}

#[test]
fn illegal_instruction_is_an_error_without_debugger() {
    let mut cpu = CPU::new();
    let outcome = cpu.dispatch(0xFFFF, 0);
    assert_eq!(outcome.status, StepStatus::Faulted(Chip8Error::IllegalInstruction(0xFFFF)));
    assert!(!outcome.tone_requested);
    assert!(!outcome.display_dirty);
}

#[test]
fn illegal_instruction_ends_the_run() {
    let mut cpu = CPU::new();
    // FFFF, then instructions that must never run
    cpu.load(&[0xFF, 0xFF, 0x60, 0x07, 0x00, 0x00]).unwrap();
    assert_eq!(cpu.run(&NO_KEYS, 1000), Err(Chip8Error::IllegalInstruction(0xFFFF)));
    assert_eq!(cpu.register(0), 0);
    assert_eq!(cpu.program_counter(), 0x202);
}

#[test]
fn illegal_instruction_halts_the_debugger() {
    let mut cpu = CPU::with_debug(DebugController::new());
    cpu.load(&[0xFF, 0xFF, 0x60, 0x07, 0x00, 0x00]).unwrap();
    let result = cpu.run(&NO_KEYS, 1000).unwrap();
    assert_eq!(result.status, StepStatus::Faulted(Chip8Error::IllegalInstruction(0xFFFF)));
    let controller = cpu.debug_controller().unwrap();
    assert_eq!(controller.state(), RunState::Halted);
    assert!(controller.is_faulted());
    // neither resume nor step revives it
    cpu.resume();
    assert_eq!(cpu.step(&NO_KEYS).status, StepStatus::Paused);
    cpu.single_step();
    assert_eq!(cpu.step(&NO_KEYS).status, StepStatus::Paused);
    assert_eq!(cpu.register(0), 0);
    assert_eq!(cpu.program_counter(), 0x202);
}

fn populated() -> CPU {
    let mut cpu = CPU::new();
    cpu.ld_i_addr(0);
    cpu.drw_vx_vy_n(0, 0, 5).unwrap();
    assert!(cpu.framebuffer_snapshot().0.iter().any(|lit| *lit));
    cpu
}

#[test]
fn both_clear_encodings_zero_the_display() {
    for word in [0x00E0u16, 0x2030] {
        let mut cpu = populated();
        let outcome = cpu.dispatch(word, 0);
        assert_eq!(outcome.status, StepStatus::Continued);
        assert!(outcome.display_dirty);
        let (pixels, width, height) = cpu.framebuffer_snapshot();
        assert_eq!(pixels.len(), width * height);
        assert!(pixels.iter().all(|lit| !*lit), "{word:04x}");
        assert_eq!(cpu.stack_pointer(), 0);
        assert_eq!(cpu.program_counter(), 0x202);
    }
}

#[test]
fn reverse_subtract_without_borrow() {
    let mut cpu = CPU::new();
    cpu.ld_vx_nn(2, 3);
    cpu.ld_vx_nn(3, 10);
    cpu.subn_vx_vy(2, 3);
    assert_eq!(cpu.register(2), 7);
    assert_eq!(cpu.register(0xF), 1);
    assert_eq!(cpu.register(3), 10);
}

#[test]
fn reverse_subtract_program() {
    let mut cpu = CPU::new();
    cpu.load(&[0x62, 0x03, 0x63, 0x0A, 0x82, 0x37, 0x00, 0x00]).unwrap();
    assert_eq!(run_to_end(&mut cpu, 100), StepStatus::Halted);
    assert_eq!(cpu.register(2), 7);
    assert_eq!(cpu.register(0xF), 1);
}

#[test]
fn decimal_digits_of_239() {
    let mut cpu = CPU::new();
    cpu.ld_vx_nn(4, 239);
    cpu.ld_i_addr(0x400);
    cpu.ld_b_vx(4).unwrap();
    assert_eq!(cpu.memory_at(0x400), Some(2));
    assert_eq!(cpu.memory_at(0x401), Some(3));
    assert_eq!(cpu.memory_at(0x402), Some(9));
    assert_eq!(cpu.memory_at(0x403), Some(0));
    assert_eq!(cpu.memory_at(0x3FF), Some(0));
}

#[test]
fn decimal_digits_program() {
    let mut cpu = CPU::new();
    cpu.load(&[0x60, 0xEF, 0xA3, 0x00, 0xF0, 0x33, 0x00, 0x00]).unwrap();
    assert_eq!(run_to_end(&mut cpu, 100), StepStatus::Halted);
    assert_eq!(
        [cpu.memory_at(0x300), cpu.memory_at(0x301), cpu.memory_at(0x302)],
        [Some(2), Some(3), Some(9)]
    );
}

#[test]
fn marker_gives_the_tall_display() {
    let mut program = vec![0u8; 0x2C2 - 0x200];
    program[0] = 0x12;
    program[1] = 0x60;
    // at 0x260: 6001, at 0x2C0: 6002
    program[0x60] = 0x60;
    program[0x61] = 0x01;
    program[0xC0] = 0x60;
    program[0xC1] = 0x02;
    let mut cpu = CPU::new();
    cpu.load(&program).unwrap();
    assert_eq!(cpu.framebuffer_snapshot().2, 32);
    let outcome = cpu.step(&NO_KEYS);
    assert_eq!(outcome.status, StepStatus::Continued);
    assert!(outcome.display_dirty);
    let (pixels, width, height) = cpu.framebuffer_snapshot();
    assert_eq!((width, height), (64, 64));
    assert_eq!(pixels.len(), 64 * 64);
    assert!(pixels.iter().all(|lit| !*lit));
    assert_eq!(cpu.program_counter(), 0x2C0);
    cpu.step(&NO_KEYS);
    assert_eq!(cpu.register(0), 2);
}

#[test]
fn marker_counts_only_as_first_instruction() {
    // 0x200: 6005, 0x202: 1206 (jump to 0x206), 0x204: 1260, 0x206: 1204
    let mut program = vec![0u8; 0x62];
    program[..8].copy_from_slice(&[0x60, 0x05, 0x12, 0x06, 0x12, 0x60, 0x12, 0x04]);
    let mut cpu = CPU::new();
    cpu.load(&program).unwrap();
    for _ in 0..4 {
        assert_eq!(cpu.step(&NO_KEYS).status, StepStatus::Continued);
    }
    // the 1260 at 0x204 was an ordinary jump
    assert_eq!(cpu.program_counter(), 0x260);
    assert_eq!(cpu.framebuffer_snapshot().2, 32);
}

#[test]
fn marker_is_not_applied_again_at_the_load_address() {
    // the program writes 12 60 over its first word and jumps there: by then
    // the word is an ordinary jump to 0x260
    let program = [
        0x60, 0x12, // V0 = 0x12
        0x61, 0x60, // V1 = 0x60
        0xA2, 0x00, // I = 0x200
        0xF1, 0x55, // store V0, V1 at 0x200
        0x12, 0x00, // jump to 0x200
    ];
    let mut cpu = CPU::new();
    cpu.load(&program).unwrap();
    for _ in 0..6 {
        assert_eq!(cpu.step(&NO_KEYS).status, StepStatus::Continued);
    }
    assert_eq!(cpu.memory_at(0x200), Some(0x12));
    assert_eq!(cpu.memory_at(0x201), Some(0x60));
    assert_eq!(cpu.program_counter(), 0x260);
    assert_eq!(cpu.framebuffer_snapshot().2, 32);
}
