use chippy::{decode, Chip8Error, Instruction, StepStatus, CPU};

const NO_KEYS: [bool; 16] = [false; 16];

fn with_registers(values: &[(u8, u8)]) -> CPU {
    let mut cpu = CPU::new();
    for (x, value) in values {
        cpu.ld_vx_nn(*x, *value);
    }
    cpu
}

#[test]
fn new_machine_is_zeroed() {
    let cpu = CPU::new();
    assert_eq!(cpu.registers(), [0u8; 16]);
    assert_eq!(cpu.program_counter(), 0x200);
    assert_eq!(cpu.index_register(), 0);
    assert_eq!(cpu.stack_pointer(), 0);
    assert_eq!(cpu.delay_timer(), 0);
    assert_eq!(cpu.sound_timer(), 0);
    assert!(cpu.debug_controller().is_none());
    let (pixels, width, height) = cpu.framebuffer_snapshot();
    assert_eq!((pixels.len(), width, height), (2048, 64, 32));
    assert!(pixels.iter().all(|lit| !*lit));
    // the glyph table is there from the start
    assert_eq!(cpu.memory_at(0), Some(0xF0));
    assert_eq!(cpu.memory_at(1), Some(0x90));
    assert_eq!(cpu.memory_at(79), Some(0x80));
    assert_eq!(cpu.memory_at(80), Some(0));
    assert_eq!(cpu.memory_at(0x200), Some(0));
    assert_eq!(cpu.memory_at(4095), Some(0));
    assert_eq!(cpu.memory_at(4096), None);
}

#[test]
fn load_writes_glyphs_and_image() {
    let mut cpu = CPU::new();
    // spoil a glyph byte and a byte after the image
    cpu.ld_vx_nn(0, 0x55);
    cpu.ld_i_addr(3);
    cpu.ld_i_vx(0).unwrap();
    cpu.ld_i_addr(0x203);
    cpu.ld_i_vx(0).unwrap();
    assert_eq!(cpu.memory_at(3), Some(0x55));
    cpu.load(&[1, 2, 3]).unwrap();
    let glyphs: [u8; 10] = [0xF0, 0x90, 0x90, 0x90, 0xF0, 0x20, 0x60, 0x20, 0x20, 0x70];
    for (address, byte) in glyphs.iter().enumerate() {
        assert_eq!(cpu.memory_at(address), Some(*byte));
    }
    assert_eq!(cpu.memory_at(0x1FF), Some(0));
    assert_eq!(cpu.memory_at(0x200), Some(1));
    assert_eq!(cpu.memory_at(0x201), Some(2));
    assert_eq!(cpu.memory_at(0x202), Some(3));
    // a byte past the image stays as it was
    assert_eq!(cpu.memory_at(0x203), Some(0x55));
    assert_eq!(cpu.program_counter(), 0x200);
}

#[test]
fn load_takes_the_largest_image_and_refuses_a_larger_one() {
    let mut cpu = CPU::new();
    let mut largest = vec![0xAAu8; 3584];
    largest[3583] = 0xBB;
    assert_eq!(cpu.load(&largest), Ok(()));
    assert_eq!(cpu.memory_at(0x200), Some(0xAA));
    assert_eq!(cpu.memory_at(4095), Some(0xBB));
    let mut fresh = CPU::new();
    let too_large = vec![0xCCu8; 3585];
    assert_eq!(fresh.load(&too_large), Err(Chip8Error::ProgramTooLarge(3585)));
    assert_eq!(fresh.memory_at(0x200), Some(0));
    assert_eq!(fresh.load(&[]), Ok(()));
}

#[test]
fn add_registers_sets_carry() {
    for (a, b, sum, carry) in
        [(5u8, 3u8, 8u8, 0u8), (255, 1, 0, 1), (200, 100, 44, 1), (255, 255, 254, 1), (255, 0, 255, 0), (0, 0, 0, 0), (128, 128, 0, 1), (127, 128, 255, 0)]
    {
        let mut cpu = with_registers(&[(1, a), (2, b), (0xF, 7)]);
        cpu.add_vx_vy(1, 2);
        assert_eq!(cpu.register(1), sum, "{a} + {b}");
        assert_eq!(cpu.register(0xF), carry, "{a} + {b}");
        assert_eq!(cpu.register(2), b);
    }
}

#[test]
fn add_registers_all_pairs() {
    for a in 0..=255u8 {
        for b in 0..=255u8 {
            let mut cpu = with_registers(&[(0, a), (1, b)]);
            cpu.add_vx_vy(0, 1);
            let sum = a as u16 + b as u16;
            assert_eq!(cpu.register(0) as u16, sum % 256);
            assert_eq!(cpu.register(0xF) == 1, sum > 255);
            assert!(cpu.register(0xF) <= 1);
        }
    }
}

#[test]
fn add_into_the_flag_register_keeps_the_sum() {
    let mut cpu = with_registers(&[(0xF, 200), (1, 100)]);
    cpu.add_vx_vy(0xF, 1);
    assert_eq!(cpu.register(0xF), 44);
}

#[test]
fn add_immediate_wraps_and_leaves_the_flag() {
    let mut cpu = with_registers(&[(3, 250), (0xF, 9)]);
    cpu.add_vx_nn(3, 10);
    assert_eq!(cpu.register(3), 4);
    assert_eq!(cpu.register(0xF), 9);
    cpu.add_vx_nn(3, 1);
    assert_eq!(cpu.register(3), 5);
}

#[test]
fn subtract_sets_no_borrow() {
    for (a, b, difference, flag) in
        [(10u8, 3u8, 7u8, 1u8), (3, 10, 249, 0), (5, 5, 0, 1), (0, 1, 255, 0), (255, 0, 255, 1), (0, 255, 1, 0)]
    {
        let mut cpu = with_registers(&[(4, a), (5, b)]);
        cpu.sub_vx_vy(4, 5);
        assert_eq!(cpu.register(4), difference, "{a} - {b}");
        assert_eq!(cpu.register(0xF), flag, "{a} - {b}");
        let mut cpu = with_registers(&[(4, b), (5, a)]);
        cpu.subn_vx_vy(4, 5);
        assert_eq!(cpu.register(4), difference, "reverse {a} - {b}");
        assert_eq!(cpu.register(0xF), flag, "reverse {a} - {b}");
    }
}

#[test]
fn subtract_all_pairs() {
    for a in 0..=255u8 {
        for b in 0..=255u8 {
            let mut cpu = with_registers(&[(0, a), (1, b)]);
            cpu.sub_vx_vy(0, 1);
            assert_eq!(cpu.register(0), a.wrapping_sub(b));
            assert_eq!(cpu.register(0xF) == 1, a >= b);
            assert!(cpu.register(0xF) <= 1);
        }
    }
}

#[test]
fn shifts_set_the_bit_shifted_out() {
    for (v, right, bit0, left, bit7) in [
        (0b1000_0001u8, 0b0100_0000u8, 1u8, 0b0000_0010u8, 1u8),
        (0b0000_0110, 0b0000_0011, 0, 0b0000_1100, 0),
        (0xFF, 0x7F, 1, 0xFE, 1),
        (0, 0, 0, 0, 0),
        (1, 0, 1, 2, 0),
        (0x80, 0x40, 0, 0, 1),
    ] {
        let mut cpu = with_registers(&[(6, v)]);
        cpu.shr_vx_vy(6);
        assert_eq!((cpu.register(6), cpu.register(0xF)), (right, bit0), "{v:#x} >> 1");
        let mut cpu = with_registers(&[(6, v)]);
        cpu.shl_vx_vy(6);
        assert_eq!((cpu.register(6), cpu.register(0xF)), (left, bit7), "{v:#x} << 1");
    }
}

#[test]
fn shifts_all_values() {
    for v in 0..=255u8 {
        let mut cpu = with_registers(&[(0, v)]);
        cpu.shr_vx_vy(0);
        assert_eq!((cpu.register(0), cpu.register(0xF)), (v >> 1, v & 1));
        let mut cpu = with_registers(&[(0, v)]);
        cpu.shl_vx_vy(0);
        assert_eq!((cpu.register(0) as u16, cpu.register(0xF)), ((v as u16 * 2) % 256, v >> 7));
    }
}

#[test]
fn bitwise_operations_leave_the_flag() {
    let mut cpu = with_registers(&[(1, 0b1100), (2, 0b1010), (0xF, 5)]);
    cpu.or_vx_vy(1, 2);
    assert_eq!(cpu.register(1), 0b1110);
    let mut cpu = with_registers(&[(1, 0b1100), (2, 0b1010), (0xF, 5)]);
    cpu.and_vx_vy(1, 2);
    assert_eq!(cpu.register(1), 0b1000);
    let mut cpu = with_registers(&[(1, 0b1100), (2, 0b1010), (0xF, 5)]);
    cpu.xor_vx_vy(1, 2);
    assert_eq!(cpu.register(1), 0b0110);
    assert_eq!(cpu.register(0xF), 5);
    cpu.ld_vx_vy(3, 2);
    assert_eq!(cpu.register(3), 0b1010);
}

#[test]
fn skips_move_by_four_when_taken() {
    let mut cpu = with_registers(&[(1, 7), (2, 7), (3, 8)]);
    cpu.se_vx_nn(1, 7);
    assert_eq!(cpu.program_counter(), 0x202);
    cpu.se_vx_nn(1, 8);
    assert_eq!(cpu.program_counter(), 0x202);
    cpu.sne_vx_nn(1, 8);
    assert_eq!(cpu.program_counter(), 0x204);
    cpu.sne_vx_nn(1, 7);
    assert_eq!(cpu.program_counter(), 0x204);
    cpu.se_vx_vy(1, 2);
    assert_eq!(cpu.program_counter(), 0x206);
    cpu.se_vx_vy(1, 3);
    assert_eq!(cpu.program_counter(), 0x206);
    cpu.sne_vx_vy(1, 3);
    assert_eq!(cpu.program_counter(), 0x208);
    cpu.sne_vx_vy(1, 2);
    assert_eq!(cpu.program_counter(), 0x208);
}

#[test]
fn program_counter_advances_by_two() {
    let mut cpu = CPU::new();
    cpu.load(&[0x60, 0x01, 0x30, 0x01, 0x00, 0x00, 0x40, 0x01, 0x00, 0x00]).unwrap();
    cpu.step(&NO_KEYS);
    assert_eq!(cpu.program_counter(), 0x202);
    // skip taken: four on
    cpu.step(&NO_KEYS);
    assert_eq!(cpu.program_counter(), 0x206);
    // skip not taken: two on
    cpu.step(&NO_KEYS);
    assert_eq!(cpu.program_counter(), 0x208);
}

#[test]
fn jump_call_and_return() {
    let mut cpu = CPU::new();
    cpu.jp_addr(0x345);
    assert_eq!(cpu.program_counter(), 0x345);
    assert_eq!(cpu.call_addr(0x456), Ok(()));
    assert_eq!((cpu.program_counter(), cpu.stack_pointer()), (0x456, 1));
    assert_eq!(cpu.call_addr(0x567), Ok(()));
    assert_eq!((cpu.program_counter(), cpu.stack_pointer()), (0x567, 2));
    assert_eq!(cpu.ret(), Ok(()));
    assert_eq!((cpu.program_counter(), cpu.stack_pointer()), (0x456, 1));
    assert_eq!(cpu.ret(), Ok(()));
    assert_eq!((cpu.program_counter(), cpu.stack_pointer()), (0x345, 0));
    cpu.ld_vx_nn(0, 0x10);
    cpu.jp_v0_addr(0x300);
    assert_eq!(cpu.program_counter(), 0x310);
    cpu.ld_vx_nn(0, 0xFF);
    cpu.jp_v0_addr(0xFFF);
    assert_eq!(cpu.program_counter(), 0x10FE);
}

#[test]
fn return_on_an_empty_stack_is_an_error() {
    let mut cpu = CPU::new();
    assert_eq!(cpu.ret(), Err(Chip8Error::StackUnderflow));
    assert_eq!((cpu.program_counter(), cpu.stack_pointer()), (0x200, 0));
    let outcome = cpu.dispatch(0x00EE, 0);
    assert_eq!(outcome.status, StepStatus::Faulted(Chip8Error::StackUnderflow));
    assert_eq!(cpu.stack_pointer(), 0);
}

#[test]
fn seventeenth_call_is_an_error() {
    let mut cpu = CPU::new();
    for depth in 0..16u8 {
        assert_eq!(cpu.stack_pointer(), depth);
        assert_eq!(cpu.call_addr(0x300 + depth as u16), Ok(()));
    }
    assert_eq!(cpu.stack_pointer(), 16);
    assert_eq!(cpu.call_addr(0x400), Err(Chip8Error::StackOverflow));
    assert_eq!((cpu.program_counter(), cpu.stack_pointer()), (0x30F, 16));
    // and the sixteen addresses come back in reverse
    for depth in (1..16u16).rev() {
        assert_eq!(cpu.ret(), Ok(()));
        assert_eq!(cpu.program_counter(), 0x300 + depth - 1);
    }
    assert_eq!(cpu.ret(), Ok(()));
    assert_eq!(cpu.program_counter(), 0x200);
}

#[test]
fn recursion_overflows_the_stack() {
    let mut cpu = CPU::new();
    // 0x200: call 0x200
    cpu.load(&[0x22, 0x00]).unwrap();
    assert_eq!(cpu.run(&NO_KEYS, 1000), Err(Chip8Error::StackOverflow));
    assert_eq!(cpu.stack_pointer(), 16);
}

#[test]
fn program_counter_out_of_bounds_is_an_error() {
    let mut cpu = CPU::new();
    cpu.jp_addr(4094);
    // the last place a fetch fits: two zero bytes, halt
    assert_eq!(cpu.step(&NO_KEYS).status, StepStatus::Halted);
    assert_eq!(cpu.program_counter(), 4096);
    assert_eq!(
        cpu.step(&NO_KEYS).status,
        StepStatus::Faulted(Chip8Error::ProgramCounterOutOfBounds(4096))
    );
    assert_eq!(cpu.program_counter(), 4096);
    let mut cpu = CPU::new();
    cpu.jp_addr(4095);
    assert_eq!(
        cpu.dispatch(0x6001, 0).status,
        StepStatus::Faulted(Chip8Error::ProgramCounterOutOfBounds(4095))
    );
    assert_eq!(cpu.register(0), 0);
    assert_eq!(cpu.program_counter(), 4095);
}

#[test]
fn jump_past_memory_faults_at_the_next_fetch() {
    let mut cpu = CPU::new();
    cpu.load(&[0x60, 0xFF, 0xBF, 0xFF]).unwrap();
    assert_eq!(
        cpu.run(&NO_KEYS, 10),
        Err(Chip8Error::ProgramCounterOutOfBounds(0xFFF + 0xFF))
    );
}

#[test]
fn index_register_operations() {
    let mut cpu = with_registers(&[(1, 0x0A), (2, 0xFF)]);
    cpu.ld_i_addr(0xFFF);
    assert_eq!(cpu.index_register(), 0xFFF);
    assert_eq!(cpu.add_i_vx(1), Ok(()));
    assert_eq!(cpu.index_register(), 0x1009);
    cpu.ld_f_vx(1);
    assert_eq!(cpu.index_register(), 50);
    cpu.ld_f_vx(2);
    assert_eq!(cpu.index_register(), 1275);
}

#[test]
fn index_register_does_not_wrap() {
    let mut cpu = with_registers(&[(1, 0xFF)]);
    cpu.ld_i_addr(0xFFF);
    let mut expected: u32 = 0xFFF;
    while expected + 0xFF <= 0xFFFF {
        assert_eq!(cpu.add_i_vx(1), Ok(()));
        expected += 0xFF;
        assert_eq!(cpu.index_register() as u32, expected);
    }
    assert_eq!(cpu.add_i_vx(1), Err(Chip8Error::IndexOutOfBounds(expected as u16)));
    assert_eq!(cpu.index_register() as u32, expected);
}

#[test]
fn memory_access_past_the_end_is_an_error() {
    let mut cpu = with_registers(&[(0, 1), (1, 2), (2, 3)]);
    cpu.ld_i_addr(4093);
    assert_eq!(cpu.ld_b_vx(0), Ok(()));
    assert_eq!(cpu.ld_i_vx(2), Ok(()));
    assert_eq!(cpu.ld_vx_i(2), Ok(()));
    assert_eq!(cpu.drw_vx_vy_n(0, 0, 3), Ok(()));
    cpu.ld_i_addr(4094);
    assert_eq!(cpu.ld_b_vx(0), Err(Chip8Error::IndexOutOfBounds(4094)));
    assert_eq!(cpu.ld_i_vx(2), Err(Chip8Error::IndexOutOfBounds(4094)));
    assert_eq!(cpu.ld_vx_i(2), Err(Chip8Error::IndexOutOfBounds(4094)));
    assert_eq!(cpu.drw_vx_vy_n(0, 0, 3), Err(Chip8Error::IndexOutOfBounds(4094)));
    assert_eq!(cpu.ld_i_vx(1), Ok(()));
    assert_eq!(cpu.memory_at(4094), Some(1));
    assert_eq!(cpu.memory_at(4095), Some(2));
    // an empty sprite reads nothing
    cpu.ld_vx_nn(3, 0xFF);
    for _ in 0..16 {
        cpu.add_i_vx(3).unwrap();
    }
    assert_eq!(cpu.drw_vx_vy_n(0, 0, 0), Ok(()));
}

#[test]
fn registers_round_trip_through_memory() {
    let mut cpu = CPU::new();
    let values: [u8; 16] = [3, 1, 4, 1, 5, 9, 2, 6, 5, 3, 5, 8, 9, 7, 9, 3];
    for (x, value) in values.iter().enumerate() {
        cpu.ld_vx_nn(x as u8, *value);
    }
    cpu.ld_i_addr(0x500);
    cpu.ld_i_vx(9).unwrap();
    for offset in 0..10 {
        assert_eq!(cpu.memory_at(0x500 + offset), Some(values[offset]));
    }
    assert_eq!(cpu.memory_at(0x50A), Some(0));
    assert_eq!(cpu.memory_at(0x4FF), Some(0));
    assert_eq!(cpu.index_register(), 0x500);
    for x in 0..16 {
        cpu.ld_vx_nn(x, 0xEE);
    }
    cpu.ld_vx_i(9).unwrap();
    let mut expected = [0xEEu8; 16];
    expected[..10].copy_from_slice(&values[..10]);
    assert_eq!(cpu.registers(), expected);
}

#[test]
fn single_register_round_trip() {
    let mut cpu = with_registers(&[(0, 0x42), (1, 0x43)]);
    cpu.ld_i_addr(0xFFF);
    cpu.ld_i_vx(0).unwrap();
    assert_eq!(cpu.memory_at(0xFFF), Some(0x42));
    cpu.ld_vx_nn(0, 0);
    cpu.ld_vx_i(0).unwrap();
    assert_eq!(cpu.register(0), 0x42);
    assert_eq!(cpu.register(1), 0x43);
}

#[test]
fn decimal_digits_of_edge_values() {
    for (value, digits) in [(0u8, [0u8, 0, 0]), (9, [0, 0, 9]), (10, [0, 1, 0]), (99, [0, 9, 9]), (100, [1, 0, 0]), (255, [2, 5, 5])] {
        let mut cpu = with_registers(&[(7, value)]);
        cpu.ld_i_addr(0x600);
        cpu.ld_b_vx(7).unwrap();
        for place in 0..3 {
            assert_eq!(cpu.memory_at(0x600 + place), Some(digits[place]), "{value}");
        }
    }
}

#[test]
fn random_is_masked() {
    let mut cpu = CPU::new();
    cpu.rnd_vx_nn_with(1, 0x0F, 0xAB);
    assert_eq!(cpu.register(1), 0x0B);
    cpu.rnd_vx_nn_with(1, 0xF0, 0xAB);
    assert_eq!(cpu.register(1), 0xA0);
    assert_eq!(cpu.dispatch(0xC23C, 0xFF).status, StepStatus::Continued);
    assert_eq!(cpu.register(2), 0x3C);
    let mut seen = [false; 256];
    for _ in 0..4000 {
        cpu.rnd_vx_nn(3, 0x3C);
        assert_eq!(cpu.register(3) & !0x3C, 0);
        cpu.rnd_vx_nn(4, 0xFF);
        seen[cpu.register(4) as usize] = true;
    }
    // the byte is drawn afresh each time
    assert!(seen.iter().filter(|s| **s).count() > 100);
    cpu.rnd_vx_nn(5, 0);
    assert_eq!(cpu.register(5), 0);
}

#[test]
fn random_instruction_in_a_program() {
    let mut cpu = CPU::new();
    cpu.load(&[0xC0, 0x0F, 0x12, 0x00]).unwrap();
    let mut seen = [false; 16];
    for _ in 0..2000 {
        assert_eq!(cpu.step(&NO_KEYS).status, StepStatus::Continued);
        assert!(cpu.register(0) < 16);
        seen[cpu.register(0) as usize] = true;
    }
    assert!(seen.iter().filter(|s| **s).count() > 8);
}

#[test]
fn timers_are_read_and_set() {
    let mut cpu = with_registers(&[(1, 30), (2, 0)]);
    cpu.ld_dt_vx(1);
    assert_eq!(cpu.delay_timer(), 30);
    cpu.ld_vx_dt(3);
    assert_eq!(cpu.register(3), 30);
    assert!(cpu.ld_st_vx(1));
    assert_eq!(cpu.sound_timer(), 30);
    assert!(!cpu.ld_st_vx(2));
    assert_eq!(cpu.sound_timer(), 0);
}

#[test]
fn tick_stops_at_zero() {
    let mut cpu = with_registers(&[(1, 2), (2, 1)]);
    cpu.ld_dt_vx(1);
    cpu.ld_st_vx(2);
    cpu.tick();
    assert_eq!((cpu.delay_timer(), cpu.sound_timer()), (1, 0));
    cpu.tick();
    assert_eq!((cpu.delay_timer(), cpu.sound_timer()), (0, 0));
    cpu.tick();
    assert_eq!((cpu.delay_timer(), cpu.sound_timer()), (0, 0));
}

#[test]
fn timers_go_down_every_fifth_cycle() {
    let mut cpu = CPU::new();
    // V0 = 3, delay = V0, sound = V0, then jump to self
    cpu.load(&[0x60, 0x03, 0xF0, 0x15, 0xF0, 0x18, 0x12, 0x06]).unwrap();
    let mut delays = Vec::new();
    let mut tones = Vec::new();
    for _ in 0..21 {
        let outcome = cpu.step(&NO_KEYS);
        delays.push(cpu.delay_timer());
        tones.push(outcome.tone_requested);
    }
    // cycles 1..=21: the timer is set in cycle 2 and decremented at the
    // start of cycles 5, 10 and 15
    assert_eq!(
        delays,
        vec![0, 3, 3, 3, 2, 2, 2, 2, 2, 1, 1, 1, 1, 1, 0, 0, 0, 0, 0, 0, 0]
    );
    assert_eq!(tones.iter().filter(|t| **t).count(), 1);
    assert!(tones[2]);
    assert_eq!(cpu.sound_timer(), 0);
}

#[test]
fn key_skips() {
    let mut keys = [false; 16];
    keys[0xA] = true;
    let mut cpu = with_registers(&[(1, 0xA), (2, 0xB), (3, 200)]);
    cpu.set_keys(&keys);
    cpu.skp_vx(1);
    assert_eq!(cpu.program_counter(), 0x202);
    cpu.skp_vx(2);
    assert_eq!(cpu.program_counter(), 0x202);
    cpu.sknp_vx(2);
    assert_eq!(cpu.program_counter(), 0x204);
    cpu.sknp_vx(1);
    assert_eq!(cpu.program_counter(), 0x204);
    // there is no key 200: it is never down
    cpu.skp_vx(3);
    assert_eq!(cpu.program_counter(), 0x204);
    cpu.sknp_vx(3);
    assert_eq!(cpu.program_counter(), 0x206);
    cpu.set_keys(&[false; 16]);
    cpu.skp_vx(1);
    assert_eq!(cpu.program_counter(), 0x206);
}

#[test]
fn wait_for_key_repeats_until_a_key_is_down() {
    let mut cpu = CPU::new();
    cpu.load(&[0xF5, 0x0A, 0x00, 0x00]).unwrap();
    for _ in 0..7 {
        assert_eq!(cpu.step(&NO_KEYS).status, StepStatus::Continued);
        assert_eq!(cpu.program_counter(), 0x200);
        assert_eq!(cpu.register(5), 0);
    }
    let mut keys = [false; 16];
    keys[0xC] = true;
    keys[0x7] = true;
    keys[0xF] = true;
    assert_eq!(cpu.step(&keys).status, StepStatus::Continued);
    assert_eq!(cpu.program_counter(), 0x202);
    assert_eq!(cpu.register(5), 7);
    assert_eq!(cpu.step(&keys).status, StepStatus::Halted);
}

#[test]
fn wait_for_key_takes_the_lowest_key() {
    for lowest in 0..16usize {
        let mut keys = [false; 16];
        for key in lowest..16 {
            keys[key] = key == lowest || key % 3 == 0;
        }
        let mut cpu = with_registers(&[(2, 0xEE)]);
        cpu.jp_addr(0x202);
        cpu.set_keys(&keys);
        cpu.ld_vx_n(2);
        assert_eq!(cpu.register(2) as usize, lowest);
        assert_eq!(cpu.program_counter(), 0x202);
    }
    let mut cpu = with_registers(&[(2, 0xEE)]);
    cpu.jp_addr(0x202);
    cpu.ld_vx_n(2);
    assert_eq!(cpu.register(2), 0xEE);
    assert_eq!(cpu.program_counter(), 0x200);
}

#[test]
fn halt_stops_with_nothing_else_changed() {
    let mut cpu = with_registers(&[(1, 9)]);
    let outcome = cpu.dispatch(0x0000, 0);
    assert_eq!(outcome.status, StepStatus::Halted);
    assert!(!outcome.tone_requested && !outcome.display_dirty);
    assert_eq!(cpu.register(1), 9);
    assert_eq!(cpu.program_counter(), 0x202);
}

#[test]
fn sound_instruction_asks_for_a_tone() {
    let mut cpu = with_registers(&[(1, 4)]);
    let outcome = cpu.dispatch(0xF118, 0);
    assert!(outcome.tone_requested);
    assert_eq!(cpu.sound_timer(), 4);
    let outcome = cpu.dispatch(0xF018, 0);
    assert!(!outcome.tone_requested);
    assert_eq!(cpu.sound_timer(), 0);
}

#[test]
fn run_stops_when_the_budget_is_spent() {
    let mut cpu = CPU::new();
    // count in V0, loop for ever
    cpu.load(&[0x70, 0x01, 0x12, 0x00]).unwrap();
    let outcome = cpu.run(&NO_KEYS, 11).unwrap();
    assert_eq!(outcome.status, StepStatus::Continued);
    assert_eq!(cpu.register(0), 6);
    let outcome = cpu.run(&NO_KEYS, 0).unwrap();
    assert_eq!(outcome.status, StepStatus::Continued);
    assert_eq!(cpu.register(0), 6);
}

#[test]
fn run_collects_the_effects() {
    let mut cpu = CPU::new();
    cpu.load(&[0x60, 0x02, 0xF0, 0x18, 0x00, 0xE0, 0x00, 0x00]).unwrap();
    let outcome = cpu.run(&NO_KEYS, 100).unwrap();
    assert_eq!(outcome.status, StepStatus::Halted);
    assert!(outcome.tone_requested);
    assert!(outcome.display_dirty);
    let mut cpu = CPU::new();
    cpu.load(&[0x60, 0x02, 0x00, 0x00]).unwrap();
    let outcome = cpu.run(&NO_KEYS, 100).unwrap();
    assert!(!outcome.tone_requested && !outcome.display_dirty);
}

#[test]
fn every_instruction_through_execute() {
    let mut cpu = with_registers(&[(1, 6), (2, 3)]);
    cpu.jp_addr(0x202);
    let outcome = cpu.execute(decode(0x8124), 0);
    assert_eq!(outcome.status, StepStatus::Continued);
    assert_eq!(cpu.register(1), 9);
    let outcome = cpu.execute(Instruction::Illegal { opcode: 0x0123 }, 0);
    assert_eq!(outcome.status, StepStatus::Faulted(Chip8Error::IllegalInstruction(0x0123)));
    let outcome = cpu.execute(Instruction::Draw { x: 1, y: 2, n: 5 }, 0);
    assert!(outcome.display_dirty);
    let outcome = cpu.execute(Instruction::Random { x: 4, kk: 0xF0 }, 0x5A);
    assert_eq!(outcome.status, StepStatus::Continued);
    assert_eq!(cpu.register(4), 0x50);
    assert_eq!(cpu.program_counter(), 0x202);
}

#[test]
fn next_word_is_big_endian() {
    let mut cpu = CPU::new();
    cpu.load(&[0x12, 0x34, 0xAB, 0xCD]).unwrap();
    assert_eq!(cpu.next_word(), Some(0x1234));
    cpu.jp_addr(0x201);
    assert_eq!(cpu.next_word(), Some(0x34AB));
    cpu.jp_addr(0x202);
    assert_eq!(cpu.next_word(), Some(0xABCD));
    cpu.jp_addr(4094);
    assert_eq!(cpu.next_word(), Some(0));
    cpu.jp_addr(4095);
    assert_eq!(cpu.next_word(), None);
    cpu.jp_addr(0);
    assert_eq!(cpu.next_word(), Some(0xF090));
}
