//! What holds of the machine in every state, proved from its definition.

use vstd::prelude::*;
use crate::debug::{DebugView, RunState};
use crate::decoder::{decode_spec, lemma_decode_wf, lemma_fields, Instruction};
use crate::error::Chip8Error;
use crate::framebuffer::{lemma_offset, Screen};
use crate::machine::{
    carry_of, difference_of, first_key, first_key_from, no_borrow_of, sum_of, Machine,
    StepOutcome, StepStatus,
};

verus! {

/// The sum of two bytes is taken modulo 256, and the carry is 1 exactly
/// when the true sum exceeds 255.
pub proof fn lemma_add_with_carry(a: u8, b: u8)
    ensures
        sum_of(a, b) == (a + b) % 256,
        carry_of(a, b) == 1 <==> a + b > 255,
        carry_of(a, b) == 0 <==> a + b <= 255,
        a + b == 256 * carry_of(a, b) + sum_of(a, b),
{
}

/// "Add registers" leaves `(Vx + Vy) mod 256` in `Vx`. Unless `Vx` is the
/// flag register itself, the flag register is 1 exactly when the sum
/// exceeds 255 and 0 otherwise, and no other register changes. Nothing but
/// registers changes.
pub proof fn lemma_add_registers(s: Machine, x: u8, y: u8)
    requires
        s.wf(),
        x < 16,
        y < 16,
    ensures
        s.add_vx_vy(x, y).v(x) == (s.v(x) + s.v(y)) % 256,
        x != 15 ==> (s.add_vx_vy(x, y).v(15) == 1 <==> s.v(x) + s.v(y) > 255),
        x != 15 ==> (s.add_vx_vy(x, y).v(15) == 0 <==> s.v(x) + s.v(y) <= 255),
        forall|r: u8| r < 16 && r != x && r != 15 ==> s.add_vx_vy(x, y).v(r) == s.v(r),
        s.add_vx_vy(x, y) == (Machine { registers: s.add_vx_vy(x, y).registers, ..s }),
        s.add_vx_vy(x, y).wf(),
{
}

/// The difference of two bytes is taken modulo 256, and the flag is 1
/// exactly when the minuend is at least the subtrahend.
pub proof fn lemma_subtract_with_borrow(minuend: u8, subtrahend: u8)
    ensures
        difference_of(minuend, subtrahend) == (minuend - subtrahend) % 256,
        no_borrow_of(minuend, subtrahend) == 1 <==> minuend >= subtrahend,
        no_borrow_of(minuend, subtrahend) == 0 <==> minuend < subtrahend,
        minuend >= subtrahend ==> difference_of(minuend, subtrahend) == minuend - subtrahend,
        minuend < subtrahend ==> difference_of(minuend, subtrahend) == minuend - subtrahend + 256,
{
}

/// "Subtract" leaves `(Vx - Vy) mod 256` in `Vx`, "reverse subtract"
/// `(Vy - Vx) mod 256`. Unless `Vx` is the flag register itself, the flag
/// register is 1 exactly when the minuend is at least the subtrahend and 0
/// otherwise, and no other register changes.
pub proof fn lemma_subtract(s: Machine, x: u8, y: u8)
    requires
        s.wf(),
        x < 16,
        y < 16,
    ensures
        s.sub_vx_vy(x, y).v(x) == (s.v(x) - s.v(y)) % 256,
        x != 15 ==> (s.sub_vx_vy(x, y).v(15) == 1 <==> s.v(x) >= s.v(y)),
        x != 15 ==> (s.sub_vx_vy(x, y).v(15) == 0 <==> s.v(x) < s.v(y)),
        forall|r: u8| r < 16 && r != x && r != 15 ==> s.sub_vx_vy(x, y).v(r) == s.v(r),
        s.sub_vx_vy(x, y).wf(),
        s.subn_vx_vy(x, y).v(x) == (s.v(y) - s.v(x)) % 256,
        x != 15 ==> (s.subn_vx_vy(x, y).v(15) == 1 <==> s.v(y) >= s.v(x)),
        x != 15 ==> (s.subn_vx_vy(x, y).v(15) == 0 <==> s.v(y) < s.v(x)),
        forall|r: u8| r < 16 && r != x && r != 15 ==> s.subn_vx_vy(x, y).v(r) == s.v(r),
        s.subn_vx_vy(x, y).wf(),
{
}

/// Shifting a byte right halves it and drops bit 0, which is its parity;
/// shifting it left doubles it modulo 256 and drops bit 7, which says
/// whether it is at least 128.
pub proof fn lemma_shift_arithmetic(v: u8)
    ensures
        v & 0x1 == v % 2,
        v >> 1 == v / 2,
        v >> 7 == v / 128,
        v << 1 == (2 * v) % 256,
{
    assert(v & 0x1 == v % 2) by (bit_vector);
    assert(v >> 1 == v / 2) by (bit_vector);
    assert(v >> 7 == v / 128) by (bit_vector);
    assert(v << 1 == (2 * v) % 256) by (bit_vector);
}

/// "Shift right" on a register other than the flag register: the flag
/// register receives bit 0 of what `Vx` held, and `Vx` what it held
/// shifted right by one. "Shift left": the flag register receives bit 7 of
/// what `Vx` held, and `Vx` what it held shifted left by one, modulo 256.
/// No other register changes.
pub proof fn lemma_shift(s: Machine, x: u8)
    requires
        s.wf(),
        x < 15,
    ensures
        s.shr_vx_vy(x).v(15) == s.v(x) & 0x1,
        s.shr_vx_vy(x).v(15) == s.v(x) % 2,
        s.shr_vx_vy(x).v(x) == s.v(x) >> 1,
        s.shr_vx_vy(x).v(x) == s.v(x) / 2,
        forall|r: u8| r < 15 && r != x ==> s.shr_vx_vy(x).v(r) == s.v(r),
        s.shr_vx_vy(x).wf(),
        s.shl_vx_vy(x).v(15) == s.v(x) >> 7,
        s.shl_vx_vy(x).v(15) == s.v(x) / 128,
        s.shl_vx_vy(x).v(x) == s.v(x) << 1,
        s.shl_vx_vy(x).v(x) == (2 * s.v(x)) % 256,
        forall|r: u8| r < 15 && r != x ==> s.shl_vx_vy(x).v(r) == s.v(r),
        s.shl_vx_vy(x).wf(),
{
    lemma_shift_arithmetic(s.v(x));
}

/// The three digits that "store decimal" writes are the decimal digits of
/// the byte.
pub proof fn lemma_decimal_digits(v: u8)
    ensures
        v / 100 <= 2,
        (v / 10) % 10 <= 9,
        v % 10 <= 9,
        100 * (v / 100) + 10 * ((v / 10) % 10) + v % 10 == v,
{
}

/// "Store decimal" writes the hundreds, tens and ones digit of `Vx` at
/// `I`, `I+1`, `I+2` and changes no other byte.
pub proof fn lemma_store_decimal(s: Machine, x: u8)
    requires
        s.wf(),
        x < 16,
        s.index_register + 2 <= 4095,
    ensures
        s.ld_b_vx(x).memory[s.index_register as int] == s.v(x) / 100,
        s.ld_b_vx(x).memory[s.index_register + 1] == (s.v(x) / 10) % 10,
        s.ld_b_vx(x).memory[s.index_register + 2] == s.v(x) % 10,
        forall|a: int|
            0 <= a < 4096 && !(s.index_register <= a <= s.index_register + 2) ==> s.ld_b_vx(
                x,
            ).memory[a] == s.memory[a],
        s.ld_b_vx(x).wf(),
{
}

/// Storing `V0..=Vx` and loading them back from the same address, whatever
/// the registers have become in between, recovers the stored values
/// exactly and leaves the registers above `x` alone.
pub proof fn lemma_store_load_round_trip(s: Machine, later: Machine, x: u8)
    requires
        s.wf(),
        later.wf(),
        x < 16,
        s.index_register + x <= 4095,
        later.memory == s.ld_i_vx(x).memory,
        later.index_register == s.index_register,
    ensures
        forall|r: int| 0 <= r <= x ==> later.ld_vx_i(x).registers[r] == s.registers[r],
        forall|r: int| x < r < 16 ==> later.ld_vx_i(x).registers[r] == later.registers[r],
        s.ld_i_vx(x).ld_vx_i(x).registers == s.registers,
        s.ld_i_vx(x).ld_vx_i(x) == s.ld_i_vx(x),
{
}

/// "Clear display" darkens every pixel and changes nothing else; both of
/// its encodings decode to it.
pub proof fn lemma_clear_display(s: Machine)
    requires
        s.wf(),
    ensures
        decode_spec(0x00E0) == Instruction::ClearDisplay,
        decode_spec(0x2030) == Instruction::ClearDisplay,
        s.cls().screen.is_dark(),
        s.cls() == (Machine { screen: s.cls().screen, ..s }),
        s.cls().wf(),
{
    lemma_fields(0x00E0);
    lemma_fields(0x2030);
}

/// Drawing changes the flag register and the display's pixels, and
/// nothing else: not the other registers, not the size of the display.
pub proof fn lemma_draw_frame(s: Machine, x: u8, y: u8, count: nat)
    requires
        s.wf(),
        x < 16,
        y < 16,
    ensures
        s.draw_prefix(x, y, count).wf(),
        s.draw_prefix(x, y, count) == (Machine {
            registers: s.draw_prefix(x, y, count).registers,
            screen: s.draw_prefix(x, y, count).screen,
            ..s
        }),
        s.draw_prefix(x, y, count).screen.width == s.screen.width,
        s.draw_prefix(x, y, count).screen.height == s.screen.height,
        s.draw_prefix(x, y, count).v(15) <= 1,
        forall|r: u8| r < 15 ==> s.draw_prefix(x, y, count).v(r) == s.v(r),
    decreases count,
{
    if count > 0 {
        let done = (count - 1) as nat;
        let before = s.draw_prefix(x, y, done);
        lemma_draw_frame(s, x, y, done);
        let col = (before.v(x) + done as int % 8) % before.screen.width;
        let row = (before.v(y) + done as int / 8) % before.screen.height;
        lemma_offset(before.screen, col, row);
    }
}

/// An instruction that does not fault takes a valid state to a valid
/// state.
pub proof fn lemma_execute_preserves_wf(s: Machine, instruction: Instruction, random: u8)
    requires
        s.wf(),
        instruction.wf(),
    ensures
        s.execute(instruction, random).0.wf(),
{
    match instruction {
        Instruction::Draw { x, y, n } => {
            lemma_draw_frame(s, x, y, 8 * n as nat);
        },
        Instruction::WaitKey { x } => {
            lemma_first_key(s.keys);
        },
        _ => {},
    }
}

/// A step takes a valid state to a valid state: in particular the stack
/// pointer never exceeds 16.
pub proof fn lemma_step_preserves_wf(s: Machine, keys: Seq<bool>, random: u8)
    requires
        s.wf(),
        keys.len() == 16,
    ensures
        s.step(keys, random).0.wf(),
        s.step(keys, random).0.stack_pointer <= 16,
{
    let sampled = Machine { keys, ..s.clock() };
    let word = sampled.fetch();
    if sampled.program_counter <= 4094 {
        let fetched = Machine {
            booted: true,
            screen: if sampled.wants_tall_display(word) {
                Screen::blank(64, 64)
            } else {
                sampled.screen
            },
            ..sampled
        };
        let instruction = decode_spec(sampled.effective_word(word));
        lemma_decode_wf(sampled.effective_word(word));
        lemma_execute_preserves_wf(fetched.next_instruction(), instruction, random);
    }
}

/// A word is fetched only where the program counter leaves room for it:
/// above 4094 the cycle faults without reading memory or executing
/// anything. Else the counter ends two above where it was, unless the
/// instruction executed is one of those that set it: a jump sets it to its
/// target, a call too unless the stack is full, a return to the popped
/// address unless the stack is empty, a skip moves it by four when its
/// condition holds, and "wait for key" leaves it in place while no key is
/// down.
pub proof fn lemma_program_counter(s: Machine, keys: Seq<bool>, random: u8)
    requires
        s.wf(),
        keys.len() == 16,
    ensures
        ({
            let (after, outcome) = s.cycle(keys, random);
            let pc = s.program_counter;
            let instruction = decode_spec(s.effective_word(s.fetch()));
            &&& pc > 4094 ==> {
                &&& outcome.status == StepStatus::Faulted(Chip8Error::ProgramCounterOutOfBounds(pc))
                &&& after == (Machine { keys, ..s.clock() })
            }
            &&& pc <= 4094 && !Machine::sets_program_counter(instruction) ==> after.program_counter
                == pc + 2
            &&& pc <= 4094 ==> match instruction {
                Instruction::Jump { nnn } => after.program_counter == nnn,
                Instruction::JumpOffset { nnn } => after.program_counter == nnn + s.v(0),
                Instruction::Call { nnn } => after.program_counter == if s.stack_pointer < 16 {
                    nnn as int
                } else {
                    pc + 2
                },
                Instruction::Return => after.program_counter == if s.stack_pointer > 0 {
                    s.stack[s.stack_pointer - 1] as int
                } else {
                    pc + 2
                },
                Instruction::SkipEqualImmediate { x, kk } => after.program_counter == if s.v(x)
                    == kk {
                    pc + 4
                } else {
                    pc + 2
                },
                Instruction::SkipNotEqualImmediate { x, kk } => after.program_counter == if s.v(x)
                    != kk {
                    pc + 4
                } else {
                    pc + 2
                },
                Instruction::SkipEqualRegister { x, y } => after.program_counter == if s.v(x)
                    == s.v(y) {
                    pc + 4
                } else {
                    pc + 2
                },
                Instruction::SkipNotEqualRegister { x, y } => after.program_counter == if s.v(x)
                    != s.v(y) {
                    pc + 4
                } else {
                    pc + 2
                },
                Instruction::SkipKeyDown { x } => after.program_counter == if s.v(x) < 16
                    && keys[s.v(x) as int] {
                    pc + 4
                } else {
                    pc + 2
                },
                Instruction::SkipKeyUp { x } => after.program_counter == if s.v(x) < 16
                    && keys[s.v(x) as int] {
                    pc + 2
                } else {
                    pc + 4
                },
                Instruction::WaitKey { x } => after.program_counter == if exists|k: int|
                    0 <= k < 16 && keys[k] {
                    pc + 2
                } else {
                    pc as int
                },
                _ => true,
            }
        }),
{
    let sampled = Machine { keys, ..s.clock() };
    let word = s.fetch();
    if s.program_counter <= 4094 {
        let fetched = Machine {
            booted: true,
            screen: if sampled.wants_tall_display(word) {
                Screen::blank(64, 64)
            } else {
                sampled.screen
            },
            ..sampled
        };
        let instruction = decode_spec(s.effective_word(word));
        lemma_decode_wf(s.effective_word(word));
        lemma_fields(s.effective_word(word));
        match instruction {
            Instruction::Draw { x, y, n } => {
                lemma_draw_frame(fetched.next_instruction(), x, y, 8 * n as nat);
            },
            Instruction::WaitKey { x } => {
                lemma_first_key(keys);
            },
            _ => {},
        }
    }
}

/// Only "random" reads the random byte: unless the next step executes
/// one, the step is the same whatever byte is offered.
pub proof fn lemma_random_unused(s: Machine, keys: Seq<bool>, r1: u8, r2: u8)
    requires
        s.wf(),
        keys.len() == 16,
        !s.draws_random(),
    ensures
        s.step(keys, r1) == s.step(keys, r2),
{
    // the word executed in place of the marker is a jump
    lemma_fields(0x12C0);
}

/// A program whose first word is `1260` gets the tall display: the first
/// cycle after it is loaded into a new machine replaces the display by a
/// dark one of 64 by 64 and jumps to `0x2C0`. The marker counts only then:
/// once a first instruction has been fetched, `1260` is a jump to `0x260`.
pub proof fn lemma_tall_display(
    debug: Option<DebugView>,
    program: Seq<u8>,
    keys: Seq<bool>,
    random: u8,
    later: Machine,
)
    requires
        2 <= program.len() <= 3584,
        program[0] == 0x12,
        program[1] == 0x60,
        keys.len() == 16,
        later.wf(),
        later.booted,
        later.program_counter <= 4094,
        later.fetch() == 0x1260,
    ensures
        ({
            let (after, outcome) = Machine::initial(debug).load(program).cycle(keys, random);
            &&& after.screen == Screen::blank(64, 64)
            &&& after.program_counter == 0x2C0
            &&& outcome == (StepOutcome {
                status: StepStatus::Continued,
                tone_requested: false,
                display_dirty: true,
            })
        }),
        later.cycle(keys, random).0.screen == later.screen,
        later.cycle(keys, random).0.program_counter == 0x260,
{
    lemma_fields(0x12C0);
    lemma_fields(0x1260);
}

/// The debug controller's transitions: "pause" halts a running machine,
/// "resume" lets all but a faulted one run, "step" arms a halted one that
/// has not faulted, and each change keeps a faulted controller halted.
pub proof fn lemma_debug_controller(c: DebugView)
    requires
        c.faulted ==> c.state == RunState::Halted,
    ensures
        c.state == RunState::Running ==> c.pause().state == RunState::Halted,
        c.state != RunState::Running ==> c.pause() == c,
        !c.faulted ==> c.resume().state == RunState::Running,
        c.state == RunState::Halted && !c.faulted ==> c.single_step().state
            == RunState::SingleStepPending,
        c.state != RunState::Halted ==> c.single_step() == c,
        c.faulted ==> c.resume() == c && c.single_step() == c && c.pause() == c && !c.executes(),
        c.fault().faulted && c.fault().state == RunState::Halted,
        c.pause().faulted == c.faulted,
        c.resume().faulted == c.faulted,
        c.single_step().faulted == c.faulted,
        c.cycle_done().faulted == c.faulted,
        c.cycle_done().state == RunState::Halted || c.cycle_done().state == RunState::Running,
{
}

/// A step under a debug controller. Halted, the machine executes nothing:
/// the state stays and the status is `Paused`. Else the step is a cycle,
/// after which a controller that owed a single step is halted, so that the
/// step after it executes nothing; and a cycle that faults leaves the
/// controller halted and faulted.
pub proof fn lemma_debug_step(s: Machine, keys: Seq<bool>, random: u8)
    requires
        s.wf(),
        keys.len() == 16,
        s.debug is Some,
    ensures
        ({
            let controller = s.debug->0;
            let (after, outcome) = s.step(keys, random);
            &&& controller.state == RunState::Halted ==> after == s && outcome
                == StepOutcome::quiet(StepStatus::Paused)
            &&& controller.state != RunState::Halted ==> {
                &&& outcome == s.cycle(keys, random).1
                &&& after == (Machine { debug: after.debug, ..s.cycle(keys, random).0 })
                &&& !(outcome.status is Paused)
            }
            &&& controller.state == RunState::SingleStepPending ==> {
                &&& after.debug->0.state == RunState::Halted
                &&& after.step(keys, random) == (after, StepOutcome::quiet(StepStatus::Paused))
            }
            &&& outcome.status is Faulted ==> after.debug == Some(
                DebugView { state: RunState::Halted, faulted: true },
            )
            &&& controller.state == RunState::Running && !(outcome.status is Faulted)
                ==> after.debug == s.debug
        }),
{
}

/// The lowest key that is down: it is down, no key below it is, and it is
/// 16 exactly when no key is down.
pub proof fn lemma_first_key(keys: Seq<bool>)
    requires
        keys.len() == 16,
    ensures
        0 <= first_key(keys) <= 16,
        first_key(keys) < 16 ==> keys[first_key(keys)],
        forall|k: int| 0 <= k < first_key(keys) ==> !keys[k],
{
    lemma_first_key_from(keys, 0);
}

proof fn lemma_first_key_from(keys: Seq<bool>, from: int)
    requires
        keys.len() == 16,
        0 <= from <= 16,
    ensures
        from <= first_key_from(keys, from) <= 16,
        first_key_from(keys, from) < 16 ==> keys[first_key_from(keys, from)],
        forall|k: int| from <= k < first_key_from(keys, from) ==> !keys[k],
    decreases 16 - from,
{
    if from < 16 && !keys[from] {
        lemma_first_key_from(keys, from + 1);
    }
}

} // verus!
