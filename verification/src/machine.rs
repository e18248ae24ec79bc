//! The machine as mathematics: its state and what each operation does to
//! it. The executable `CPU` is specified against these functions.

use vstd::prelude::*;
use crate::debug::DebugView;
use crate::decoder::{decode_spec, Instruction};
use crate::error::Chip8Error;
use crate::framebuffer::Screen;

verus! {

/// The number of addressable bytes.
pub const MEMORY_SIZE: usize = 4096;

/// Where a program image is loaded and where execution starts.
pub const PROGRAM_START: u16 = 0x200;

/// The longest program image that fits.
pub const MAX_PROGRAM_SIZE: usize = 3584;

/// The highest program counter that leaves room for a two-byte fetch.
pub const LAST_FETCH_ADDRESS: u16 = 4094;

/// The number of return addresses that the stack holds.
pub const STACK_SIZE: u8 = 16;

/// The timers are decremented on every cycle whose number is a multiple of
/// this.
pub const TIMER_PERIOD: u8 = 5;

/// The bytes of one glyph.
pub const GLYPH_SIZE: u16 = 5;

/// A first instruction that asks for the tall display.
pub const TALL_DISPLAY_MARKER: u16 = 0x1260;

/// What is executed in place of the marker: a jump to `0x2C0`.
pub const TALL_DISPLAY_ENTRY: u16 = 0x12C0;

/// The glyphs of the sixteen hexadecimal digits, five bytes each.
pub const FONT_SET: [u8; 80] = [
    0xf0, 0x90, 0x90, 0x90, 0xf0, 0x20, 0x60, 0x20, 0x20, 0x70, 0xf0, 0x10, 0xf0, 0x80, 0xf0, 0xf0,
    0x10, 0xf0, 0x10, 0xf0, 0x90, 0x90, 0xf0, 0x10, 0x10, 0xf0, 0x80, 0xf0, 0x10, 0xf0, 0xf0, 0x80,
    0xf0, 0x90, 0xf0, 0xf0, 0x10, 0x20, 0x40, 0x40, 0xf0, 0x90, 0xf0, 0x90, 0xf0, 0xf0, 0x90, 0xf0,
    0x10, 0xf0, 0xf0, 0x90, 0xf0, 0x90, 0x90, 0xe0, 0x90, 0xe0, 0x90, 0xe0, 0xf0, 0x80, 0x80, 0x80,
    0xf0, 0xe0, 0x90, 0x90, 0x90, 0xe0, 0xf0, 0x80, 0xf0, 0x80, 0xf0, 0xf0, 0x80, 0xf0, 0x80, 0x80,
];

/// How a step ended.
#[derive(Clone, Copy, Debug, PartialEq, Eq, Structural)]
pub enum StepStatus {
    /// An instruction was executed and the machine goes on.
    Continued,
    /// The halt instruction was executed.
    Halted,
    /// The cycle could not complete.
    Faulted(Chip8Error),
    /// A debug controller held the machine: nothing was executed.
    Paused,
}

/// What a step tells the host.
#[derive(Clone, Copy, Debug, PartialEq, Eq, Structural)]
pub struct StepOutcome {
    /// How the step ended.
    pub status: StepStatus,
    /// The sound timer was set to a value above zero.
    pub tone_requested: bool,
    /// The display was cleared, drawn on or replaced.
    pub display_dirty: bool,
}

impl StepOutcome {
    /// An outcome with the given status and no effect on sound or display.
    pub open spec fn quiet(status: StepStatus) -> StepOutcome {
        StepOutcome { status, tone_requested: false, display_dirty: false }
    }
}

/// `v` reduced modulo 256.
pub open spec fn wrap8(v: int) -> u8 {
    (v % 256) as u8
}

/// The sum of two bytes modulo 256.
pub open spec fn sum_of(a: u8, b: u8) -> u8 {
    wrap8(a + b)
}

/// 1 if the sum of two bytes exceeds 255, else 0.
pub open spec fn carry_of(a: u8, b: u8) -> u8 {
    if a + b > 255 {
        1
    } else {
        0
    }
}

/// The difference `a - b` modulo 256.
pub open spec fn difference_of(a: u8, b: u8) -> u8 {
    wrap8(a - b)
}

/// 1 if `a - b` needs no borrow, that is if `a >= b`, else 0.
pub open spec fn no_borrow_of(a: u8, b: u8) -> u8 {
    if a >= b {
        1
    } else {
        0
    }
}

/// Bit `position` of a sprite line, counted from the most significant.
pub open spec fn sprite_bit(line: u8, position: int) -> u8 {
    (line >> ((7 - position) as u8)) & 0x01
}

/// The word that two bytes form, the first being the more significant.
pub open spec fn word_of(high: u8, low: u8) -> u16 {
    (256 * high + low) as u16
}

/// The index of the first key at or after `from` that is down, 16 if none is.
pub open spec fn first_key_from(keys: Seq<bool>, from: int) -> int
    decreases 16 - from,
{
    if from >= 16 {
        16
    } else if keys[from] {
        from
    } else {
        first_key_from(keys, from + 1)
    }
}

/// The lowest key that is down, 16 if none is.
pub open spec fn first_key(keys: Seq<bool>) -> int {
    first_key_from(keys, 0)
}

/// The whole state of the machine.
#[verifier::ext_equal]
pub struct Machine {
    /// The sixteen general registers; the last one is the flag register.
    pub registers: Seq<u8>,
    pub program_counter: u16,
    /// The 4096 bytes of memory.
    pub memory: Seq<u8>,
    /// The sixteen slots for return addresses.
    pub stack: Seq<u16>,
    /// The number of slots in use.
    pub stack_pointer: u8,
    pub sound_timer: u8,
    pub delay_timer: u8,
    pub index_register: u16,
    pub screen: Screen,
    /// The sixteen keys; `true` is down.
    pub keys: Seq<bool>,
    /// The number of cycles executed since the timers were last decremented.
    pub timer_phase: u8,
    /// Whether a first instruction has been fetched.
    pub booted: bool,
    /// The debug controller, if one is attached.
    pub debug: Option<DebugView>,
}

impl Machine {
    /// The state's invariant: the sizes are right, the stack pointer is within
    /// the stack, and the display is 64 pixels wide and 32 or 64 high.
    pub open spec fn wf(self) -> bool {
        &&& self.registers.len() == 16
        &&& self.memory.len() == 4096
        &&& self.stack.len() == 16
        &&& self.keys.len() == 16
        &&& self.stack_pointer <= 16
        &&& self.timer_phase < 5
        &&& self.screen.wf()
        &&& self.screen.width == 64
        &&& (self.screen.height == 32 || self.screen.height == 64)
    }

    /// The machine as it is made: everything zero but the program counter,
    /// which is at the load address, and the glyph table at the bottom of
    /// memory. The display is 64 by 32 and dark.
    pub open spec fn initial(debug: Option<DebugView>) -> Machine {
        Machine {
            registers: Seq::new(16, |i: int| 0u8),
            program_counter: 0x200,
            memory: Seq::new(4096, |a: int| if a < 80 { FONT_SET@[a] } else { 0u8 }),
            stack: Seq::new(16, |i: int| 0u16),
            stack_pointer: 0,
            sound_timer: 0,
            delay_timer: 0,
            index_register: 0,
            screen: Screen::blank(64, 32),
            keys: Seq::new(16, |i: int| false),
            timer_phase: 0,
            booted: false,
            debug,
        }
    }

    /// Register `x`.
    pub open spec fn v(self, x: u8) -> u8 {
        self.registers[x as int]
    }

    /// This state with register `x` set to `value`.
    pub open spec fn with_register(self, x: u8, value: u8) -> Machine {
        Machine { registers: self.registers.update(x as int, value), ..self }
    }

    /// Whether key `key` is down. There is no key above 15.
    pub open spec fn key_down(self, key: u8) -> bool {
        key < 16 && self.keys[key as int]
    }

    /// After a program image is loaded: the glyph table at address 0, the
    /// image from the load address on, every other byte as before.
    pub open spec fn load(self, program: Seq<u8>) -> Machine {
        Machine {
            memory: Seq::new(
                4096,
                |a: int|
                    if a < 80 {
                        FONT_SET@[a]
                    } else if 0x200 <= a < 0x200 + program.len() {
                        program[a - 0x200]
                    } else {
                        self.memory[a]
                    },
            ),
            ..self
        }
    }

    /// After the timers are decremented: each goes down by one unless it is
    /// zero already.
    pub open spec fn tick(self) -> Machine {
        Machine {
            delay_timer: if self.delay_timer > 0 {
                (self.delay_timer - 1) as u8
            } else {
                0
            },
            sound_timer: if self.sound_timer > 0 {
                (self.sound_timer - 1) as u8
            } else {
                0
            },
            ..self
        }
    }

    /// After a cycle is counted: on every fifth one the timers are
    /// decremented.
    pub open spec fn clock(self) -> Machine {
        if self.timer_phase + 1 == 5 {
            Machine { timer_phase: 0, ..self.tick() }
        } else {
            Machine { timer_phase: (self.timer_phase + 1) as u8, ..self }
        }
    }

    /// After the program counter moves on by one instruction.
    pub open spec fn next_instruction(self) -> Machine {
        Machine { program_counter: (self.program_counter + 2) as u16, ..self }
    }

    /// After the program counter moves back by one instruction.
    pub open spec fn undo_instruction(self) -> Machine {
        Machine { program_counter: (self.program_counter - 2) as u16, ..self }
    }

    /// After a skip instruction whose condition is `taken`.
    pub open spec fn skip_if(self, taken: bool) -> Machine {
        if taken {
            self.next_instruction()
        } else {
            self
        }
    }

    /// After "clear display": every pixel dark.
    pub open spec fn cls(self) -> Machine {
        Machine { screen: Screen::blank(self.screen.width, self.screen.height), ..self }
    }

    /// After "return": the top address is popped into the program counter.
    pub open spec fn ret(self) -> Machine {
        Machine {
            stack_pointer: (self.stack_pointer - 1) as u8,
            program_counter: self.stack[self.stack_pointer - 1],
            ..self
        }
    }

    /// After "jump".
    pub open spec fn jp_addr(self, addr: u16) -> Machine {
        Machine { program_counter: addr, ..self }
    }

    /// After "call": the program counter is pushed, then set.
    pub open spec fn call_addr(self, addr: u16) -> Machine {
        Machine {
            stack: self.stack.update(self.stack_pointer as int, self.program_counter),
            stack_pointer: (self.stack_pointer + 1) as u8,
            program_counter: addr,
            ..self
        }
    }

    /// After "skip if Vx equals the immediate".
    pub open spec fn se_vx_nn(self, x: u8, nn: u8) -> Machine {
        self.skip_if(self.v(x) == nn)
    }

    /// After "skip if Vx differs from the immediate".
    pub open spec fn sne_vx_nn(self, x: u8, nn: u8) -> Machine {
        self.skip_if(self.v(x) != nn)
    }

    /// After "skip if Vx equals Vy".
    pub open spec fn se_vx_vy(self, x: u8, y: u8) -> Machine {
        self.skip_if(self.v(x) == self.v(y))
    }

    /// After "skip if Vx differs from Vy".
    pub open spec fn sne_vx_vy(self, x: u8, y: u8) -> Machine {
        self.skip_if(self.v(x) != self.v(y))
    }

    /// After "load immediate".
    pub open spec fn ld_vx_nn(self, x: u8, nn: u8) -> Machine {
        self.with_register(x, nn)
    }

    /// After "add immediate": modulo 256, the flag register untouched.
    pub open spec fn add_vx_nn(self, x: u8, nn: u8) -> Machine {
        self.with_register(x, sum_of(self.v(x), nn))
    }

    /// After "load register".
    pub open spec fn ld_vx_vy(self, x: u8, y: u8) -> Machine {
        self.with_register(x, self.v(y))
    }

    /// After "or".
    pub open spec fn or_vx_vy(self, x: u8, y: u8) -> Machine {
        self.with_register(x, self.v(x) | self.v(y))
    }

    /// After "and".
    pub open spec fn and_vx_vy(self, x: u8, y: u8) -> Machine {
        self.with_register(x, self.v(x) & self.v(y))
    }

    /// After "xor".
    pub open spec fn xor_vx_vy(self, x: u8, y: u8) -> Machine {
        self.with_register(x, self.v(x) ^ self.v(y))
    }

    /// After "add registers": the flag register receives the carry, then Vx
    /// the sum (so with `x == 15` the sum is what stays).
    pub open spec fn add_vx_vy(self, x: u8, y: u8) -> Machine {
        self.with_register(15, carry_of(self.v(x), self.v(y))).with_register(
            x,
            sum_of(self.v(x), self.v(y)),
        )
    }

    /// After "subtract": the flag register receives "no borrow", then Vx the
    /// difference `Vx - Vy`.
    pub open spec fn sub_vx_vy(self, x: u8, y: u8) -> Machine {
        self.with_register(15, no_borrow_of(self.v(x), self.v(y))).with_register(
            x,
            difference_of(self.v(x), self.v(y)),
        )
    }

    /// After "reverse subtract": as "subtract", for `Vy - Vx`.
    pub open spec fn subn_vx_vy(self, x: u8, y: u8) -> Machine {
        self.with_register(15, no_borrow_of(self.v(y), self.v(x))).with_register(
            x,
            difference_of(self.v(y), self.v(x)),
        )
    }

    /// After "shift right": the flag register receives bit 0 of Vx, then Vx
    /// is shifted.
    pub open spec fn shr_vx_vy(self, x: u8) -> Machine {
        let flagged = self.with_register(15, self.v(x) & 0x1);
        flagged.with_register(x, flagged.v(x) >> 1)
    }

    /// After "shift left": the flag register receives bit 7 of Vx, then Vx
    /// is shifted.
    pub open spec fn shl_vx_vy(self, x: u8) -> Machine {
        let flagged = self.with_register(15, self.v(x) >> 7);
        flagged.with_register(x, flagged.v(x) << 1)
    }

    /// After "set index".
    pub open spec fn ld_i_addr(self, nnn: u16) -> Machine {
        Machine { index_register: nnn, ..self }
    }

    /// After "jump with offset".
    pub open spec fn jp_v0_addr(self, nnn: u16) -> Machine {
        Machine { program_counter: (nnn + self.v(0)) as u16, ..self }
    }

    /// After "random", when the random byte drawn is `random`.
    pub open spec fn rnd_vx_nn(self, x: u8, nn: u8, random: u8) -> Machine {
        self.with_register(x, random & nn)
    }

    /// After one pixel of a sprite is handled: bit `position` of the line
    /// `row` bytes above the index register. A set bit toggles the pixel
    /// `position` columns right of Vx and `row` rows below Vy, wrapping at
    /// the edges, and sets the flag register if that pixel was lit.
    pub open spec fn plot(self, x: u8, y: u8, row: int, position: int) -> Machine {
        let line = self.memory[self.index_register + row];
        if sprite_bit(line, position) == 1 {
            let col = (self.v(x) + position) % self.screen.width;
            let r = (self.v(y) + row) % self.screen.height;
            let collision = self.screen.pixel(col, r);
            Machine {
                screen: self.screen.with_pixel(col, r, !collision),
                registers: if collision {
                    self.registers.update(15, 1u8)
                } else {
                    self.registers
                },
                ..self
            }
        } else {
            self
        }
    }

    /// After the flag register is reset and the first `count` pixels of a
    /// sprite are handled, line by line, most significant bit first.
    pub open spec fn draw_prefix(self, x: u8, y: u8, count: nat) -> Machine
        decreases count,
    {
        if count == 0 {
            self.with_register(15, 0)
        } else {
            let done = (count - 1) as nat;
            self.draw_prefix(x, y, done).plot(x, y, done as int / 8, done as int % 8)
        }
    }

    /// After "draw sprite" of `n` lines.
    pub open spec fn drw_vx_vy_n(self, x: u8, y: u8, n: u8) -> Machine {
        self.draw_prefix(x, y, 8 * n as nat)
    }

    /// After "skip if key Vx is down".
    pub open spec fn skp_vx(self, x: u8) -> Machine {
        self.skip_if(self.key_down(self.v(x)))
    }

    /// After "skip if key Vx is up".
    pub open spec fn sknp_vx(self, x: u8) -> Machine {
        self.skip_if(!self.key_down(self.v(x)))
    }

    /// After "read delay timer".
    pub open spec fn ld_vx_dt(self, x: u8) -> Machine {
        self.with_register(x, self.delay_timer)
    }

    /// After "wait for key": with no key down the program counter goes back
    /// to the instruction, which so runs again next cycle; else Vx receives
    /// the lowest key that is down.
    pub open spec fn ld_vx_n(self, x: u8) -> Machine {
        if first_key(self.keys) < 16 {
            self.with_register(x, first_key(self.keys) as u8)
        } else {
            self.undo_instruction()
        }
    }

    /// After "set delay timer".
    pub open spec fn ld_dt_vx(self, x: u8) -> Machine {
        Machine { delay_timer: self.v(x), ..self }
    }

    /// After "set sound timer".
    pub open spec fn ld_st_vx(self, x: u8) -> Machine {
        Machine { sound_timer: self.v(x), ..self }
    }

    /// After "add to index".
    pub open spec fn add_i_vx(self, x: u8) -> Machine {
        Machine { index_register: (self.index_register + self.v(x)) as u16, ..self }
    }

    /// After "load glyph address": five bytes per glyph.
    pub open spec fn ld_f_vx(self, x: u8) -> Machine {
        Machine { index_register: (self.v(x) * 5) as u16, ..self }
    }

    /// After "store decimal digits": hundreds, tens, ones.
    pub open spec fn ld_b_vx(self, x: u8) -> Machine {
        let i = self.index_register as int;
        Machine {
            memory: self.memory.update(i, self.v(x) / 100).update(
                i + 1,
                (self.v(x) / 10) % 10,
            ).update(i + 2, self.v(x) % 10),
            ..self
        }
    }

    /// After "store registers": `V0..=Vx` at `I..=I+x`.
    pub open spec fn ld_i_vx(self, x: u8) -> Machine {
        let i = self.index_register as int;
        Machine {
            memory: Seq::new(
                4096,
                |a: int|
                    if i <= a <= i + x {
                        self.registers[a - i]
                    } else {
                        self.memory[a]
                    },
            ),
            ..self
        }
    }

    /// After "load registers": `V0..=Vx` from `I..=I+x`.
    pub open spec fn ld_vx_i(self, x: u8) -> Machine {
        let i = self.index_register as int;
        Machine {
            registers: Seq::new(
                16,
                |r: int|
                    if r <= x {
                        self.memory[i + r]
                    } else {
                        self.registers[r]
                    },
            ),
            ..self
        }
    }

    /// The error that stops `instruction` in this state, if any. The
    /// program counter has moved past the instruction already.
    pub open spec fn fault(self, instruction: Instruction) -> Option<Chip8Error> {
        let i = self.index_register;
        match instruction {
            Instruction::Return => if self.stack_pointer == 0 {
                Some(Chip8Error::StackUnderflow)
            } else {
                None
            },
            Instruction::Call { nnn } => if self.stack_pointer >= 16 {
                Some(Chip8Error::StackOverflow)
            } else {
                None
            },
            Instruction::Draw { x, y, n } => if n > 0 && i + n > 4096 {
                Some(Chip8Error::IndexOutOfBounds(i))
            } else {
                None
            },
            Instruction::AddIndex { x } => if i + self.v(x) > 0xFFFF {
                Some(Chip8Error::IndexOutOfBounds(i))
            } else {
                None
            },
            Instruction::StoreDecimal { x } => if i + 2 > 4095 {
                Some(Chip8Error::IndexOutOfBounds(i))
            } else {
                None
            },
            Instruction::StoreRegisters { x } => if i + x > 4095 {
                Some(Chip8Error::IndexOutOfBounds(i))
            } else {
                None
            },
            Instruction::LoadRegisters { x } => if i + x > 4095 {
                Some(Chip8Error::IndexOutOfBounds(i))
            } else {
                None
            },
            Instruction::Illegal { opcode } => Some(Chip8Error::IllegalInstruction(opcode)),
            _ => None,
        }
    }

    /// The state after `instruction`, when nothing stops it. `random` is the
    /// byte that "random" draws; no other instruction reads it.
    pub open spec fn apply(self, instruction: Instruction, random: u8) -> Machine {
        match instruction {
            Instruction::Halt => self,
            Instruction::ClearDisplay => self.cls(),
            Instruction::Return => self.ret(),
            Instruction::Jump { nnn } => self.jp_addr(nnn),
            Instruction::Call { nnn } => self.call_addr(nnn),
            Instruction::SkipEqualImmediate { x, kk } => self.se_vx_nn(x, kk),
            Instruction::SkipNotEqualImmediate { x, kk } => self.sne_vx_nn(x, kk),
            Instruction::SkipEqualRegister { x, y } => self.se_vx_vy(x, y),
            Instruction::LoadImmediate { x, kk } => self.ld_vx_nn(x, kk),
            Instruction::AddImmediate { x, kk } => self.add_vx_nn(x, kk),
            Instruction::LoadRegister { x, y } => self.ld_vx_vy(x, y),
            Instruction::Or { x, y } => self.or_vx_vy(x, y),
            Instruction::And { x, y } => self.and_vx_vy(x, y),
            Instruction::Xor { x, y } => self.xor_vx_vy(x, y),
            Instruction::AddRegister { x, y } => self.add_vx_vy(x, y),
            Instruction::Subtract { x, y } => self.sub_vx_vy(x, y),
            Instruction::ShiftRight { x } => self.shr_vx_vy(x),
            Instruction::SubtractReversed { x, y } => self.subn_vx_vy(x, y),
            Instruction::ShiftLeft { x } => self.shl_vx_vy(x),
            Instruction::SkipNotEqualRegister { x, y } => self.sne_vx_vy(x, y),
            Instruction::LoadIndex { nnn } => self.ld_i_addr(nnn),
            Instruction::JumpOffset { nnn } => self.jp_v0_addr(nnn),
            Instruction::Random { x, kk } => self.rnd_vx_nn(x, kk, random),
            Instruction::Draw { x, y, n } => self.drw_vx_vy_n(x, y, n),
            Instruction::SkipKeyDown { x } => self.skp_vx(x),
            Instruction::SkipKeyUp { x } => self.sknp_vx(x),
            Instruction::ReadDelay { x } => self.ld_vx_dt(x),
            Instruction::WaitKey { x } => self.ld_vx_n(x),
            Instruction::SetDelay { x } => self.ld_dt_vx(x),
            Instruction::SetSound { x } => self.ld_st_vx(x),
            Instruction::AddIndex { x } => self.add_i_vx(x),
            Instruction::LoadGlyph { x } => self.ld_f_vx(x),
            Instruction::StoreDecimal { x } => self.ld_b_vx(x),
            Instruction::StoreRegisters { x } => self.ld_i_vx(x),
            Instruction::LoadRegisters { x } => self.ld_vx_i(x),
            Instruction::Illegal { opcode } => self,
        }
    }

    /// What `instruction` tells the host when nothing stops it.
    pub open spec fn report(self, instruction: Instruction) -> StepOutcome {
        StepOutcome {
            status: if instruction is Halt {
                StepStatus::Halted
            } else {
                StepStatus::Continued
            },
            tone_requested: instruction matches Instruction::SetSound { x } && self.v(x) > 0,
            display_dirty: instruction is ClearDisplay || instruction is Draw,
        }
    }

    /// The state and the outcome after `instruction` is dispatched. A fault
    /// leaves the state as it was.
    pub open spec fn execute(self, instruction: Instruction, random: u8) -> (Machine, StepOutcome) {
        match self.fault(instruction) {
            Some(error) => (self, StepOutcome::quiet(StepStatus::Faulted(error))),
            None => (self.apply(instruction, random), self.report(instruction)),
        }
    }

    /// Whether the tall display is asked for: the first instruction fetched,
    /// at the load address, is the marker.
    pub open spec fn wants_tall_display(self, word: u16) -> bool {
        !self.booted && self.program_counter == 0x200 && word == 0x1260
    }

    /// The word that is executed when `word` is dispatched: `12C0` in place
    /// of the marker for the tall display, else `word` itself.
    pub open spec fn effective_word(self, word: u16) -> u16 {
        if self.wants_tall_display(word) {
            0x12C0
        } else {
            word
        }
    }

    /// The state and the outcome after `word` is dispatched as if it had
    /// been fetched at the program counter: the counter must leave room for
    /// a fetch; the marker for the tall display, where it counts, replaces
    /// the display by a dark one of 64 by 64 and is executed as a jump to
    /// `0x2C0`; the counter moves past the instruction; the instruction is
    /// executed.
    pub open spec fn dispatch(self, word: u16, random: u8) -> (Machine, StepOutcome) {
        if self.program_counter > 4094 {
            (
                self,
                StepOutcome::quiet(
                    StepStatus::Faulted(Chip8Error::ProgramCounterOutOfBounds(self.program_counter)),
                ),
            )
        } else {
            let tall = self.wants_tall_display(word);
            let fetched = Machine {
                booted: true,
                screen: if tall {
                    Screen::blank(64, 64)
                } else {
                    self.screen
                },
                ..self
            };
            let (after, outcome) = fetched.next_instruction().execute(
                decode_spec(self.effective_word(word)),
                random,
            );
            (after, StepOutcome { display_dirty: outcome.display_dirty || tall, ..outcome })
        }
    }

    /// The word at the program counter.
    pub open spec fn fetch(self) -> u16 {
        word_of(self.memory[self.program_counter as int], self.memory[self.program_counter + 1])
    }

    /// Whether `instruction` is one of those that set the program counter
    /// themselves: the jumps, call, return, the skips and "wait for key".
    pub open spec fn sets_program_counter(instruction: Instruction) -> bool {
        match instruction {
            Instruction::Jump { .. }
            | Instruction::JumpOffset { .. }
            | Instruction::Call { .. }
            | Instruction::Return
            | Instruction::SkipEqualImmediate { .. }
            | Instruction::SkipNotEqualImmediate { .. }
            | Instruction::SkipEqualRegister { .. }
            | Instruction::SkipNotEqualRegister { .. }
            | Instruction::SkipKeyDown { .. }
            | Instruction::SkipKeyUp { .. }
            | Instruction::WaitKey { .. } => true,
            _ => false,
        }
    }

    /// The state and the outcome after one cycle: the cycle is counted, the
    /// keys are sampled, a word is fetched and dispatched.
    pub open spec fn cycle(self, keys: Seq<bool>, random: u8) -> (Machine, StepOutcome) {
        let sampled = Machine { keys, ..self.clock() };
        sampled.dispatch(sampled.fetch(), random)
    }

    /// Whether the next step executes a "random" instruction.
    pub open spec fn draws_random(self) -> bool {
        &&& self.debug matches Some(controller) ==> controller.executes()
        &&& self.program_counter <= 4094
        &&& decode_spec(self.fetch()) is Random
    }

    /// The state and the outcome after one step. Without a debug controller
    /// a step is a cycle. With one, a step is a cycle unless the controller
    /// is halted, when nothing changes; a fault halts the controller for
    /// good, and a pending single step is paid.
    pub open spec fn step(self, keys: Seq<bool>, random: u8) -> (Machine, StepOutcome) {
        match self.debug {
            None => self.cycle(keys, random),
            Some(controller) => if controller.executes() {
                let (after, outcome) = self.cycle(keys, random);
                let next = if outcome.status is Faulted {
                    controller.fault()
                } else {
                    controller.cycle_done()
                };
                (Machine { debug: Some(next), ..after }, outcome)
            } else {
                (self, StepOutcome::quiet(StepStatus::Paused))
            },
        }
    }

    /// The state and the outcome after a run of at most `randoms.len()`
    /// steps, the step at place `k` drawing `randoms[k]`: the run stops
    /// after the first step whose status is not `Continued`. The outcome
    /// has the status of the last step, and says whether any step asked
    /// for a tone or touched the display.
    pub open spec fn run(self, keys: Seq<bool>, randoms: Seq<u8>) -> (Machine, StepOutcome)
        decreases randoms.len(),
    {
        if randoms.len() == 0 {
            (self, StepOutcome::quiet(StepStatus::Continued))
        } else {
            let (before, so_far) = self.run(keys, randoms.drop_last());
            if so_far.status is Continued {
                let (after, outcome) = before.step(keys, randoms.last());
                (
                    after,
                    StepOutcome {
                        status: outcome.status,
                        tone_requested: so_far.tone_requested || outcome.tone_requested,
                        display_dirty: so_far.display_dirty || outcome.display_dirty,
                    },
                )
            } else {
                (before, so_far)
            }
        }
    }
}

} // verus!
